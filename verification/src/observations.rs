//! What the statements mean: the records of delay that a filter lets
//! through, the line that each belongs to, and their totals group by group.
//!
//! The store keeps one observation for each trip at each station. The
//! functions of this module compute on a list of observations what the
//! statements ask the store to compute on its table, with exact sums in
//! place of rounded averages.

use crate::calendar::{CivilDate, Moment, Timestamp};
use crate::filter::{Filter, FilterView};
use crate::rows::Shape;
use crate::text::{chars_of, is_whitespace, whitespace};
use vstd::prelude::*;
use vstd::string::*;

verus! {

/// The length of the run that `s` begins with: of white space where `white`
/// holds, of other characters where it does not. The run ends before the
/// first character of the other sort, or with `s`.
pub open spec fn run_length(s: Seq<char>, white: bool) -> int
    decreases s.len(),
{
    if s.len() == 0 || is_whitespace(s[0]) != white {
        0
    } else {
        1 + run_length(s.drop_first(), white)
    }
}

/// The line of a raw transportation name: its second word. The words of a
/// name are its longest runs of characters that are not white space; white
/// space before, between and after them separates them and belongs to none.
/// A name of fewer than two words has the empty line.
pub open spec fn derived_line(name: Seq<char>) -> Seq<char> {
    let from_first_word = name.skip(run_length(name, true));
    let after_first_word = from_first_word.skip(run_length(from_first_word, false));
    let from_second_word = after_first_word.skip(run_length(after_first_word, true));
    from_second_word.take(run_length(from_second_word, false))
}

/// Whether all of `s` is white space, where `white` holds, or none of it,
/// where it does not.
pub open spec fn is_run(s: Seq<char>, white: bool) -> bool {
    forall|i: int| 0 <= i < s.len() ==> is_whitespace(#[trigger] s[i]) == white
}

/// `run_length` is the length of the longest run that `s` begins with.
pub proof fn lemma_run_length(s: Seq<char>, white: bool)
    ensures
        0 <= run_length(s, white) <= s.len(),
        is_run(s.take(run_length(s, white)), white),
        run_length(s, white) < s.len() ==> is_whitespace(s[run_length(s, white)]) != white,
    decreases s.len(),
{
    if s.len() == 0 || is_whitespace(s[0]) != white {
    } else {
        let rest = s.drop_first();
        lemma_run_length(rest, white);
        let run = s.take(run_length(s, white));
        assert forall|i: int| 0 <= i < run.len() implies is_whitespace(#[trigger] run[i])
            == white by {
            if i > 0 {
                assert(run[i] == rest.take(run_length(rest, white))[i - 1]);
            }
        }
    }
}

/// A run that ends before a character of the other sort, or with `s`, is
/// the run that `run_length` measures.
pub proof fn lemma_run_length_is(s: Seq<char>, white: bool, end: int)
    requires
        0 <= end <= s.len(),
        is_run(s.take(end), white),
        end < s.len() ==> is_whitespace(s[end]) != white,
    ensures
        run_length(s, white) == end,
{
    lemma_run_length(s, white);
    let found = run_length(s, white);
    if found < end {
        assert(s.take(end)[found] == s[found]);
    } else if found > end {
        assert(s.take(found)[end] == s[end]);
    }
}

/// A name of one word, with or without white space around it, has no line;
/// nor has a name of no word at all.
pub proof fn lemma_line_of_one_word(before: Seq<char>, word: Seq<char>, after: Seq<char>)
    requires
        is_run(before, true),
        is_run(word, false),
        is_run(after, true),
    ensures
        derived_line(before + word + after) == Seq::<char>::empty(),
{
    let name = before + word + after;
    if word.len() == 0 {
        assert(name.take(name.len() as int) =~= name);
        lemma_run_length_is(name, true, name.len() as int);
        let rest = name.skip(name.len() as int);
        assert(rest =~= Seq::<char>::empty());
    } else {
        assert(name.take(before.len() as int) =~= before);
        assert(name[before.len() as int] == word[0]);
        lemma_run_length_is(name, true, before.len() as int);
        let from_first_word = name.skip(before.len() as int);
        assert(from_first_word =~= word + after);
        assert(from_first_word.take(word.len() as int) =~= word);
        if after.len() > 0 {
            assert(from_first_word[word.len() as int] == after[0]);
        }
        lemma_run_length_is(from_first_word, false, word.len() as int);
        let after_first_word = from_first_word.skip(word.len() as int);
        assert(after_first_word =~= after);
        assert(after.take(after.len() as int) =~= after);
        lemma_run_length_is(after, true, after.len() as int);
        assert(after.skip(after.len() as int) =~= Seq::<char>::empty());
    }
}

/// The line of a name of two words or more is its second word, however
/// much white space stands before the first word and between the two, and
/// whatever follows the second word after white space.
pub proof fn lemma_line_of_two_words(
    before: Seq<char>,
    agency: Seq<char>,
    between: Seq<char>,
    line: Seq<char>,
    rest: Seq<char>,
)
    requires
        is_run(before, true),
        is_run(agency, false),
        agency.len() > 0,
        is_run(between, true),
        between.len() > 0,
        is_run(line, false),
        line.len() > 0,
        rest.len() > 0 ==> is_whitespace(rest[0]),
    ensures
        derived_line(before + agency + between + line + rest) == line,
{
    let name = before + agency + between + line + rest;
    assert(name.take(before.len() as int) =~= before);
    assert(name[before.len() as int] == agency[0]);
    lemma_run_length_is(name, true, before.len() as int);
    let from_first_word = name.skip(before.len() as int);
    assert(from_first_word =~= agency + between + line + rest);
    assert(from_first_word.take(agency.len() as int) =~= agency);
    assert(from_first_word[agency.len() as int] == between[0]);
    lemma_run_length_is(from_first_word, false, agency.len() as int);
    let after_first_word = from_first_word.skip(agency.len() as int);
    assert(after_first_word =~= between + line + rest);
    assert(after_first_word.take(between.len() as int) =~= between);
    assert(after_first_word[between.len() as int] == line[0]);
    lemma_run_length_is(after_first_word, true, between.len() as int);
    let from_second_word = after_first_word.skip(between.len() as int);
    assert(from_second_word =~= line + rest);
    assert(from_second_word.take(line.len() as int) =~= line);
    if rest.len() > 0 {
        assert(from_second_word[line.len() as int] == rest[0]);
    }
    lemma_run_length_is(from_second_word, false, line.len() as int);
}

/// The end of the run that begins at `from`.
fn run_end(chars: &Vec<char>, from: usize, white: bool) -> (end: usize)
    requires
        from <= chars.len(),
    ensures
        end == from + run_length(chars@.skip(from as int), white),
        from <= end <= chars.len(),
{
    let mut end: usize = from;
    while end < chars.len() && whitespace(chars[end]) == white
        invariant
            from <= end <= chars.len(),
            forall|i: int| from <= i < end ==> is_whitespace(#[trigger] chars@[i]) == white,
        decreases chars.len() - end,
    {
        end = end + 1;
    }
    proof {
        let rest = chars@.skip(from as int);
        let run = rest.take(end - from);
        assert forall|i: int| 0 <= i < run.len() implies is_whitespace(#[trigger] run[i])
            == white by {
            assert(run[i] == chars@[from + i]);
        }
        lemma_run_length_is(rest, white, end - from);
    }
    end
}

/// The line of a raw transportation name: its second word, or nothing.
pub fn derive_line(name: &str) -> (line: String)
    ensures
        line@ == derived_line(name@),
{
    let chars = chars_of(name);
    let first_word = run_end(&chars, 0, true);
    let first_end = run_end(&chars, first_word, false);
    let second_word = run_end(&chars, first_end, true);
    let second_end = run_end(&chars, second_word, false);
    proof {
        let s = name@;
        assert(s.skip(0) =~= s);
        assert(s.skip(first_word as int).skip(first_end - first_word) =~= s.skip(
            first_end as int,
        ));
        assert(s.skip(first_end as int).skip(second_word - first_end) =~= s.skip(
            second_word as int,
        ));
        assert(s.skip(second_word as int).take(second_end - second_word) =~= s.subrange(
            second_word as int,
            second_end as int,
        ));
    }
    String::from_str(name.substring_char(second_word, second_end))
}

/// The delay of one trip at one station.
#[derive(Clone, Debug, PartialEq, Eq)]
pub struct Observation {
    pub station: String,
    pub transportation_name: String,
    pub delay: i64,
    pub planned: Timestamp,
}

/// The mathematical model of an [`Observation`].
pub struct ObservationView {
    pub station: Seq<char>,
    pub transportation_name: Seq<char>,
    pub delay: int,
    pub planned: Moment,
}

impl View for Observation {
    type V = ObservationView;

    open spec fn view(&self) -> ObservationView {
        ObservationView {
            station: self.station@,
            transportation_name: self.transportation_name@,
            delay: self.delay as int,
            planned: self.planned@,
        }
    }
}

/// The models of a list of observations, in the same order.
pub open spec fn observation_views(observations: Seq<Observation>) -> Seq<ObservationView> {
    Seq::new(observations.len(), |i: int| observations[i]@)
}

/// What the delays are grouped by.
#[derive(Clone, Copy, Debug, PartialEq, Eq, Structural)]
pub enum Grouping {
    /// By the line alone.
    ByLine,
    /// By the station and the line.
    ByStationAndLine,
}

/// How the delays of each shape of record are grouped. Notices are not
/// grouped into tallies.
pub open spec fn grouping_of(shape: Shape) -> Option<Grouping> {
    match shape {
        Shape::LineDelay => Some(Grouping::ByLine),
        Shape::StationDelay => Some(Grouping::ByStationAndLine),
        Shape::StationInfo => None,
        Shape::Incident => None,
    }
}

impl Grouping {
    /// How the delays of a shape of record are grouped.
    pub fn of(shape: Shape) -> (r: Option<Grouping>)
        ensures
            r == grouping_of(shape),
    {
        match shape {
            Shape::LineDelay => Some(Grouping::ByLine),
            Shape::StationDelay => Some(Grouping::ByStationAndLine),
            Shape::StationInfo => None,
            Shape::Incident => None,
        }
    }
}

/// What the observations of one group have in common. Where delays are
/// grouped by the line alone, the station is empty.
pub struct GroupKey {
    pub station: Seq<char>,
    pub line: Seq<char>,
}

/// The sum of some delays and their number. Their mean is the quotient of
/// the two.
pub struct Tally {
    pub total: int,
    pub count: int,
}

impl Tally {
    /// The tally of no delays.
    pub open spec fn zero() -> Tally {
        Tally { total: 0, count: 0 }
    }

    /// The tally of the delays of both.
    pub open spec fn plus(self, other: Tally) -> Tally {
        Tally { total: self.total + other.total, count: self.count + other.count }
    }
}

impl ObservationView {
    /// The line that the observation belongs to.
    pub open spec fn line(self) -> Seq<char> {
        derived_line(self.transportation_name)
    }

    /// Whether `filter` lets the observation through.
    pub open spec fn passes(self, filter: FilterView) -> bool {
        filter.admits(self.line(), self.planned)
    }

    /// The group that the observation belongs to.
    pub open spec fn key(self, grouping: Grouping) -> GroupKey {
        GroupKey {
            station: match grouping {
                Grouping::ByLine => Seq::empty(),
                Grouping::ByStationAndLine => self.station,
            },
            line: self.line(),
        }
    }

    /// Whether the observation passes `filter` and belongs to the group
    /// `key`.
    pub open spec fn counts_for(self, filter: FilterView, grouping: Grouping, key: GroupKey) -> bool {
        self.passes(filter) && self.key(grouping) == key
    }

    /// What the observation adds to the tally of the group `key`.
    pub open spec fn share(self, filter: FilterView, grouping: Grouping, key: GroupKey) -> Tally {
        if self.counts_for(filter, grouping, key) {
            Tally { total: self.delay, count: 1 }
        } else {
            Tally::zero()
        }
    }
}

/// The sum and the number of the delays of those of `observations` that pass
/// `filter` and belong to the group `key`.
pub open spec fn tally(
    observations: Seq<ObservationView>,
    filter: FilterView,
    grouping: Grouping,
    key: GroupKey,
) -> Tally
    decreases observations.len(),
{
    if observations.len() == 0 {
        Tally::zero()
    } else {
        tally(observations.drop_last(), filter, grouping, key).plus(
            observations.last().share(filter, grouping, key),
        )
    }
}

/// The groups of those of `observations` that pass `filter`, each once, in
/// the order in which they first occur.
pub open spec fn keys_of(
    observations: Seq<ObservationView>,
    filter: FilterView,
    grouping: Grouping,
) -> Seq<GroupKey>
    decreases observations.len(),
{
    if observations.len() == 0 {
        Seq::empty()
    } else {
        let before = keys_of(observations.drop_last(), filter, grouping);
        let last = observations.last();
        if last.passes(filter) && !before.contains(last.key(grouping)) {
            before.push(last.key(grouping))
        } else {
            before
        }
    }
}

/// One group with the tally of its delays.
#[derive(Clone, Debug, PartialEq, Eq)]
pub struct Group {
    /// The station; empty where delays are grouped by the line alone.
    pub station: String,
    pub line: String,
    /// The sum of the delays.
    pub total: i128,
    /// The number of the delays.
    pub count: usize,
}

/// The mathematical model of a [`Group`].
pub struct GroupView {
    pub key: GroupKey,
    pub tally: Tally,
}

impl View for Group {
    type V = GroupView;

    open spec fn view(&self) -> GroupView {
        GroupView {
            key: GroupKey { station: self.station@, line: self.line@ },
            tally: Tally { total: self.total as int, count: self.count as int },
        }
    }
}

/// The models of a list of groups, in the same order.
pub open spec fn group_views(groups: Seq<Group>) -> Seq<GroupView> {
    Seq::new(groups.len(), |i: int| groups[i]@)
}

/// The groups of those of `observations` that pass `filter`, in the order in
/// which they first occur, each with its tally.
pub open spec fn groups_of(
    observations: Seq<ObservationView>,
    filter: FilterView,
    grouping: Grouping,
) -> Seq<GroupView> {
    let keys = keys_of(observations, filter, grouping);
    Seq::new(
        keys.len(),
        |i: int| GroupView { key: keys[i], tally: tally(observations, filter, grouping, keys[i]) },
    )
}

/// A group is listed exactly when an observation that passes the filter
/// belongs to it, and no group is listed twice.
pub proof fn lemma_keys(
    observations: Seq<ObservationView>,
    filter: FilterView,
    grouping: Grouping,
)
    ensures
        keys_of(observations, filter, grouping).no_duplicates(),
        forall|key: GroupKey| #[trigger]
            keys_of(observations, filter, grouping).contains(key) <==> exists|i: int|
                0 <= i < observations.len() && #[trigger] observations[i].counts_for(
                    filter,
                    grouping,
                    key,
                ),
    decreases observations.len(),
{
    let keys = keys_of(observations, filter, grouping);
    if observations.len() > 0 {
        let shorter = observations.drop_last();
        let before = keys_of(shorter, filter, grouping);
        let last = observations.last();
        lemma_keys(shorter, filter, grouping);
        assert forall|key: GroupKey| #[trigger]
            keys.contains(key) <==> exists|i: int|
                0 <= i < observations.len() && #[trigger] observations[i].counts_for(
                    filter,
                    grouping,
                    key,
                ) by {
            if keys.contains(key) {
                if before.contains(key) {
                    let i = choose|i: int|
                        0 <= i < shorter.len() && #[trigger] shorter[i].counts_for(
                            filter,
                            grouping,
                            key,
                        );
                    assert(observations[i].counts_for(filter, grouping, key));
                } else {
                    let at = choose|at: int| 0 <= at < keys.len() && keys[at] == key;
                    assert(at == before.len());
                    assert(observations[observations.len() - 1].counts_for(filter, grouping, key));
                }
            }
            if exists|i: int|
                0 <= i < observations.len() && #[trigger] observations[i].counts_for(
                    filter,
                    grouping,
                    key,
                ) {
                let i = choose|i: int|
                    0 <= i < observations.len() && #[trigger] observations[i].counts_for(
                        filter,
                        grouping,
                        key,
                    );
                if i < shorter.len() {
                    assert(shorter[i].counts_for(filter, grouping, key));
                    assert(before.contains(key));
                    let at = choose|at: int| 0 <= at < before.len() && before[at] == key;
                    assert(keys[at] == key);
                } else {
                    if before.contains(key) {
                        let at = choose|at: int| 0 <= at < before.len() && before[at] == key;
                        assert(keys[at] == key);
                    } else {
                        assert(keys[before.len() as int] == key);
                    }
                }
            }
        }
    } else {
        assert forall|key: GroupKey| !(#[trigger] keys.contains(key)) by {}
    }
}

/// A group that no observation belongs to has an empty tally.
pub proof fn lemma_tally_of_absent_group(
    observations: Seq<ObservationView>,
    filter: FilterView,
    grouping: Grouping,
    key: GroupKey,
)
    requires
        !keys_of(observations, filter, grouping).contains(key),
    ensures
        tally(observations, filter, grouping, key) == Tally::zero(),
    decreases observations.len(),
{
    if observations.len() > 0 {
        let before = keys_of(observations.drop_last(), filter, grouping);
        let keys = keys_of(observations, filter, grouping);
        if before.contains(key) {
            let at = choose|at: int| 0 <= at < before.len() && before[at] == key;
            assert(keys[at] == key);
        }
        if observations.last().counts_for(filter, grouping, key) {
            assert(keys[keys.len() - 1] == key);
        }
        lemma_tally_of_absent_group(observations.drop_last(), filter, grouping, key);
    }
}

/// A tally counts no more delays than there are observations, and its sum is
/// bounded by their number.
pub proof fn lemma_tally_bounds(
    observations: Seq<ObservationView>,
    filter: FilterView,
    grouping: Grouping,
    key: GroupKey,
)
    requires
        forall|i: int|
            0 <= i < observations.len() ==> i64::MIN <= (#[trigger] observations[i]).delay
                <= i64::MAX,
    ensures
        0 <= tally(observations, filter, grouping, key).count <= observations.len(),
        tally(observations, filter, grouping, key).count * i64::MIN <= tally(
            observations,
            filter,
            grouping,
            key,
        ).total <= tally(observations, filter, grouping, key).count * i64::MAX,
    decreases observations.len(),
{
    if observations.len() > 0 {
        let shorter = observations.drop_last();
        assert forall|i: int| 0 <= i < shorter.len() implies i64::MIN <= (
        #[trigger] shorter[i]).delay <= i64::MAX by {
            assert(shorter[i] == observations[i]);
        }
        lemma_tally_bounds(shorter, filter, grouping, key);
        assert(i64::MIN <= observations[observations.len() - 1].delay <= i64::MAX);
    }
}

/// The first group with the given station and line.
fn position(groups: &Vec<Group>, station: &String, line: &String) -> (r: Option<usize>)
    ensures
        match r {
            Some(at) => at < groups.len() && groups@[at as int]@.key == (GroupKey {
                station: station@,
                line: line@,
            }),
            None => forall|i: int|
                0 <= i < groups.len() ==> (#[trigger] groups@[i])@.key != (GroupKey {
                    station: station@,
                    line: line@,
                }),
        },
{
    let mut at: usize = 0;
    while at < groups.len()
        invariant
            at <= groups.len(),
            forall|i: int|
                0 <= i < at ==> (#[trigger] groups@[i])@.key != (GroupKey {
                    station: station@,
                    line: line@,
                }),
        decreases groups.len() - at,
    {
        if groups[at].station == *station && groups[at].line == *line {
            return Some(at);
        }
        at = at + 1;
    }
    None
}

/// Groups those of `observations` that pass `filter` and adds up the delays
/// of each group. The groups come in the order in which they first occur.
pub fn group_totals(observations: &Vec<Observation>, filter: &Filter, grouping: Grouping) -> (groups:
    Vec<Group>)
    ensures
        group_views(groups@) == groups_of(observation_views(observations@), filter@, grouping),
{
    let ghost all = observation_views(observations@);
    let mut groups: Vec<Group> = Vec::new();
    let mut i: usize = 0;
    assert(group_views(groups@) =~= groups_of(all.take(0), filter@, grouping));
    while i < observations.len()
        invariant
            i <= observations.len(),
            all == observation_views(observations@),
            group_views(groups@) == groups_of(all.take(i as int), filter@, grouping),
        decreases observations.len() - i,
    {
        let ghost seen = all.take(i as int);
        let ghost next = all.take(i + 1);
        let ghost keys = keys_of(seen, filter@, grouping);
        let ghost old_views = group_views(groups@);
        let observation = &observations[i];
        proof {
            assert(next.drop_last() =~= seen);
            assert(next.last() == observation@);
            assert(old_views.len() == keys.len());
            assert forall|m: int| 0 <= m < keys.len() implies (#[trigger] groups@[m])@
                == groups_of(seen, filter@, grouping)[m] by {
                assert(old_views[m] == groups@[m]@);
            }
        }
        let line = derive_line(observation.transportation_name.as_str());
        if filter.admits(&line, &observation.planned) {
            let station = match grouping {
                Grouping::ByLine => String::new(),
                Grouping::ByStationAndLine => observation.station.clone(),
            };
            let ghost key = observation@.key(grouping);
            assert(key == (GroupKey { station: station@, line: line@ }));
            match position(&groups, &station, &line) {
                Some(at) => {
                    proof {
                        lemma_keys(seen, filter@, grouping);
                        assert(keys[at as int] == key);
                        assert(keys.contains(key));
                        assert forall|k: int| 0 <= k < seen.len() implies i64::MIN <= (
                        #[trigger] seen[k]).delay <= i64::MAX by {
                            assert(seen[k] == observations@[k]@);
                        }
                        lemma_tally_bounds(seen, filter@, grouping, key);
                        assert(tally(seen, filter@, grouping, key).count * i64::MAX <= seen.len()
                            * i64::MAX) by (nonlinear_arith)
                            requires
                                0 <= tally(seen, filter@, grouping, key).count <= seen.len(),
                        ;
                        assert(tally(seen, filter@, grouping, key).count * i64::MIN >= seen.len()
                            * i64::MIN) by (nonlinear_arith)
                            requires
                                0 <= tally(seen, filter@, grouping, key).count <= seen.len(),
                        ;
                        assert(seen.len() * i64::MAX <= usize::MAX * i64::MAX) by (nonlinear_arith)
                            requires
                                seen.len() <= usize::MAX,
                        ;
                        assert(seen.len() * i64::MIN >= usize::MAX * i64::MIN) by (nonlinear_arith)
                            requires
                                seen.len() <= usize::MAX,
                        ;
                    }
                    let total: i128 = groups[at].total + observation.delay as i128;
                    let count: usize = groups[at].count + 1;
                    groups.set(at, Group { station, line, total, count });
                    proof {
                        let new_views = group_views(groups@);
                        let wanted = groups_of(next, filter@, grouping);
                        assert(keys_of(next, filter@, grouping) == keys);
                        assert forall|m: int| 0 <= m < keys.len() implies new_views[m]
                            == wanted[m] by {
                            if m != at {
                                assert(groups@[m]@ == old_views[m]);
                                assert(keys[m] != key);
                            }
                        }
                        assert(new_views =~= wanted);
                    }
                },
                None => {
                    proof {
                        assert(!keys.contains(key)) by {
                            if keys.contains(key) {
                                let m = choose|m: int| 0 <= m < keys.len() && keys[m] == key;
                                assert(groups@[m]@.key == keys[m]);
                            }
                        }
                        lemma_tally_of_absent_group(seen, filter@, grouping, key);
                    }
                    groups.push(Group { station, line, total: observation.delay as i128, count: 1 });
                    proof {
                        let new_views = group_views(groups@);
                        let wanted = groups_of(next, filter@, grouping);
                        assert(keys_of(next, filter@, grouping) == keys.push(key));
                        assert forall|m: int| 0 <= m < keys.len() + 1 implies new_views[m]
                            == wanted[m] by {
                            if m < keys.len() {
                                assert(groups@[m]@ == old_views[m]);
                                assert(keys[m] != key);
                            }
                        }
                        assert(new_views =~= wanted);
                    }
                },
            }
        } else {
            proof {
                assert(keys_of(next, filter@, grouping) == keys);
                assert(group_views(groups@) =~= groups_of(next, filter@, grouping));
            }
        }
        i = i + 1;
    }
    assert(all.take(observations.len() as int) =~= all);
    groups
}

/// The sum of the tallies that `observations` give to those of the groups
/// `keys`, groups by station and line, that are of the line `line`.
pub open spec fn tally_over_stations(
    observations: Seq<ObservationView>,
    filter: FilterView,
    keys: Seq<GroupKey>,
    line: Seq<char>,
) -> Tally
    decreases keys.len(),
{
    if keys.len() == 0 {
        Tally::zero()
    } else {
        let rest = tally_over_stations(observations, filter, keys.drop_last(), line);
        if keys.last().line == line {
            rest.plus(tally(observations, filter, Grouping::ByStationAndLine, keys.last()))
        } else {
            rest
        }
    }
}

/// One more observation adds its share to the sum over a list of distinct
/// groups, if its group is among them.
proof fn lemma_one_more_observation(
    observations: Seq<ObservationView>,
    filter: FilterView,
    keys: Seq<GroupKey>,
    line: Seq<char>,
)
    requires
        observations.len() > 0,
        keys.no_duplicates(),
    ensures
        tally_over_stations(observations, filter, keys, line) == tally_over_stations(
            observations.drop_last(),
            filter,
            keys,
            line,
        ).plus(
            if observations.last().passes(filter) && observations.last().line() == line
                && keys.contains(observations.last().key(Grouping::ByStationAndLine)) {
                Tally { total: observations.last().delay, count: 1 }
            } else {
                Tally::zero()
            },
        ),
    decreases keys.len(),
{
    if keys.len() > 0 {
        let shorter = keys.drop_last();
        let own = observations.last().key(Grouping::ByStationAndLine);
        lemma_one_more_observation(observations, filter, shorter, line);
        if shorter.contains(own) {
            let at = choose|at: int| 0 <= at < shorter.len() && shorter[at] == own;
            assert(keys[at] == own);
            assert(keys.last() != own);
        }
        if keys.contains(own) && !shorter.contains(own) {
            let at = choose|at: int| 0 <= at < keys.len() && keys[at] == own;
            if at < shorter.len() {
                assert(shorter[at] == own);
            }
            assert(keys.last() == own);
        }
        if keys.last() == own {
            assert(keys[keys.len() - 1] == own);
        }
    }
}

/// The tally of a line is the sum of the tallies of that line at its
/// stations. So the mean delay of a line, its total by its count, is the
/// mean of the mean delays at its stations, each weighted with its count.
pub proof fn lemma_line_is_sum_of_stations(
    observations: Seq<ObservationView>,
    filter: FilterView,
    line: Seq<char>,
)
    ensures
        tally(observations, filter, Grouping::ByLine, GroupKey { station: Seq::empty(), line })
            == tally_over_stations(
            observations,
            filter,
            keys_of(observations, filter, Grouping::ByStationAndLine),
            line,
        ),
    decreases observations.len(),
{
    if observations.len() > 0 {
        let shorter = observations.drop_last();
        let last = observations.last();
        let before = keys_of(shorter, filter, Grouping::ByStationAndLine);
        let keys = keys_of(observations, filter, Grouping::ByStationAndLine);
        let own = last.key(Grouping::ByStationAndLine);
        lemma_line_is_sum_of_stations(shorter, filter, line);
        lemma_keys(shorter, filter, Grouping::ByStationAndLine);
        lemma_one_more_observation(observations, filter, before, line);
        if last.passes(filter) && !before.contains(own) {
            assert(keys.drop_last() =~= before);
            assert(keys.last() == own);
            lemma_tally_of_absent_group(shorter, filter, Grouping::ByStationAndLine, own);
        }
    }
}

/// The filter of one day lets through the observations of that day and no
/// others: a group is answered exactly when an observation of that day
/// belongs to it, and only the observations of that day count for it.
pub proof fn lemma_exact_date(
    observations: Seq<ObservationView>,
    date: CivilDate,
    grouping: Grouping,
)
    ensures
        forall|o: ObservationView, key: GroupKey| #[trigger]
            o.counts_for(FilterView::ExactDate(date), grouping, key) <==> o.planned.date == date
                && o.key(grouping) == key,
        forall|key: GroupKey| #[trigger]
            keys_of(observations, FilterView::ExactDate(date), grouping).contains(key)
                <==> exists|i: int|
                0 <= i < observations.len() && observations[i].planned.date == date
                    && #[trigger] observations[i].key(grouping) == key,
{
    let filter = FilterView::ExactDate(date);
    lemma_keys(observations, filter, grouping);
    assert forall|key: GroupKey| #[trigger]
        keys_of(observations, filter, grouping).contains(key) <==> exists|i: int|
            0 <= i < observations.len() && observations[i].planned.date == date
                && #[trigger] observations[i].key(grouping) == key by {
        if keys_of(observations, filter, grouping).contains(key) {
            let i = choose|i: int|
                0 <= i < observations.len() && #[trigger] observations[i].counts_for(
                    filter,
                    grouping,
                    key,
                );
            assert(observations[i].planned.date == date && observations[i].key(grouping) == key);
        }
        if exists|i: int|
            0 <= i < observations.len() && observations[i].planned.date == date
                && #[trigger] observations[i].key(grouping) == key {
            let i = choose|i: int|
                0 <= i < observations.len() && observations[i].planned.date == date
                    && #[trigger] observations[i].key(grouping) == key;
            assert(observations[i].counts_for(filter, grouping, key));
        }
    }
}

/// The filter of a time range lets through the observations after the lower
/// limit, up to and including the upper limit, and no others: a group is
/// answered exactly when such an observation belongs to it, and only such
/// observations count for it. If the lower limit lies before the upper, an
/// observation at the upper limit passes, and one at the lower limit never
/// does.
pub proof fn lemma_time_range(
    observations: Seq<ObservationView>,
    lower: Moment,
    upper: Moment,
    grouping: Grouping,
)
    ensures
        forall|o: ObservationView, key: GroupKey| #[trigger]
            o.counts_for(FilterView::TimeRange(lower, upper), grouping, key) <==> lower.instant()
                < o.planned.instant() <= upper.instant() && o.key(grouping) == key,
        forall|o: ObservationView|
            lower.instant() < upper.instant() && o.planned == upper ==> #[trigger] o.passes(
                FilterView::TimeRange(lower, upper),
            ),
        forall|o: ObservationView|
            o.planned == lower ==> !#[trigger] o.passes(FilterView::TimeRange(lower, upper)),
        forall|key: GroupKey| #[trigger]
            keys_of(observations, FilterView::TimeRange(lower, upper), grouping).contains(key)
                <==> exists|i: int|
                0 <= i < observations.len() && lower.instant() < observations[i].planned.instant()
                    <= upper.instant() && #[trigger] observations[i].key(grouping) == key,
{
    let filter = FilterView::TimeRange(lower, upper);
    lemma_keys(observations, filter, grouping);
    assert forall|key: GroupKey| #[trigger]
        keys_of(observations, filter, grouping).contains(key) <==> exists|i: int|
            0 <= i < observations.len() && lower.instant() < observations[i].planned.instant()
                <= upper.instant() && #[trigger] observations[i].key(grouping) == key by {
        if keys_of(observations, filter, grouping).contains(key) {
            let i = choose|i: int|
                0 <= i < observations.len() && #[trigger] observations[i].counts_for(
                    filter,
                    grouping,
                    key,
                );
            assert(lower.instant() < observations[i].planned.instant() <= upper.instant()
                && observations[i].key(grouping) == key);
        }
        if exists|i: int|
            0 <= i < observations.len() && lower.instant() < observations[i].planned.instant()
                <= upper.instant() && #[trigger] observations[i].key(grouping) == key {
            let i = choose|i: int|
                0 <= i < observations.len() && lower.instant()
                    < observations[i].planned.instant() <= upper.instant()
                    && #[trigger] observations[i].key(grouping) == key;
            assert(observations[i].counts_for(filter, grouping, key));
        }
    }
}

} // verus!
