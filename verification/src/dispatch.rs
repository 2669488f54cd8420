//! Serving one request, step by step.
//!
//! Every endpoint is served in the same way: the parameters are checked, a
//! connection is asked for, the statement is carried out once, the rows are
//! read, the answer is given. What differs is the template of the endpoint.
//! The steps that touch the store are not taken here: [`step`] says which
//! one is due, and is told what came of it.

use crate::error::{normalize, ErrorResponse, Failure, FailureView, Status};
use crate::filter::{filter_of, parse_filter, RawParams, RawView};
use crate::models::{record_views, Record, RecordView};
use crate::query::{assemble, params_of, statement, template_of, Endpoint, Query, QueryView};
use crate::rows::{map_rows, mapped_all, row_views, Shape, SqlValue};
use vstd::prelude::*;

verus! {

/// A request as it arrives: the endpoint and the raw parameters.
#[derive(Clone, Debug, PartialEq, Eq)]
pub struct Request {
    pub endpoint: Endpoint,
    pub params: RawParams,
}

/// How far the serving of a request has come.
#[derive(Clone, Debug, PartialEq, Eq)]
pub enum State {
    /// The request has not arrived yet.
    Waiting,
    /// The request was accepted and a connection has been asked for.
    Leasing { query: Query, shape: Shape },
    /// The statement has been handed to the store.
    Running { shape: Shape },
    /// The answer has been given.
    Done,
}

/// What happened outside.
#[derive(Clone, Debug, PartialEq, Eq)]
pub enum Event {
    /// A request arrived.
    Arrived(Request),
    /// A connection was lent.
    Leased,
    /// No connection could be had; the text says why.
    LeaseFailed(String),
    /// The store carried the statement out and returned these rows.
    Rows(Vec<Vec<SqlValue>>),
    /// The store did not carry the statement out; the text says why.
    ExecutionFailed(String),
}

/// The answer to a request.
#[derive(Clone, Debug, PartialEq, Eq)]
pub enum Response {
    /// Status 200 with the records, in the order of the rows.
    Records(Vec<Record>),
    /// A failure, in its one shape.
    Failure(ErrorResponse),
}

/// What is to be done next.
#[derive(Clone, Debug, PartialEq, Eq)]
pub enum Action {
    /// Ask the pool for a connection.
    Acquire,
    /// Carry the statement out on the connection that was lent.
    Execute(Query),
    /// Give the answer; the connection, if one was lent, goes back.
    Respond(Response),
}

/// The mathematical model of a [`State`].
pub enum StateView {
    Waiting,
    Leasing { query: QueryView, shape: Shape },
    Running { shape: Shape },
    Done,
}

/// The mathematical model of an [`Event`].
pub enum EventView {
    Arrived { endpoint: Endpoint, params: RawView },
    Leased,
    LeaseFailed(Seq<char>),
    Rows(Seq<Seq<SqlValue>>),
    ExecutionFailed(Seq<char>),
}

/// The mathematical model of a [`Response`].
pub enum ResponseView {
    Records(Seq<RecordView>),
    Failure { code: int, status: Seq<char>, message: Seq<char> },
}

/// The mathematical model of an [`Action`].
pub enum ActionView {
    Acquire,
    Execute(QueryView),
    Respond(ResponseView),
}

impl View for State {
    type V = StateView;

    open spec fn view(&self) -> StateView {
        match self {
            State::Waiting => StateView::Waiting,
            State::Leasing { query, shape } => StateView::Leasing { query: query@, shape: *shape },
            State::Running { shape } => StateView::Running { shape: *shape },
            State::Done => StateView::Done,
        }
    }
}

impl View for Event {
    type V = EventView;

    open spec fn view(&self) -> EventView {
        match self {
            Event::Arrived(request) => EventView::Arrived {
                endpoint: request.endpoint,
                params: request.params@,
            },
            Event::Leased => EventView::Leased,
            Event::LeaseFailed(text) => EventView::LeaseFailed(text@),
            Event::Rows(rows) => EventView::Rows(row_views(rows@)),
            Event::ExecutionFailed(text) => EventView::ExecutionFailed(text@),
        }
    }
}

impl View for Response {
    type V = ResponseView;

    open spec fn view(&self) -> ResponseView {
        match self {
            Response::Records(records) => ResponseView::Records(record_views(records@)),
            Response::Failure(error) => ResponseView::Failure {
                code: error.code as int,
                status: error.body.status@,
                message: error.body.message@,
            },
        }
    }
}

impl View for Action {
    type V = ActionView;

    open spec fn view(&self) -> ActionView {
        match self {
            Action::Acquire => ActionView::Acquire,
            Action::Execute(query) => ActionView::Execute(query@),
            Action::Respond(response) => ActionView::Respond(response@),
        }
    }
}

/// The answer that reports `failure`.
pub open spec fn failure_response(failure: FailureView) -> ResponseView {
    ResponseView::Failure {
        code: failure.status().number(),
        status: failure.status().line(),
        message: failure.message(),
    }
}

/// The step that `event` causes in `state`: the state that follows and what
/// is to be done. `None` when the event cannot happen in that state.
///
/// - A request arrives: its parameters are checked against the filter kind
///   of its endpoint. If they are rejected, the answer is the failure, and
///   the store is not asked for anything. If not, a connection is asked for.
/// - A connection is lent: the statement is to be carried out.
/// - Rows are returned: the answer is the records read from them, or the
///   failure to read them.
/// - The pool or the store fails: the answer is the failure.
pub open spec fn next(state: StateView, event: EventView) -> Option<(StateView, ActionView)> {
    match (state, event) {
        (StateView::Waiting, EventView::Arrived { endpoint, params }) => {
            let template = template_of(endpoint);
            match filter_of(template.filter, params) {
                Err(e) => Some(
                    (
                        StateView::Done,
                        ActionView::Respond(failure_response(FailureView::InputValidation(e))),
                    ),
                ),
                Ok(filter) => Some(
                    (
                        StateView::Leasing {
                            query: QueryView {
                                text: statement(template),
                                params: params_of(filter),
                            },
                            shape: template.shape,
                        },
                        ActionView::Acquire,
                    ),
                ),
            }
        },
        (StateView::Leasing { query, shape }, EventView::Leased) => Some(
            (StateView::Running { shape }, ActionView::Execute(query)),
        ),
        (StateView::Leasing { query, shape }, EventView::LeaseFailed(text)) => Some(
            (
                StateView::Done,
                ActionView::Respond(failure_response(FailureView::PoolAcquisition(text))),
            ),
        ),
        (StateView::Running { shape }, EventView::Rows(rows)) => match mapped_all(rows, shape) {
            Ok(records) => Some(
                (StateView::Done, ActionView::Respond(ResponseView::Records(records))),
            ),
            Err(e) => Some(
                (
                    StateView::Done,
                    ActionView::Respond(failure_response(FailureView::ResultMapping(e))),
                ),
            ),
        },
        (StateView::Running { shape }, EventView::ExecutionFailed(text)) => Some(
            (
                StateView::Done,
                ActionView::Respond(failure_response(FailureView::QueryExecution(text))),
            ),
        ),
        _ => None,
    }
}

/// The answer that reports `failure`.
fn fail(failure: Failure) -> (r: (State, Action))
    ensures
        r.0@ == StateView::Done,
        r.1@ == ActionView::Respond(failure_response(failure@)),
{
    (State::Done, Action::Respond(Response::Failure(normalize(&failure))))
}

/// Takes the step that `event` causes in `state`.
pub fn step(state: State, event: Event) -> (r: Option<(State, Action)>)
    ensures
        match r {
            Some(taken) => next(state@, event@) == Some((taken.0@, taken.1@)),
            None => next(state@, event@) is None,
        },
{
    match state {
        State::Waiting => match event {
            Event::Arrived(request) => {
                let template = request.endpoint.template();
                match parse_filter(template.filter, &request.params) {
                    Err(e) => Some(fail(Failure::InputValidation(e))),
                    Ok(filter) => {
                        let query = assemble(template, &filter);
                        Some((State::Leasing { query, shape: template.shape }, Action::Acquire))
                    },
                }
            },
            _ => None,
        },
        State::Leasing { query, shape } => match event {
            Event::Leased => Some((State::Running { shape }, Action::Execute(query))),
            Event::LeaseFailed(text) => Some(fail(Failure::PoolAcquisition(text))),
            _ => None,
        },
        State::Running { shape } => match event {
            Event::Rows(rows) => match map_rows(shape, &rows) {
                Ok(records) => Some((State::Done, Action::Respond(Response::Records(records)))),
                Err(e) => Some(fail(Failure::ResultMapping(e))),
            },
            Event::ExecutionFailed(text) => Some(fail(Failure::QueryExecution(text))),
            _ => None,
        },
        State::Done => None,
    }
}

impl Response {
    /// The number of the status that the answer is given with.
    pub fn code(&self) -> (r: u16)
        ensures
            r == match self@ {
                ResponseView::Records(_) => Status::Success.number(),
                ResponseView::Failure { code, .. } => code,
            },
    {
        match self {
            Response::Records(_) => Status::Success.code(),
            Response::Failure(error) => error.code,
        }
    }
}

/// What is done, in order, when `events` happen one after the other from
/// `state` on. An event that cannot happen in the state it meets changes
/// nothing and causes nothing.
pub open spec fn actions_of(state: StateView, events: Seq<EventView>) -> Seq<ActionView>
    decreases events.len(),
{
    if events.len() == 0 {
        Seq::empty()
    } else {
        match next(state, events[0]) {
            Some((following, action)) => seq![action] + actions_of(following, events.drop_first()),
            None => actions_of(state, events.drop_first()),
        }
    }
}

/// Whether `actions` is the beginning of the one course that serving a
/// request takes: a connection is asked for, the statement is carried out,
/// the answer is given; or a failure cuts it short with the answer.
pub open spec fn is_orderly(actions: Seq<ActionView>) -> bool {
    ||| actions.len() == 0
    ||| actions.len() == 1 && (actions[0] is Acquire || actions[0] is Respond)
    ||| actions.len() == 2 && actions[0] is Acquire && (actions[1] is Execute
        || actions[1] is Respond)
    ||| actions.len() == 3 && actions[0] is Acquire && actions[1] is Execute
        && actions[2] is Respond
}

proof fn lemma_after_answer(events: Seq<EventView>)
    ensures
        actions_of(StateView::Done, events) == Seq::<ActionView>::empty(),
    decreases events.len(),
{
    if events.len() > 0 {
        lemma_after_answer(events.drop_first());
    }
}

proof fn lemma_while_running(shape: Shape, events: Seq<EventView>)
    ensures
        actions_of(StateView::Running { shape }, events).len() <= 1,
        actions_of(StateView::Running { shape }, events).len() == 1 ==> actions_of(
            StateView::Running { shape },
            events,
        )[0] is Respond,
    decreases events.len(),
{
    if events.len() > 0 {
        let state = StateView::Running { shape };
        match next(state, events[0]) {
            Some((following, action)) => {
                lemma_after_answer(events.drop_first());
                assert(actions_of(state, events) =~= seq![action]);
            },
            None => {
                lemma_while_running(shape, events.drop_first());
            },
        }
    }
}

proof fn lemma_while_leasing(query: QueryView, shape: Shape, events: Seq<EventView>)
    ensures
        ({
            let actions = actions_of(StateView::Leasing { query, shape }, events);
            ||| actions.len() == 0
            ||| actions.len() == 1 && (actions[0] == ActionView::Execute(query)
                || actions[0] is Respond)
            ||| actions.len() == 2 && actions[0] == ActionView::Execute(query)
                && actions[1] is Respond
        }),
    decreases events.len(),
{
    if events.len() > 0 {
        let state = StateView::Leasing { query, shape };
        match next(state, events[0]) {
            Some((following, action)) => {
                if following is Done {
                    lemma_after_answer(events.drop_first());
                    assert(actions_of(state, events) =~= seq![action]);
                } else {
                    lemma_while_running(shape, events.drop_first());
                    assert(actions_of(state, events) =~= seq![action] + actions_of(
                        following,
                        events.drop_first(),
                    ));
                }
            },
            None => {
                lemma_while_leasing(query, shape, events.drop_first());
            },
        }
    }
}

/// Whatever happens, and in whatever order, a request is served in one
/// orderly course: the statement is carried out at most once, and only on a
/// connection that was asked for before; at most one answer is given, and
/// nothing is done after it.
pub proof fn lemma_one_attempt(events: Seq<EventView>)
    ensures
        is_orderly(actions_of(StateView::Waiting, events)),
    decreases events.len(),
{
    if events.len() > 0 {
        let state = StateView::Waiting;
        match next(state, events[0]) {
            Some((following, action)) => {
                match following {
                    StateView::Leasing { query, shape } => {
                        lemma_while_leasing(query, shape, events.drop_first());
                    },
                    _ => {
                        lemma_after_answer(events.drop_first());
                    },
                }
                assert(actions_of(state, events) =~= seq![action] + actions_of(
                    following,
                    events.drop_first(),
                ));
            },
            None => {
                lemma_one_attempt(events.drop_first());
            },
        }
    }
}

/// A request whose parameters are rejected is answered with status 400 and
/// the reason, and with nothing else: whatever happens later, no connection
/// is asked for and no statement is carried out.
pub proof fn lemma_rejected_request_never_reaches_store(
    endpoint: Endpoint,
    params: RawView,
    later: Seq<EventView>,
)
    requires
        filter_of(template_of(endpoint).filter, params) is Err,
    ensures
        actions_of(StateView::Waiting, seq![EventView::Arrived { endpoint, params }] + later)
            == seq![
            ActionView::Respond(
                ResponseView::Failure {
                    code: 400,
                    status: Status::BadRequest.line(),
                    message: FailureView::InputValidation(
                        filter_of(template_of(endpoint).filter, params)->Err_0,
                    ).message(),
                },
            ),
        ],
{
    let events = seq![EventView::Arrived { endpoint, params }] + later;
    assert(events.drop_first() =~= later);
    lemma_after_answer(later);
}

} // verus!
