//! The settings that the service is started with.

use crate::models::Config;
use vstd::prelude::*;
use vstd::string::*;

verus! {

/// The four settings, in the order in which they are asked for.
#[derive(Clone, Copy, Debug, PartialEq, Eq, Structural)]
pub enum Setting {
    Host,
    User,
    Password,
    Database,
}

/// A setting was not given. The service does not start without it.
#[derive(Clone, Copy, Debug, PartialEq, Eq, Structural)]
pub struct ConfigMissing {
    pub setting: Setting,
}

/// The name of the environment variable that holds a setting.
pub open spec fn variable_name(setting: Setting) -> Seq<char> {
    match setting {
        Setting::Host => "DBHOST"@,
        Setting::User => "DBUSER"@,
        Setting::Password => "DBPASS"@,
        Setting::Database => "DBNAME"@,
    }
}

/// The first of the four settings that is not given, if one is not.
pub open spec fn first_missing(
    dbhost: Option<String>,
    dbuser: Option<String>,
    dbpass: Option<String>,
    dbname: Option<String>,
) -> Option<Setting> {
    if dbhost is None {
        Some(Setting::Host)
    } else if dbuser is None {
        Some(Setting::User)
    } else if dbpass is None {
        Some(Setting::Password)
    } else if dbname is None {
        Some(Setting::Database)
    } else {
        None
    }
}

/// How the store is addressed with the four settings.
pub open spec fn connection_text(
    dbhost: Seq<char>,
    dbuser: Seq<char>,
    dbpass: Seq<char>,
    dbname: Seq<char>,
) -> Seq<char> {
    "host="@ + dbhost + " user="@ + dbuser + " password="@ + dbpass + " dbname="@ + dbname
}

impl Setting {
    /// The name of the environment variable that holds the setting.
    pub fn variable(&self) -> (name: &'static str)
        ensures
            name@ == variable_name(*self),
    {
        match self {
            Setting::Host => "DBHOST",
            Setting::User => "DBUSER",
            Setting::Password => "DBPASS",
            Setting::Database => "DBNAME",
        }
    }
}

impl Config {
    /// The configuration with the four settings, if all are given; else the
    /// first that is missing.
    pub fn from_settings(
        dbhost: Option<String>,
        dbuser: Option<String>,
        dbpass: Option<String>,
        dbname: Option<String>,
    ) -> (r: Result<Config, ConfigMissing>)
        ensures
            match r {
                Ok(config) => first_missing(dbhost, dbuser, dbpass, dbname) is None
                    && config.dbhost@ == dbhost->0@ && config.dbuser@ == dbuser->0@
                    && config.dbpass@ == dbpass->0@ && config.dbname@ == dbname->0@,
                Err(e) => first_missing(dbhost, dbuser, dbpass, dbname) == Some(e.setting),
            },
    {
        let dbhost = match dbhost {
            Some(value) => value,
            None => {
                return Err(ConfigMissing { setting: Setting::Host });
            },
        };
        let dbuser = match dbuser {
            Some(value) => value,
            None => {
                return Err(ConfigMissing { setting: Setting::User });
            },
        };
        let dbpass = match dbpass {
            Some(value) => value,
            None => {
                return Err(ConfigMissing { setting: Setting::Password });
            },
        };
        let dbname = match dbname {
            Some(value) => value,
            None => {
                return Err(ConfigMissing { setting: Setting::Database });
            },
        };
        Ok(Config { dbhost, dbuser, dbpass, dbname })
    }

    /// How the store is addressed with this configuration.
    pub fn connection_string(&self) -> (text: String)
        ensures
            text@ == connection_text(self.dbhost@, self.dbuser@, self.dbpass@, self.dbname@),
    {
        let mut text = String::from_str("host=");
        text.append(self.dbhost.as_str());
        text.append(" user=");
        text.append(self.dbuser.as_str());
        text.append(" password=");
        text.append(self.dbpass.as_str());
        text.append(" dbname=");
        text.append(self.dbname.as_str());
        text
    }
}

/// The bounds of the pool of connections: how many connections are open at
/// most, and how many seconds a request waits for one before it fails. Both
/// are above zero.
#[derive(Clone, Copy, Debug, PartialEq, Eq)]
pub struct PoolLimits {
    max_connections: u32,
    acquire_timeout_seconds: u64,
}

/// The mathematical model of [`PoolLimits`].
pub struct LimitsView {
    pub max_connections: int,
    pub acquire_timeout_seconds: int,
}

impl LimitsView {
    /// A pool needs room for one connection and time to wait for it.
    pub open spec fn valid(self) -> bool {
        self.max_connections > 0 && self.acquire_timeout_seconds > 0
    }

    /// Ten connections, thirty seconds.
    pub open spec fn standard() -> LimitsView {
        LimitsView { max_connections: 10, acquire_timeout_seconds: 30 }
    }
}

/// The limits that the two optional settings give: where one is absent, its
/// standard value is taken; where one is zero, there are none.
pub open spec fn limits_of(max_connections: Option<u32>, acquire_timeout_seconds: Option<u64>)
    -> Option<LimitsView> {
    let limits = LimitsView {
        max_connections: match max_connections {
            Some(n) => n as int,
            None => LimitsView::standard().max_connections,
        },
        acquire_timeout_seconds: match acquire_timeout_seconds {
            Some(n) => n as int,
            None => LimitsView::standard().acquire_timeout_seconds,
        },
    };
    if limits.valid() {
        Some(limits)
    } else {
        None
    }
}

impl View for PoolLimits {
    type V = LimitsView;

    closed spec fn view(&self) -> LimitsView {
        LimitsView {
            max_connections: self.max_connections as int,
            acquire_timeout_seconds: self.acquire_timeout_seconds as int,
        }
    }
}

impl PoolLimits {
    #[verifier::type_invariant]
    spec fn inv(self) -> bool {
        self@.valid()
    }

    /// The limits that the two optional settings give.
    pub fn from_settings(max_connections: Option<u32>, acquire_timeout_seconds: Option<u64>) -> (r:
        Option<PoolLimits>)
        ensures
            match r {
                Some(limits) => limits_of(max_connections, acquire_timeout_seconds) == Some(
                    limits@,
                ),
                None => limits_of(max_connections, acquire_timeout_seconds) is None,
            },
    {
        let max_connections: u32 = match max_connections {
            Some(n) => n,
            None => 10,
        };
        let acquire_timeout_seconds: u64 = match acquire_timeout_seconds {
            Some(n) => n,
            None => 30,
        };
        if max_connections == 0 || acquire_timeout_seconds == 0 {
            return None;
        }
        Some(PoolLimits { max_connections, acquire_timeout_seconds })
    }

    /// How many connections are open at most.
    pub fn max_connections(&self) -> (r: u32)
        ensures
            r == self@.max_connections,
            r > 0,
    {
        proof {
            use_type_invariant(self);
        }
        self.max_connections
    }

    /// How many seconds a request waits for a connection before it fails.
    pub fn acquire_timeout_seconds(&self) -> (r: u64)
        ensures
            r == self@.acquire_timeout_seconds,
            r > 0,
    {
        proof {
            use_type_invariant(self);
        }
        self.acquire_timeout_seconds
    }
}

} // verus!
