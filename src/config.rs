//! Process settings, read once at start.

use vstd::prelude::*;

verus! {

/// The settings of the process.
#[derive(Debug)]
pub struct Config {
    pub token: String,
    pub bot_name: String,
    pub database_url: String,
    pub max_connections: u32,
}

/// The settings written out when none are on disk: empty token and
/// connection string, five connections.
pub open spec fn is_default_config(c: &Config) -> bool {
    &&& c.token@ == Seq::<char>::empty()
    &&& c.bot_name@ == "Schedule IPT"@
    &&& c.database_url@ == Seq::<char>::empty()
    &&& c.max_connections == 5
}

impl Default for Config {
    fn default() -> (r: Config)
        ensures
            is_default_config(&r),
    {
        Config {
            token: String::new(),
            bot_name: String::from_str("Schedule IPT"),
            database_url: String::new(),
            max_connections: 5,
        }
    }
}

impl Config {
    /// The settings in force, given those read from the settings file if it
    /// exists: they are used as they are; otherwise the defaults are.
    pub fn new(stored: Option<Config>) -> (r: Config)
        ensures
            match stored {
                Some(c) => r == c,
                None => is_default_config(&r),
            },
    {
        match stored {
            Some(c) => c,
            None => Config::default(),
        }
    }
}

} // verus!
