use vstd::prelude::*;

verus! {

/// Settings the watcher starts from: broadcaster keys and relays, the feeds
/// to track, the poll interval in seconds, and the bot's profile.
pub struct Config {
    pub secret_key: String,
    pub public_key: String,
    pub relays: Vec<String>,
    pub feeds: Vec<String>,
    pub check_interval_seconds: u64,
    pub name: String,
    pub display_name: String,
    pub description: String,
}

/// Why a configuration cannot start the watcher.
#[derive(PartialEq, Eq, Structural, Clone, Copy, Debug)]
pub enum ConfigError {
    /// The poll interval is zero seconds.
    ZeroInterval,
    /// No feed is tracked.
    NoFeeds,
}

pub const DEFAULT_INTERVAL_SECONDS: u64 = 300;

impl Default for Config {
    fn default() -> (r: Self)
        ensures
            r.secret_key@.len() == 0,
            r.public_key@.len() == 0,
            r.relays@.len() == 2,
            r.relays@[0]@ == "wss://nos.lol"@,
            r.relays@[1]@ == "wss://relay.house"@,
            r.feeds@.len() == 0,
            r.check_interval_seconds == DEFAULT_INTERVAL_SECONDS,
            r.name@.len() == 0,
            r.display_name@.len() == 0,
            r.description@.len() == 0,
    {
        let mut relays: Vec<String> = Vec::new();
        relays.push(String::from_str("wss://nos.lol"));
        relays.push(String::from_str("wss://relay.house"));
        Config {
            secret_key: String::new(),
            public_key: String::new(),
            relays,
            feeds: Vec::new(),
            check_interval_seconds: DEFAULT_INTERVAL_SECONDS,
            name: String::new(),
            display_name: String::new(),
            description: String::new(),
        }
    }
}

impl Config {
    /// Checks that the configuration can start the watcher: the interval must
    /// be positive, then at least one feed must be tracked.
    pub fn validate(&self) -> (r: Result<(), ConfigError>)
        ensures
            self.check_interval_seconds == 0 ==> r == Err::<(), ConfigError>(
                ConfigError::ZeroInterval,
            ),
            self.check_interval_seconds > 0 && self.feeds@.len() == 0 ==> r == Err::<(), ConfigError>(
                ConfigError::NoFeeds,
            ),
            self.check_interval_seconds > 0 && self.feeds@.len() > 0 ==> r is Ok,
    {
        if self.check_interval_seconds == 0 {
            Err(ConfigError::ZeroInterval)
        } else if self.feeds.len() == 0 {
            Err(ConfigError::NoFeeds)
        } else {
            Ok(())
        }
    }
}

} // verus!
