//! The service's settings.
use vstd::prelude::*;
use crate::text::{parse_u64, parsed_u64, to_chars, trim, trimmed};

verus! {

/// Whether `lettre` reads `s` as an e-mail address (`Address::from_str`).
pub uninterp spec fn address_accepted(s: Seq<char>) -> bool;

/// Calls `Address::from_str` and tells whether it succeeds, which is named
/// `address_accepted`. (The address it makes keeps `s`, as written, as its
/// text.)
#[verifier::external_body]
fn check_address(s: &str) -> (b: bool)
    ensures
        b == address_accepted(s@),
{
    s.parse::<lettre::Address>().is_ok()
}

/// The settings.
#[derive(Debug, Clone)]
pub struct Config {
    /// The address that mails are sent from, one that `lettre` reads as an
    /// e-mail address.
    pub email: String,
    /// The site's address, the start of the links that mails carry.
    pub domain: String,
    /// How many days a session lasts.
    pub session_time: u64,
}

/// Why the settings could not be read.
#[derive(Debug, Clone, Copy, PartialEq, Eq)]
pub enum ConfigError {
    MissingEmail,
    InvalidEmail,
    MissingDomain,
    InvalidSessionTime,
}

/// The session length used when none is set.
pub open spec fn default_session_time() -> Seq<char> {
    "14"@
}

/// The session length, in days, that the setting `raw` gives: the setting
/// (or `14` when it is not set) without surrounding white space, read as
/// `str::parse::<u64>` reads it.
pub open spec fn session_time_of(raw: Option<Seq<char>>) -> Option<u64> {
    match raw {
        Some(s) => parsed_u64(trimmed(s)),
        None => parsed_u64(trimmed(default_session_time())),
    }
}

/// The first problem with the settings once the sender's address has been
/// read (`address_ok`: `lettre` accepted it), in the order they are read:
/// the address, the domain, the session length.
pub open spec fn assembly_problem(
    address_ok: bool,
    domain_set: bool,
    session_time: Option<Seq<char>>,
) -> Option<ConfigError> {
    if !address_ok {
        Some(ConfigError::InvalidEmail)
    } else if !domain_set {
        Some(ConfigError::MissingDomain)
    } else if session_time_of(session_time) is None {
        Some(ConfigError::InvalidSessionTime)
    } else {
        None
    }
}

/// The first problem with the settings: a missing sender's address, then
/// as `assembly_problem` says.
pub open spec fn config_problem(
    email: Option<Seq<char>>,
    domain_set: bool,
    session_time: Option<Seq<char>>,
) -> Option<ConfigError> {
    match email {
        None => Some(ConfigError::MissingEmail),
        Some(e) => assembly_problem(address_accepted(e), domain_set, session_time),
    }
}

pub open spec fn opt_view(s: Option<&str>) -> Option<Seq<char>> {
    match s {
        Some(v) => Some(v@),
        None => None,
    }
}

impl Config {
    /// The settings made of the values of `SMTP_EMAIL`, `DOMAIN` and
    /// `SESSION_TIME` (`None`: not set).
    pub fn from_values(email: Option<&str>, domain: Option<String>, session_time: Option<&str>) -> (r:
        Result<Config, ConfigError>)
        ensures
            match config_problem(opt_view(email), domain is Some, opt_view(session_time)) {
                Some(problem) => r == Err::<Config, ConfigError>(problem),
                None => r matches Ok(c) && {
                    &&& email matches Some(e) && c.email@ == e@
                    &&& domain matches Some(d) && c.domain@ == d@
                    &&& Some(c.session_time) == session_time_of(opt_view(session_time))
                },
            },
    {
        match email {
            None => Err(ConfigError::MissingEmail),
            Some(e) => {
                let address_ok = check_address(e);
                Config::assemble(e, address_ok, domain, session_time)
            },
        }
    }

    /// The settings made of the sender's address `email` (`address_ok`:
    /// `lettre` reads it as an address), the domain and the session length
    /// setting.
    pub fn assemble(
        email: &str,
        address_ok: bool,
        domain: Option<String>,
        session_time: Option<&str>,
    ) -> (r: Result<Config, ConfigError>)
        ensures
            match assembly_problem(address_ok, domain is Some, opt_view(session_time)) {
                Some(problem) => r == Err::<Config, ConfigError>(problem),
                None => r matches Ok(c) && {
                    &&& c.email@ == email@
                    &&& domain matches Some(d) && c.domain@ == d@
                    &&& Some(c.session_time) == session_time_of(opt_view(session_time))
                },
            },
    {
        if !address_ok {
            return Err(ConfigError::InvalidEmail);
        }
        let domain = match domain {
            None => {
                return Err(ConfigError::MissingDomain);
            },
            Some(d) => d,
        };
        let raw = match session_time {
            Some(s) => s,
            None => "14",
        };
        let chars = to_chars(raw);
        let t = trim(chars.as_slice());
        match parse_u64(t.as_slice()) {
            None => Err(ConfigError::InvalidSessionTime),
            Some(days) => Ok(Config { email: email.to_owned(), domain, session_time: days }),
        }
    }
}

impl ConfigError {
    /// What the service says when it cannot start for this reason.
    pub fn message(&self) -> (m: &'static str)
        ensures
            m@ == config_message(*self),
    {
        match self {
            ConfigError::MissingEmail => "Could not load SMTP_EMAIL from env",
            ConfigError::InvalidEmail => "Failed to parse SMTP_EMAIL",
            ConfigError::MissingDomain => "Could not load DOMAIN",
            ConfigError::InvalidSessionTime => "Failed to parse SESSION_TIME",
        }
    }
}

pub open spec fn config_message(e: ConfigError) -> Seq<char> {
    match e {
        ConfigError::MissingEmail => "Could not load SMTP_EMAIL from env"@,
        ConfigError::InvalidEmail => "Failed to parse SMTP_EMAIL"@,
        ConfigError::MissingDomain => "Could not load DOMAIN"@,
        ConfigError::InvalidSessionTime => "Failed to parse SESSION_TIME"@,
    }
}

} // verus!
