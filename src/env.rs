//! The environment the service runs in.
use crate::extract::chars_equal;
use crate::text::chars_of;
use vstd::prelude::*;

verus! {

/// Whether the service runs for development or production.
#[derive(Clone, Copy, Debug, PartialEq, Eq, Structural)]
pub enum ProcessEnv {
    Development,
    Production,
    /// No environment was set.
    Unset,
}

/// The environment a setting names: `DEV` or `DEVELOPMENT`, `PROD` or
/// `PRODUCTION`.
pub open spec fn process_env_of(s: Seq<char>) -> Option<ProcessEnv> {
    if s == "DEV"@ || s == "DEVELOPMENT"@ {
        Some(ProcessEnv::Development)
    } else if s == "PROD"@ || s == "PRODUCTION"@ {
        Some(ProcessEnv::Production)
    } else {
        None
    }
}

/// A setting that names no environment.
#[derive(Clone, Copy, Debug, PartialEq, Eq, Structural)]
pub struct UnknownProcessEnv;

impl ProcessEnv {
    /// The environment a setting names, if any.
    pub fn from_name(s: &str) -> (r: Option<ProcessEnv>)
        ensures
            r == process_env_of(s@),
    {
        let cs = chars_of(s);
        if chars_equal(&cs, &chars_of("DEV")) || chars_equal(&cs, &chars_of("DEVELOPMENT")) {
            Some(ProcessEnv::Development)
        } else if chars_equal(&cs, &chars_of("PROD")) || chars_equal(&cs, &chars_of("PRODUCTION")) {
            Some(ProcessEnv::Production)
        } else {
            None
        }
    }
}

impl std::str::FromStr for ProcessEnv {
    type Err = UnknownProcessEnv;

    fn from_str(s: &str) -> Result<ProcessEnv, UnknownProcessEnv> {
        match ProcessEnv::from_name(s) {
            Some(e) => Ok(e),
            None => Err(UnknownProcessEnv),
        }
    }
}

} // verus!
