//! Process-wide configuration.
//!
//! The surrounding process reads the raw environment values once at startup
//! and hands them in as plain strings; [`Settings::from_env_values`] is the
//! verified part: defaults, decimal parsing and range checks. The secret key
//! is held for the process lifetime and never printed.

use vstd::prelude::*;

use crate::digits::{all_digits, dec_val, parse_u64};

verus! {

/// The configuration the process runs with.
#[derive(Debug, Clone)]
pub struct Settings {
    /// The signing secret shared by token issue and verification.
    pub secret_key: String,
    /// How many worker threads the server runs.
    pub num_workers: usize,
    /// The port the server binds.
    pub port: u16,
}

/// Which configuration value was unusable.
#[derive(Debug, Clone, Copy, PartialEq, Eq, Structural)]
pub enum SettingsError {
    /// The worker-count value is not a decimal number in range.
    BadWorkers,
    /// The port value is not a decimal number in range.
    BadPort,
}

/// Whether `s` is a decimal numeral whose value is at most `bound`.
pub open spec fn numeral_at_most(s: Seq<char>, bound: int) -> bool {
    s.len() > 0 && all_digits(s) && dec_val(s) <= bound
}

impl Settings {
    /// Build the settings from the raw environment values.
    ///
    /// A missing worker count defaults to 4 and a missing port to 8080; a
    /// present value must be a decimal numeral in range for its type, and
    /// is taken exactly. The secret key is taken as given.
    pub fn from_env_values(secret_key: String, num_workers: Option<&str>, port: Option<&str>) -> (r:
        Result<Settings, SettingsError>)
        ensures
            r == Err::<Settings, SettingsError>(SettingsError::BadWorkers) <==> (num_workers
                matches Some(w) && !numeral_at_most(w@, usize::MAX as int)),
            r == Err::<Settings, SettingsError>(SettingsError::BadPort) <==> ((num_workers is None
                || (num_workers matches Some(w) && numeral_at_most(w@, usize::MAX as int))) && (
            port matches Some(p) && !numeral_at_most(p@, u16::MAX as int))),
            r matches Ok(s) ==> {
                &&& s.secret_key == secret_key
                &&& num_workers is None ==> s.num_workers == 4
                &&& num_workers matches Some(w) ==> s.num_workers == dec_val(w@)
                &&& port is None ==> s.port == 8080
                &&& port matches Some(p) ==> s.port == dec_val(p@)
            },
    {
        let num_workers_value: usize = match num_workers {
            None => 4,
            Some(w) => match parse_u64(w) {
                Some(v) if v <= usize::MAX as u64 => v as usize,
                _ => return Err(SettingsError::BadWorkers),
            },
        };
        let port_value: u16 = match port {
            None => 8080,
            Some(p) => match parse_u64(p) {
                Some(v) if v <= u16::MAX as u64 => v as u16,
                _ => return Err(SettingsError::BadPort),
            },
        };
        Ok(Settings { secret_key, num_workers: num_workers_value, port: port_value })
    }
}

} // verus!
