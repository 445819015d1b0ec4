//! Wall-clock timeouts of tool calls. Precedence, highest first:
//!
//! 1. the call's own `timeout_secs` argument,
//! 2. the `ARAWN_TOOL_TIMEOUT_SECS` environment variable,
//! 3. the engine configuration's `tool_timeout_secs`,
//! 4. `DEFAULT_TIMEOUT_SECS` (120).
//!
//! Zero never counts as a setting. Reading the environment and editing the
//! call's JSON arguments are left to the caller, which hands in what it
//! found.
use vstd::prelude::*;

use crate::text::{chars_of, parse_u64, push_str, spec_parse_u64};

verus! {

/// The JSON field with which a call sets its own timeout.
pub const TIMEOUT_PARAM: &'static str = "timeout_secs";

/// Timeout when nothing else is configured, in seconds.
pub const DEFAULT_TIMEOUT_SECS: u64 = 120;

/// Environment variable that overrides the default timeout.
pub const TIMEOUT_ENV_VAR: &'static str = "ARAWN_TOOL_TIMEOUT_SECS";

/// The default timeout: the environment's value when it is a positive
/// integer, else the configured one when positive, else 120 seconds.
pub open spec fn spec_default_timeout(env_value: Option<Seq<char>>, config_secs: Option<u64>) -> u64 {
    match env_value {
        Some(v) if (spec_parse_u64(v) matches Some(n) && n > 0) => spec_parse_u64(v)->0 as u64,
        _ => match config_secs {
            Some(c) if c > 0 => c,
            _ => DEFAULT_TIMEOUT_SECS,
        },
    }
}

/// The default timeout of a tool call, given the environment variable's
/// value (if set) and the configured value.
pub fn default_timeout(env_value: Option<&str>, config_secs: Option<u64>) -> (secs: u64)
    ensures
        secs == spec_default_timeout(match env_value { Some(v) => Some(v@), None => None }, config_secs),
{
    match env_value {
        Some(raw) => {
            let v = chars_of(raw);
            match parse_u64(v.as_slice()) {
                Some(n) => {
                    if n > 0 {
                        return n;
                    }
                },
                None => {},
            }
        },
        None => {},
    }
    match config_secs {
        Some(c) => if c > 0 { c } else { DEFAULT_TIMEOUT_SECS },
        None => DEFAULT_TIMEOUT_SECS,
    }
}

/// The timeout of one call and where it came from: the call's positive
/// override, else the default.
pub fn resolve(call_override: Option<u64>, config_secs: Option<u64>, env_value: Option<&str>) -> (r: (u64, &'static str))
    ensures
        (call_override matches Some(s) && s > 0) ==> r.0 == call_override->0 && r.1@ == "override"@,
        !(call_override matches Some(s) && s > 0) ==> r.0 == spec_default_timeout(
            match env_value { Some(v) => Some(v@), None => None },
            config_secs,
        ) && r.1@ == "default"@,
{
    match call_override {
        Some(secs) => {
            if secs > 0 {
                return (secs, "override");
            }
        },
        None => {},
    }
    (default_timeout(env_value, config_secs), "default")
}

/// What a call's arguments hold under `timeout_secs`.
pub enum TimeoutArg {
    /// The arguments are not a JSON object.
    NotAnObject,
    /// The field is absent.
    Absent,
    /// A number: its value when it is an integer in `u64`, and its JSON text.
    Number { as_u64: Option<u64>, text: String },
    /// Another JSON value, with its JSON text.
    Other { text: String },
}

/// The call's override: none when absent or when the arguments are not an
/// object, the number when it is a positive integer, else an error naming
/// the value.
pub open spec fn spec_check_override(arg: TimeoutArg) -> Result<Option<u64>, Seq<char>> {
    match arg {
        TimeoutArg::NotAnObject => Ok(None),
        TimeoutArg::Absent => Ok(None),
        TimeoutArg::Number { as_u64, text } => match as_u64 {
            Some(n) if n > 0 => Ok(Some(n)),
            _ => Err("timeout_secs must be a positive integer; got "@ + text@),
        },
        TimeoutArg::Other { text } => Err("timeout_secs must be a positive integer; got "@ + text@),
    }
}

fn rejection(text: &str) -> (r: String)
    ensures
        r@ == "timeout_secs must be a positive integer; got "@ + text@,
{
    let mut m = "timeout_secs must be a positive integer; got ".to_string();
    push_str(&mut m, text);
    m
}

/// Check a call's `timeout_secs` argument (already removed from the
/// arguments by the caller).
pub fn check_override(arg: TimeoutArg) -> (r: Result<Option<u64>, String>)
    ensures
        match spec_check_override(arg) {
            Ok(v) => r == Ok::<Option<u64>, String>(v),
            Err(m) => r matches Err(e) && e@ == m,
        },
{
    match arg {
        TimeoutArg::NotAnObject => Ok(None),
        TimeoutArg::Absent => Ok(None),
        TimeoutArg::Number { as_u64, text } => match as_u64 {
            Some(n) => if n > 0 { Ok(Some(n)) } else { Err(rejection(text.as_str())) },
            None => Err(rejection(text.as_str())),
        },
        TimeoutArg::Other { text } => Err(rejection(text.as_str())),
    }
}

} // verus!
