//! Command hooks: how long one may run and what its exit means.
//!
//! Spawning the shell, feeding it the input and waiting for it are left to
//! the caller; the outcome is decided here:
//! - exit 0 allows (stdout is kept),
//! - exit 2 blocks (stderr is the reason),
//! - any other exit warns without blocking,
//! - a hook that runs out of time blocks.
use vstd::prelude::*;

use super::config::{CommandHookDef, HookResult};
use crate::text::{decimal_u64, push_str, signed_decimal, str_is_empty, trim, trim_string};

verus! {

/// Default timeout of a hook, in seconds.
pub const DEFAULT_TIMEOUT_SECS: u64 = 10;

/// Decides the outcome of command hooks.
pub struct CommandHookExecutor;

/// The outcome of a hook process that exited with `code` (`1` when it was
/// ended by a signal).
pub open spec fn spec_exit_outcome(code: Option<i32>, stdout: Seq<char>, stderr: Seq<char>) -> (int, Seq<char>, Seq<char>) {
    let c: int = match code { Some(c) => c as int, None => 1 };
    if c == 0 {
        (0, stdout, seq![])
    } else if c == 2 {
        (2, if stderr.len() == 0 { "Hook blocked the operation"@ } else { trim(stderr) }, stderr)
    } else {
        (1, if stderr.len() == 0 { "Hook exited with code "@ + signed_decimal(c) } else { trim(stderr) }, stderr)
    }
}

/// A hook result as (kind, text, stderr): 0 allow with its stdout, 1 warn
/// with its message, 2 block with its reason.
pub open spec fn result_view(r: HookResult) -> (int, Seq<char>, Seq<char>) {
    match r {
        HookResult::Allow { stdout } => (0, stdout@, seq![]),
        HookResult::Warn { message, stderr } => (1, message@, stderr@),
        HookResult::Block { reason, stderr } => (2, reason@, stderr@),
    }
}

impl CommandHookExecutor {
    /// How long a hook may run, in seconds.
    pub fn timeout_secs(hook: &CommandHookDef) -> (t: u64)
        ensures
            t == match hook.timeout { Some(t) => t, None => DEFAULT_TIMEOUT_SECS },
    {
        match hook.timeout {
            Some(t) => t,
            None => DEFAULT_TIMEOUT_SECS,
        }
    }

    /// The outcome of a hook process that exited.
    pub fn exit_outcome(code: Option<i32>, stdout: String, stderr: String) -> (r: HookResult)
        ensures
            result_view(r) == spec_exit_outcome(code, stdout@, stderr@),
    {
        let c: i32 = match code {
            Some(c) => c,
            None => 1,
        };
        if c == 0 {
            HookResult::Allow { stdout }
        } else if c == 2 {
            let reason = if str_is_empty(stderr.as_str()) {
                "Hook blocked the operation".to_string()
            } else {
                trim_string(stderr.as_str())
            };
            HookResult::Block { reason, stderr }
        } else {
            let message = if str_is_empty(stderr.as_str()) {
                let mut m = "Hook exited with code ".to_string();
                let d = crate::text::decimal_i32(c);
                push_str(&mut m, d.as_str());
                m
            } else {
                trim_string(stderr.as_str())
            };
            HookResult::Warn { message, stderr }
        }
    }

    /// The outcome of a hook that ran out of time: it blocks.
    pub fn timeout_outcome(hook: &CommandHookDef) -> (r: HookResult)
        ensures
            result_view(r) == (2int, "Hook timed out after "@ + crate::text::decimal(
                match hook.timeout { Some(t) => t as nat, None => DEFAULT_TIMEOUT_SECS as nat },
            ) + "s: "@ + hook.command@, Seq::<char>::empty()),
    {
        let t = Self::timeout_secs(hook);
        let mut reason = "Hook timed out after ".to_string();
        let d = decimal_u64(t);
        push_str(&mut reason, d.as_str());
        push_str(&mut reason, "s: ");
        push_str(&mut reason, hook.command.as_str());
        HookResult::Block { reason, stderr: String::new() }
    }

    /// The outcome of a hook that could not be run: it warns with `prefix`
    /// and the error's text.
    pub fn failure_outcome(prefix: &str, error: &str) -> (r: HookResult)
        ensures
            result_view(r) == (1int, prefix@ + error@, Seq::<char>::empty()),
    {
        let mut message = prefix.to_string();
        push_str(&mut message, error);
        HookResult::Warn { message, stderr: String::new() }
    }
}

} // verus!
