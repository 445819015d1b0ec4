//! Records of approval decisions.
use vstd::prelude::*;

verus! {

/// Tier the user picked at the prompt (or the system picked on their
/// behalf, e.g. when no prompter is wired).
#[derive(Debug, Clone, Copy, PartialEq, Eq, Structural)]
pub enum ApprovalTier {
    AllowOnce,
    AllowForSession,
    Deny,
    /// The user had no prompter wired (non-TUI caller). Fails closed.
    FailedClosed,
}

pub open spec fn spec_tier_str(t: ApprovalTier) -> Seq<char> {
    match t {
        ApprovalTier::AllowOnce => "allow_once"@,
        ApprovalTier::AllowForSession => "allow_for_session"@,
        ApprovalTier::Deny => "deny"@,
        ApprovalTier::FailedClosed => "failed_closed"@,
    }
}

impl ApprovalTier {
    pub fn as_str(self) -> (s: &'static str)
        ensures
            s@ == spec_tier_str(self),
    {
        match self {
            ApprovalTier::AllowOnce => "allow_once",
            ApprovalTier::AllowForSession => "allow_for_session",
            ApprovalTier::Deny => "deny",
            ApprovalTier::FailedClosed => "failed_closed",
        }
    }
}

/// One row of the audit log.
#[derive(Debug, Clone)]
pub struct AuditRecord {
    /// Unix epoch seconds.
    pub ts: u64,
    /// Optional session id — caller-supplied.
    pub session_id: Option<String>,
    /// Tool the call was for.
    pub tool_name: String,
    /// Normalised arg shape.
    pub shape: String,
    /// The tier the user (or fallback) selected.
    pub tier: ApprovalTier,
    /// Free-form rationale — currently the prompt subtitle.
    pub reason: Option<String>,
}

} // verus!
