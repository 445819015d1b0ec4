//! Centralised prompt-injection guard.
//!
//! Every inbound-text boundary funnels its payload through [`enforce`]
//! before letting it flow into LLM context. The guard returns a [`Verdict`]
//! the caller acts on:
//!
//! - `Allow` — no signal worth acting on, pass the text through.
//! - `Sanitize` — soft signal: the text is stripped of control
//!   chars / zero-width Unicode, or wrapped in `<UNTRUSTED-CONTENT>` markers.
//! - `Block` — strong signal (instruction-override phrasing,
//!   role-tag spoofing): the caller must not forward the content.

pub mod heuristics;
pub mod detector;

pub use detector::enforce;

use vstd::prelude::*;

use crate::agent_defs::dup_strings;
use crate::frontmatter::strings_of;
use crate::hooks::HookInput;

verus! {

/// The outcome of running the prompt-injection guard against inbound text.
#[derive(Debug, Clone, PartialEq, Eq)]
pub enum Verdict {
    /// Pass-through, no findings.
    Allow,
    /// Soft signal: the caller forwards `sanitized` in place of the
    /// original text. `reasons` lists every finding that fired.
    Sanitize { sanitized: String, reasons: Vec<String> },
    /// Strong signal: the caller must not forward the original text.
    /// `reasons` lists every finding that fired.
    Block { reasons: Vec<String> },
}

impl Verdict {
    pub fn is_block(&self) -> (b: bool)
        ensures
            b == (*self is Block),
    {
        match self {
            Verdict::Block { .. } => true,
            _ => false,
        }
    }

    pub fn is_sanitize(&self) -> (b: bool)
        ensures
            b == (*self is Sanitize),
    {
        match self {
            Verdict::Sanitize { .. } => true,
            _ => false,
        }
    }

    pub fn is_allow(&self) -> (b: bool)
        ensures
            b == (*self is Allow),
    {
        match self {
            Verdict::Allow => true,
            _ => false,
        }
    }
}

/// The hook input reporting a verdict on text from `context`: none for
/// `Allow`; for the others, the verdict's label and reasons. The caller
/// hands it to the hook runner, whose outcome does not change the verdict.
pub fn verdict_report(verdict: &Verdict, context: &str) -> (r: Option<HookInput>)
    ensures
        match *verdict {
            Verdict::Allow => r is None,
            Verdict::Sanitize { reasons, .. } => r matches Some(
                HookInput::PromptInjectionVerdict { context: c, verdict: v, reasons: rs },
            ) && c@ == context@ && v@ == "sanitize"@ && strings_of(rs@) == strings_of(reasons@),
            Verdict::Block { reasons } => r matches Some(
                HookInput::PromptInjectionVerdict { context: c, verdict: v, reasons: rs },
            ) && c@ == context@ && v@ == "block"@ && strings_of(rs@) == strings_of(reasons@),
        },
{
    match verdict {
        Verdict::Allow => None,
        Verdict::Sanitize { reasons, .. } => Some(
            HookInput::PromptInjectionVerdict {
                context: context.to_string(),
                verdict: "sanitize".to_string(),
                reasons: dup_strings(reasons),
            },
        ),
        Verdict::Block { reasons } => Some(
            HookInput::PromptInjectionVerdict {
                context: context.to_string(),
                verdict: "block".to_string(),
                reasons: dup_strings(reasons),
            },
        ),
    }
}

} // verus!
