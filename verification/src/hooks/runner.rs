//! Hook runs: which hooks an input fires, and on what content.
//!
//! Running the hook commands is left to the caller, which combines their
//! results with `AggregatedHookResult::of_results`.
use vstd::prelude::*;

use super::config::{deref_hooks, firing_hooks, groups_of_key, spec_config_empty, CommandHookDef, HookConfig};
use super::events::{spec_event_key, spec_input_event, spec_matcher_value, HookInput};

verus! {

/// Hook matching for a session: the configuration and the working
/// directory of hook subprocesses.
pub struct HookRunner {
    pub config: HookConfig,
    pub cwd: String,
}

/// The content that content patterns match: the tool input's JSON text for
/// tool and permission events, nothing for the others.
pub open spec fn spec_hook_content(i: HookInput) -> Seq<char> {
    match i {
        HookInput::PreToolUse { tool_input, .. } => tool_input@,
        HookInput::PostToolUse { tool_input, .. } => tool_input@,
        HookInput::PostToolUseFailure { tool_input, .. } => tool_input@,
        HookInput::PermissionRequest { tool_input, .. } => tool_input@,
        HookInput::PermissionDenied { tool_input, .. } => tool_input@,
        _ => seq![],
    }
}

impl HookRunner {
    pub fn new(config: HookConfig, cwd: String) -> (r: Self)
        ensures
            r.config == config,
            r.cwd == cwd,
    {
        HookRunner { config, cwd }
    }

    /// Whether any hooks are configured.
    pub fn has_hooks(&self) -> (b: bool)
        ensures
            b == !spec_config_empty(self.config.events@),
    {
        !self.config.is_empty()
    }

    /// The content used for content-pattern matching.
    pub fn extract_content(&self, input: &HookInput) -> (r: String)
        ensures
            r@ == spec_hook_content(*input),
    {
        match input {
            HookInput::PreToolUse { tool_input, .. } => tool_input.clone(),
            HookInput::PostToolUse { tool_input, .. } => tool_input.clone(),
            HookInput::PostToolUseFailure { tool_input, .. } => tool_input.clone(),
            HookInput::PermissionRequest { tool_input, .. } => tool_input.clone(),
            HookInput::PermissionDenied { tool_input, .. } => tool_input.clone(),
            _ => String::new(),
        }
    }

    /// The hooks to run for an input, in order: those configured for its
    /// event whose group fires for its matcher value and content.
    pub fn hooks_for(&self, input: &HookInput) -> (r: Vec<&CommandHookDef>)
        ensures
            deref_hooks(r@) == firing_hooks(
                groups_of_key(self.config.events@, spec_event_key(spec_input_event(*input))),
                spec_matcher_value(*input),
                spec_hook_content(*input),
            ),
    {
        let event = input.event();
        let field_value = input.matcher_value();
        let content = self.extract_content(input);
        self.config.matching_hooks(event, field_value, content.as_str())
    }
}

} // verus!
