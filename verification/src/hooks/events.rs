//! Hook event types.
use vstd::prelude::*;

verus! {

/// All hook event types.
///
/// Events for features not yet built are defined but will not fire until
/// those features land, which keeps the event surface stable.
#[derive(Debug, Clone, Copy, PartialEq, Eq, Hash, Structural)]
pub enum HookEvent {
    /// Before a tool executes. Can block/allow/modify the call.
    PreToolUse,
    /// After a tool executes successfully.
    PostToolUse,
    /// After a tool execution fails with an error.
    PostToolUseFailure,
    /// When a tool triggers an "ask" permission prompt.
    PermissionRequest,
    /// When the user denies a permission prompt.
    PermissionDenied,
    /// When a new session starts.
    SessionStart,
    /// When a session is shutting down.
    SessionEnd,
    /// On first-time initialization/setup.
    Setup,
    /// When the model produces a final response (end of turn).
    Stop,
    /// When the model's stop turn fails.
    StopFailure,
    /// When the user submits a message.
    UserPromptSubmit,
    /// When a subagent is spawned.
    SubagentStart,
    /// When a subagent completes.
    SubagentStop,
    /// Before context window compaction.
    PreCompact,
    /// After context window compaction.
    PostCompact,
    /// On system notifications.
    Notification,
    /// When a git worktree is created for agent isolation.
    WorktreeCreate,
    /// When a git worktree is cleaned up.
    WorktreeRemove,
    /// When the working directory changes.
    CwdChanged,
    /// When a watched file changes on disk.
    FileChanged,
    /// When a teammate agent becomes idle.
    TeammateIdle,
    /// When a task is created.
    TaskCreated,
    /// When a task completes.
    TaskCompleted,
    /// When the model requests structured input from the user.
    Elicitation,
    /// When the user responds to an elicitation.
    ElicitationResult,
    /// When the prompt-injection guard sanitises or blocks an inbound text payload.
    PromptInjectionVerdict,
}

/// The key under which a configuration lists the hooks of an event (the
/// variant's name).
pub open spec fn spec_event_key(e: HookEvent) -> Seq<char> {
    match e {
        HookEvent::PreToolUse => "PreToolUse"@,
        HookEvent::PostToolUse => "PostToolUse"@,
        HookEvent::PostToolUseFailure => "PostToolUseFailure"@,
        HookEvent::PermissionRequest => "PermissionRequest"@,
        HookEvent::PermissionDenied => "PermissionDenied"@,
        HookEvent::SessionStart => "SessionStart"@,
        HookEvent::SessionEnd => "SessionEnd"@,
        HookEvent::Setup => "Setup"@,
        HookEvent::Stop => "Stop"@,
        HookEvent::StopFailure => "StopFailure"@,
        HookEvent::UserPromptSubmit => "UserPromptSubmit"@,
        HookEvent::SubagentStart => "SubagentStart"@,
        HookEvent::SubagentStop => "SubagentStop"@,
        HookEvent::PreCompact => "PreCompact"@,
        HookEvent::PostCompact => "PostCompact"@,
        HookEvent::Notification => "Notification"@,
        HookEvent::WorktreeCreate => "WorktreeCreate"@,
        HookEvent::WorktreeRemove => "WorktreeRemove"@,
        HookEvent::CwdChanged => "CwdChanged"@,
        HookEvent::FileChanged => "FileChanged"@,
        HookEvent::TeammateIdle => "TeammateIdle"@,
        HookEvent::TaskCreated => "TaskCreated"@,
        HookEvent::TaskCompleted => "TaskCompleted"@,
        HookEvent::Elicitation => "Elicitation"@,
        HookEvent::ElicitationResult => "ElicitationResult"@,
        HookEvent::PromptInjectionVerdict => "PromptInjectionVerdict"@,
    }
}

pub open spec fn spec_event_summary(e: HookEvent) -> Seq<char> {
    match e {
        HookEvent::PreToolUse => "Before tool execution"@,
        HookEvent::PostToolUse => "After successful tool execution"@,
        HookEvent::PostToolUseFailure => "After tool execution failure"@,
        HookEvent::PermissionRequest => "When a tool triggers a permission prompt"@,
        HookEvent::PermissionDenied => "When the user denies a permission prompt"@,
        HookEvent::SessionStart => "When a new session starts"@,
        HookEvent::SessionEnd => "When a session shuts down"@,
        HookEvent::Setup => "On first-time initialization"@,
        HookEvent::Stop => "When the model produces a final response"@,
        HookEvent::StopFailure => "When the model's stop turn fails"@,
        HookEvent::UserPromptSubmit => "When the user submits a message"@,
        HookEvent::SubagentStart => "When a subagent is spawned"@,
        HookEvent::SubagentStop => "When a subagent completes"@,
        HookEvent::PreCompact => "Before context window compaction"@,
        HookEvent::PostCompact => "After context window compaction"@,
        HookEvent::Notification => "On system notifications"@,
        HookEvent::WorktreeCreate => "When a git worktree is created"@,
        HookEvent::WorktreeRemove => "When a git worktree is removed"@,
        HookEvent::CwdChanged => "When the working directory changes"@,
        HookEvent::FileChanged => "When a watched file changes"@,
        HookEvent::TeammateIdle => "When a teammate agent becomes idle"@,
        HookEvent::TaskCreated => "When a task is created"@,
        HookEvent::TaskCompleted => "When a task completes"@,
        HookEvent::Elicitation => "When the model requests structured user input"@,
        HookEvent::ElicitationResult => "When the user responds to an elicitation"@,
        HookEvent::PromptInjectionVerdict => "When the prompt-injection guard sanitises or blocks inbound text"@,
    }
}

/// The field that matchers filter on: the tool name for tool and
/// permission events, the source for session start, the notification type
/// for notifications, nothing for the rest.
pub open spec fn spec_matcher_field(e: HookEvent) -> Seq<char> {
    match e {
        HookEvent::PreToolUse | HookEvent::PostToolUse | HookEvent::PostToolUseFailure
        | HookEvent::PermissionRequest | HookEvent::PermissionDenied => "tool_name"@,
        HookEvent::SessionStart => "source"@,
        HookEvent::Notification => "notification_type"@,
        _ => ""@,
    }
}

/// The events whose hooks may block the operation.
pub open spec fn spec_can_block(e: HookEvent) -> bool {
    e == HookEvent::PreToolUse || e == HookEvent::PermissionRequest || e == HookEvent::UserPromptSubmit
}

impl HookEvent {
    /// All event variants, for iteration.
    pub const ALL: [HookEvent; 26] = [
        HookEvent::PreToolUse,
        HookEvent::PostToolUse,
        HookEvent::PostToolUseFailure,
        HookEvent::PermissionRequest,
        HookEvent::PermissionDenied,
        HookEvent::SessionStart,
        HookEvent::SessionEnd,
        HookEvent::Setup,
        HookEvent::Stop,
        HookEvent::StopFailure,
        HookEvent::UserPromptSubmit,
        HookEvent::SubagentStart,
        HookEvent::SubagentStop,
        HookEvent::PreCompact,
        HookEvent::PostCompact,
        HookEvent::Notification,
        HookEvent::WorktreeCreate,
        HookEvent::WorktreeRemove,
        HookEvent::CwdChanged,
        HookEvent::FileChanged,
        HookEvent::TeammateIdle,
        HookEvent::TaskCreated,
        HookEvent::TaskCompleted,
        HookEvent::Elicitation,
        HookEvent::ElicitationResult,
        HookEvent::PromptInjectionVerdict,
    ];

    /// Whether this event can block execution (PreToolUse, PermissionRequest, UserPromptSubmit).
    pub fn can_block(&self) -> (b: bool)
        ensures
            b == spec_can_block(*self),
    {
        match self {
            HookEvent::PreToolUse | HookEvent::PermissionRequest | HookEvent::UserPromptSubmit => true,
            _ => false,
        }
    }

    /// The field name that matchers filter on for this event type.
    pub fn matcher_field(&self) -> (s: &'static str)
        ensures
            s@ == spec_matcher_field(*self),
    {
        match self {
            HookEvent::PreToolUse | HookEvent::PostToolUse | HookEvent::PostToolUseFailure
            | HookEvent::PermissionRequest | HookEvent::PermissionDenied => "tool_name",
            HookEvent::SessionStart => "source",
            HookEvent::Notification => "notification_type",
            _ => "",
        }
    }

    /// Human-readable summary of when this event fires.
    pub fn summary(&self) -> (s: &'static str)
        ensures
            s@ == spec_event_summary(*self),
    {
        match self {
            HookEvent::PreToolUse => "Before tool execution",
            HookEvent::PostToolUse => "After successful tool execution",
            HookEvent::PostToolUseFailure => "After tool execution failure",
            HookEvent::PermissionRequest => "When a tool triggers a permission prompt",
            HookEvent::PermissionDenied => "When the user denies a permission prompt",
            HookEvent::SessionStart => "When a new session starts",
            HookEvent::SessionEnd => "When a session shuts down",
            HookEvent::Setup => "On first-time initialization",
            HookEvent::Stop => "When the model produces a final response",
            HookEvent::StopFailure => "When the model's stop turn fails",
            HookEvent::UserPromptSubmit => "When the user submits a message",
            HookEvent::SubagentStart => "When a subagent is spawned",
            HookEvent::SubagentStop => "When a subagent completes",
            HookEvent::PreCompact => "Before context window compaction",
            HookEvent::PostCompact => "After context window compaction",
            HookEvent::Notification => "On system notifications",
            HookEvent::WorktreeCreate => "When a git worktree is created",
            HookEvent::WorktreeRemove => "When a git worktree is removed",
            HookEvent::CwdChanged => "When the working directory changes",
            HookEvent::FileChanged => "When a watched file changes",
            HookEvent::TeammateIdle => "When a teammate agent becomes idle",
            HookEvent::TaskCreated => "When a task is created",
            HookEvent::TaskCompleted => "When a task completes",
            HookEvent::Elicitation => "When the model requests structured user input",
            HookEvent::ElicitationResult => "When the user responds to an elicitation",
            HookEvent::PromptInjectionVerdict => "When the prompt-injection guard sanitises or blocks inbound text",
        }
    }
}

/// Input data passed to hooks when they fire: each variant carries the
/// fields of its event. JSON values (tool inputs, schemas, responses,
/// metadata values) are held as JSON text.
#[derive(Debug, Clone)]
pub enum HookInput {
    PreToolUse { tool_name: String, tool_input: String },
    PostToolUse { tool_name: String, tool_input: String, tool_output: String },
    PostToolUseFailure { tool_name: String, tool_input: String, error: String },
    PermissionRequest { tool_name: String, tool_input: String, rule: String },
    PermissionDenied { tool_name: String, tool_input: String, reason: String },
    SessionStart { session_id: String, cwd: String, source: String, metadata: Vec<(String, String)> },
    SessionEnd { session_id: String, reason: String },
    Setup {},
    Stop { stop_reason: String },
    StopFailure { error: String },
    UserPromptSubmit { message: String },
    SubagentStart { agent_name: String, agent_type: String, prompt: String },
    SubagentStop { agent_name: String, result_summary: String },
    PreCompact { reason: String, message_count: usize },
    PostCompact { messages_before: usize, messages_after: usize, tokens_before: usize, tokens_after: usize },
    Notification { notification_type: String, message: String },
    WorktreeCreate { worktree_path: String, branch: String },
    WorktreeRemove { worktree_path: String },
    CwdChanged { old_cwd: String, new_cwd: String },
    FileChanged { file_path: String, change_type: String },
    TeammateIdle { teammate_id: String },
    TaskCreated { task_id: String, description: String },
    TaskCompleted { task_id: String, result: String },
    Elicitation { prompt: String, schema: String },
    ElicitationResult { response: String },
    PromptInjectionVerdict { context: String, verdict: String, reasons: Vec<String> },
}

/// The event of an input.
pub open spec fn spec_input_event(i: HookInput) -> HookEvent {
    match i {
        HookInput::PreToolUse { .. } => HookEvent::PreToolUse,
        HookInput::PostToolUse { .. } => HookEvent::PostToolUse,
        HookInput::PostToolUseFailure { .. } => HookEvent::PostToolUseFailure,
        HookInput::PermissionRequest { .. } => HookEvent::PermissionRequest,
        HookInput::PermissionDenied { .. } => HookEvent::PermissionDenied,
        HookInput::SessionStart { .. } => HookEvent::SessionStart,
        HookInput::SessionEnd { .. } => HookEvent::SessionEnd,
        HookInput::Setup { .. } => HookEvent::Setup,
        HookInput::Stop { .. } => HookEvent::Stop,
        HookInput::StopFailure { .. } => HookEvent::StopFailure,
        HookInput::UserPromptSubmit { .. } => HookEvent::UserPromptSubmit,
        HookInput::SubagentStart { .. } => HookEvent::SubagentStart,
        HookInput::SubagentStop { .. } => HookEvent::SubagentStop,
        HookInput::PreCompact { .. } => HookEvent::PreCompact,
        HookInput::PostCompact { .. } => HookEvent::PostCompact,
        HookInput::Notification { .. } => HookEvent::Notification,
        HookInput::WorktreeCreate { .. } => HookEvent::WorktreeCreate,
        HookInput::WorktreeRemove { .. } => HookEvent::WorktreeRemove,
        HookInput::CwdChanged { .. } => HookEvent::CwdChanged,
        HookInput::FileChanged { .. } => HookEvent::FileChanged,
        HookInput::TeammateIdle { .. } => HookEvent::TeammateIdle,
        HookInput::TaskCreated { .. } => HookEvent::TaskCreated,
        HookInput::TaskCompleted { .. } => HookEvent::TaskCompleted,
        HookInput::Elicitation { .. } => HookEvent::Elicitation,
        HookInput::ElicitationResult { .. } => HookEvent::ElicitationResult,
        HookInput::PromptInjectionVerdict { .. } => HookEvent::PromptInjectionVerdict,
    }
}

/// The value that matchers filter on for an input: the tool name for tool
/// and permission events, the source for session starts, the type for
/// notifications, and nothing for the others.
pub open spec fn spec_matcher_value(i: HookInput) -> Seq<char> {
    match i {
        HookInput::PreToolUse { tool_name, .. } => tool_name@,
        HookInput::PostToolUse { tool_name, .. } => tool_name@,
        HookInput::PostToolUseFailure { tool_name, .. } => tool_name@,
        HookInput::PermissionRequest { tool_name, .. } => tool_name@,
        HookInput::PermissionDenied { tool_name, .. } => tool_name@,
        HookInput::SessionStart { source, .. } => source@,
        HookInput::Notification { notification_type, .. } => notification_type@,
        _ => seq![],
    }
}

impl HookInput {
    /// The event type of this input.
    pub fn event(&self) -> (e: HookEvent)
        ensures
            e == spec_input_event(*self),
    {
        match self {
            HookInput::PreToolUse { .. } => HookEvent::PreToolUse,
            HookInput::PostToolUse { .. } => HookEvent::PostToolUse,
            HookInput::PostToolUseFailure { .. } => HookEvent::PostToolUseFailure,
            HookInput::PermissionRequest { .. } => HookEvent::PermissionRequest,
            HookInput::PermissionDenied { .. } => HookEvent::PermissionDenied,
            HookInput::SessionStart { .. } => HookEvent::SessionStart,
            HookInput::SessionEnd { .. } => HookEvent::SessionEnd,
            HookInput::Setup { .. } => HookEvent::Setup,
            HookInput::Stop { .. } => HookEvent::Stop,
            HookInput::StopFailure { .. } => HookEvent::StopFailure,
            HookInput::UserPromptSubmit { .. } => HookEvent::UserPromptSubmit,
            HookInput::SubagentStart { .. } => HookEvent::SubagentStart,
            HookInput::SubagentStop { .. } => HookEvent::SubagentStop,
            HookInput::PreCompact { .. } => HookEvent::PreCompact,
            HookInput::PostCompact { .. } => HookEvent::PostCompact,
            HookInput::Notification { .. } => HookEvent::Notification,
            HookInput::WorktreeCreate { .. } => HookEvent::WorktreeCreate,
            HookInput::WorktreeRemove { .. } => HookEvent::WorktreeRemove,
            HookInput::CwdChanged { .. } => HookEvent::CwdChanged,
            HookInput::FileChanged { .. } => HookEvent::FileChanged,
            HookInput::TeammateIdle { .. } => HookEvent::TeammateIdle,
            HookInput::TaskCreated { .. } => HookEvent::TaskCreated,
            HookInput::TaskCompleted { .. } => HookEvent::TaskCompleted,
            HookInput::Elicitation { .. } => HookEvent::Elicitation,
            HookInput::ElicitationResult { .. } => HookEvent::ElicitationResult,
            HookInput::PromptInjectionVerdict { .. } => HookEvent::PromptInjectionVerdict,
        }
    }

    /// The value that matchers filter on for this input.
    pub fn matcher_value(&self) -> (s: &str)
        ensures
            s@ == spec_matcher_value(*self),
    {
        match self {
            HookInput::PreToolUse { tool_name, .. } => tool_name.as_str(),
            HookInput::PostToolUse { tool_name, .. } => tool_name.as_str(),
            HookInput::PostToolUseFailure { tool_name, .. } => tool_name.as_str(),
            HookInput::PermissionRequest { tool_name, .. } => tool_name.as_str(),
            HookInput::PermissionDenied { tool_name, .. } => tool_name.as_str(),
            HookInput::SessionStart { source, .. } => source.as_str(),
            HookInput::Notification { notification_type, .. } => notification_type.as_str(),
            _ => {
                proof {
                    reveal_strlit("");
                }
                ""
            },
        }
    }
}

} // verus!
