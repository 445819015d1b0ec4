//! Permission system — allow/deny/ask rules with tool-level access control.
//!
//! The permission system sits between the engine and tool execution, evaluating
//! rules against each tool call before it runs. Rules support tool name matching
//! (exact or glob) with optional content patterns.

pub mod rules;

pub use rules::{PermissionDecision, PermissionRule, RuleKind, RuleMatcher};
pub mod config;
pub use config::{load_merged_permissions, PermissionConfig, PermissionsSection};
pub mod checker;
pub use checker::{
    AuditEntry, CheckStep, DecisionAudit, DecisionReason, ModalOption, ModalRequest, PermissionCategory,
    PermissionChecker, PermissionMode, PermissionResponse, PermissionSnapshot, PromptOutcome,
    SessionGrants,
};
pub mod prompt;
pub use prompt::{CliModalPrompt, MockModalPrompt};
