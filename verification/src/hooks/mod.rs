//! Hooks system — lifecycle event interception: which configured hooks fire
//! for an event, and how their results combine.

pub mod matcher;

pub use matcher::HookMatcher;
pub mod events;
pub use events::{HookEvent, HookInput};
pub mod config;
pub use config::{AggregatedHookResult, CommandHookDef, HookConfig, HookGroup, HookResult};
pub mod runner;
pub use runner::HookRunner;
pub mod loader;
pub use loader::load_merged_hooks;
pub mod executor;
pub use executor::CommandHookExecutor;
pub mod file_watch;
