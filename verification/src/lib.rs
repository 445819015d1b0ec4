use vstd::prelude::*;

pub mod text;
pub mod glob;
pub mod permissions;
pub mod approval;
pub mod hooks;
pub mod prompt_injection;
pub mod frontmatter;
pub mod agent_defs;
pub mod skills;
pub mod background;
pub mod compact_prompt;
pub mod paths;
pub mod keyed;
pub mod plugins;
pub mod plan;
pub mod diff;
pub mod conversation;
pub mod system_prompt;
pub mod query_engine;
pub mod token_estimator;
pub mod tool_timeout;
pub mod tool_result_limiter;
pub mod error;
pub mod compactor;
pub mod context;
pub mod stream;

verus! {

} // verus!
