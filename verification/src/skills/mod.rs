//! Skill framework — reusable prompt-based workflows: markdown files with
//! YAML frontmatter that define prompt templates invoked by name.

pub mod definition;

pub use definition::{parse_skill_markdown, SkillDefinition, SkillSource};
pub mod loader;

pub use loader::{load_merged_skills, SkillRegistry};
