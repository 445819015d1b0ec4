//! Interactive approval workflow for sensitive tool calls: the session
//! allowlist and the records of approval decisions.

pub mod allowlist;
pub mod audit;

pub use allowlist::{ArgShape, SessionAllowlist};
pub use audit::{ApprovalTier, AuditRecord};
