//! Plugins: identifiers, marketplaces, installation records, and the plans
//! for fetching a plugin's files.
pub mod loader;
pub use loader::{PluginIdentifier, PluginSource, ResolvedPaths};
pub mod marketplace;
pub use marketplace::{KnownMarketplaces, MarketplaceEntry, MarketplaceSource, PluginSourceRef};
pub mod installer;
pub mod components;
pub mod manifest;
pub mod builtin;
pub mod settings;
pub mod runtime;
pub mod tool_watch;
