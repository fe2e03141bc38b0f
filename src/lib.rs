//! Resolves the identifier of a context server to the command that starts it.
//!
//! The registry is a closed set of known identifiers, each mapped to a fixed
//! launch descriptor; any other identifier is rejected with an error that
//! names it.

mod descriptor;
mod resolver;

pub use descriptor::{LaunchDescriptor, LaunchDescriptorView, UnknownServerError};
pub use resolver::{
    command_for, lemma_plex_mcp_resolves, lemma_project_irrelevant,
    lemma_resolution_idempotent, lemma_unknown_rejected, outcome_view, plex_mcp_id, plex_mcp_launch, registry, resolution,
    PlexMediaServerExtension,
};
