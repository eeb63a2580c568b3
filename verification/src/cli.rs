//! Arguments of the maintenance commands, grouped by subsystem.

pub mod analysis_cli;
pub mod comment_cli;
pub mod template_cli;
