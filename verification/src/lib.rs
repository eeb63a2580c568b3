//! Photo-derivation pipeline for a hydro-chemical analysis report service.
//!
//! An uploaded comment photo is durably queued as one order file per display
//! profile, claimed by one of possibly many workers through an atomic rename,
//! converted into display-ready variants, and later soft-deleted as a group.
//! The path layout that joins these subsystems, the conversion rule table, the
//! order serialization, the claim state machine and the soft-delete planning
//! are verified here; the surrounding process performs the filesystem and
//! network effects.

pub mod analyses;
pub mod cli;
pub mod comment_photos;
pub mod comments;
pub mod identifier;
pub mod image_path;
pub mod imaging;
pub mod order_json;
pub mod photo;
pub mod queue;
pub mod scrub;
pub mod template;
pub mod text;
pub mod token;
pub mod web;
