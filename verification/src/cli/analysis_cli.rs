//! Arguments of the analysis maintenance commands.

use vstd::prelude::*;

verus! {

/// What the analysis command does.
#[derive(Debug)]
pub enum Action {
    /// Delete an analysis and the comments on it.
    Delete(DeleteArgs),
    /// Transliterate one name, for inspection.
    Scrub(ScrubArgs),
    /// Dump every analysis.
    All,
}

#[derive(Debug)]
pub struct DeleteArgs {
    pub id: String,
}

#[derive(Debug)]
pub struct ScrubArgs {
    pub name: String,
}

} // verus!
