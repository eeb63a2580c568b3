//! Arguments of the template maintenance commands.

use vstd::prelude::*;

verus! {

/// What the template command does.
#[derive(Debug)]
pub enum Action {
    /// Show one template, or list them all.
    Show(ShowArgs),
    /// Add or replace a template.
    Add(AddArgs),
    /// Delete a template.
    Delete(DeleteArgs),
}

#[derive(Debug)]
pub struct ShowArgs {
    pub id: Option<String>,
}

#[derive(Debug)]
pub struct AddArgs {
    pub id: Option<String>,
    pub name: Option<String>,
    pub path: Option<String>,
}

#[derive(Debug)]
pub struct DeleteArgs {
    pub id: String,
}

} // verus!
