//! Arguments of the comment maintenance commands.

use vstd::prelude::*;

verus! {

/// What the comment command does.
#[derive(Debug)]
pub enum Action {
    /// Delete a comment and its photos.
    Delete(DeleteArgs),
    /// Drain the photo conversion queue.
    ProcessImage(ProcessImageArgs),
}

#[derive(Debug)]
pub struct DeleteArgs {
    pub id: String,
}

#[derive(Debug)]
pub struct ProcessImageArgs {
    /// How many orders to process before stopping, all when absent.
    pub number: Option<u32>,
}

} // verus!
