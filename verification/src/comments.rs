//! Comment-side options and the comment id generator.
//!
//! The comment store itself is an external collaborator; what lives here are
//! the plain values its queries are built from, and the generator that
//! assigns ids to new comments.

use vstd::prelude::*;

use crate::identifier::Generate;
use crate::identifier::IdGenerator;

verus! {

/// What a comment listing selects on: a free-text search or the comments of
/// one parent record.
pub enum SelectQuery {
    Text(String),
    Parent(String),
}

/// Options of one comment listing.
pub struct SelectOptions {
    pub query: Option<SelectQuery>,
    pub limit: u32,
}

/// Options of one comment deletion.
pub struct DeleteCommentOptions {
    pub id: String,
}

/// The listing size used when a request names none.
pub fn default_limit() -> (r: u32)
    ensures
        r == 20,
{
    20
}

/// Generates the unique id of one comment, from the owning record id and the
/// comment's author name.
pub struct CommentIdGenerator(IdGenerator<(String, String)>);

impl CommentIdGenerator {
    /// The content tuple behind this generator's id.
    pub closed spec fn content_of(&self) -> (String, String) {
        self.0.content_of()
    }

    pub fn new(analysis: &str, content: &str) -> (r: CommentIdGenerator)
        ensures
            r.content_of().0@ == analysis@,
            r.content_of().1@ == content@,
    {
        CommentIdGenerator(IdGenerator::new((analysis.to_owned(), content.to_owned())))
    }
}

impl Generate for CommentIdGenerator {
    /// The id of the wrapped generator.
    closed spec fn id_spec(&self) -> Seq<char> {
        self.0.id_spec()
    }

    fn generate(&self) -> (r: String) {
        self.0.generate()
    }
}

} // verus!
