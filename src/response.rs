//! The records that the platform's endpoints answer with.
use vstd::prelude::*;

pub mod bots;
pub mod conversations;
pub mod usergroups;
pub mod users;

verus! {

/// A decoded answer of an endpoint.
pub trait Response {
    /// Whether the platform reported success.
    spec fn ok_spec(&self) -> bool;

    /// The cursor of the next page of a listing, if there is one.
    spec fn cursor_spec(&self) -> Option<Seq<char>>;

    fn is_ok(&self) -> (r: bool)
        ensures
            r == self.ok_spec(),
    ;

    fn next_cursor(&self) -> (r: Option<String>)
        ensures
            crate::permalink::opt_view(r) == self.cursor_spec(),
    ;
}

/// Paging information of a listing.
#[derive(Debug, Clone)]
pub struct ResponseMetadata {
    pub next_cursor: String,
}

/// The cursor that a listing's metadata names: none when the metadata is
/// absent or its cursor is empty.
pub open spec fn cursor_of(m: Option<ResponseMetadata>) -> Option<Seq<char>> {
    match m {
        Some(md) => if md.next_cursor@.len() == 0 {
            None
        } else {
            Some(md.next_cursor@)
        },
        None => None,
    }
}

pub fn next_cursor_of(m: &Option<ResponseMetadata>) -> (r: Option<String>)
    ensures
        crate::permalink::opt_view(r) == cursor_of(*m),
{
    match m {
        Some(md) => {
            if md.next_cursor.as_str().unicode_len() == 0 {
                None
            } else {
                Some(md.next_cursor.clone())
            }
        },
        None => None,
    }
}

} // verus!
