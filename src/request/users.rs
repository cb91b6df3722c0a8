//! Queries of the users endpoints.
use vstd::prelude::*;

use crate::request::Request;
use crate::response::users::{UsersInfo, UsersList};

verus! {

/// A query of a users endpoint.
pub trait UsersQuery: Request {

}

/// Query of `users.info`.
#[derive(Debug, Clone)]
pub struct Info {
    /// The user's id.
    pub id: String,
}

impl UsersQuery for Info {

}

impl Request for Info {
    type Response = UsersInfo;

    open spec fn endpoint(&self) -> Seq<char> {
        "users.info"@
    }

    fn path(&self) -> (r: &'static str) {
        "users.info"
    }
}

/// Query of `users.list`: one page of members.
#[derive(Debug, Clone)]
pub struct List {
    /// Where the page starts; the first page when absent.
    pub cursor: Option<String>,
    /// The most members to return.
    pub limit: Option<u64>,
}

impl UsersQuery for List {

}

impl Request for List {
    type Response = UsersList;

    open spec fn endpoint(&self) -> Seq<char> {
        "users.list"@
    }

    fn path(&self) -> (r: &'static str) {
        "users.list"
    }
}

} // verus!
