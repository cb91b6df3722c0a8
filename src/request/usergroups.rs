//! Queries of the usergroups endpoints.
use vstd::prelude::*;

use crate::request::Request;
use crate::response::usergroups::{UsergroupsList, UsergroupsUsers};

verus! {

/// A query of a usergroups endpoint.
pub trait UsergroupsQuery: Request {

}

/// A query of the members of a usergroup.
pub trait UsergroupsUsersQuery: Request {

}

/// Query of `usergroups.list`.
#[derive(Debug, Clone)]
pub struct List {
    pub include_count: Option<bool>,
    pub include_disabled: Option<bool>,
    pub include_users: Option<bool>,
    /// Restrict the list to these ids.
    pub usergroup_ids: Option<String>,
}

impl List {
    /// The whole catalog, with the platform's defaults.
    pub fn all() -> (r: List)
        ensures
            r.include_count is None,
            r.include_disabled is None,
            r.include_users is None,
            r.usergroup_ids is None,
    {
        List { include_count: None, include_disabled: None, include_users: None, usergroup_ids: None }
    }
}

impl UsergroupsQuery for List {

}

impl Request for List {
    type Response = UsergroupsList;

    open spec fn endpoint(&self) -> Seq<char> {
        "usergroups.list"@
    }

    fn path(&self) -> (r: &'static str) {
        "usergroups.list"
    }
}

/// Query of `usergroups.users.list`.
#[derive(Debug, Clone)]
pub struct Users {
    /// The usergroup's id.
    pub id: String,
}

impl UsergroupsQuery for Users {

}

impl UsergroupsUsersQuery for Users {

}

impl Request for Users {
    type Response = UsergroupsUsers;

    open spec fn endpoint(&self) -> Seq<char> {
        "usergroups.users.list"@
    }

    fn path(&self) -> (r: &'static str) {
        "usergroups.users.list"
    }
}

} // verus!
