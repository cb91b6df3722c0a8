//! Answers of the usergroups endpoints.
use vstd::prelude::*;

use crate::mention::table_view;
use crate::response::Response;

verus! {

/// Answer of `usergroups.list`: the whole catalog.
#[derive(Debug, Clone)]
pub struct UsergroupsList {
    pub ok: bool,
    pub usergroups: Option<Vec<Usergroup>>,
}

impl Response for UsergroupsList {
    open spec fn ok_spec(&self) -> bool {
        self.ok
    }

    open spec fn cursor_spec(&self) -> Option<Seq<char>> {
        None
    }

    fn is_ok(&self) -> (r: bool) {
        self.ok
    }

    fn next_cursor(&self) -> (r: Option<String>) {
        None
    }
}

/// A named set of users that a mention can address.
#[derive(Debug, Clone)]
pub struct Usergroup {
    pub id: String,
    pub team_id: String,
    pub name: String,
    pub description: Option<String>,
    /// The name that mentions show.
    pub handle: String,
    pub user_count: u64,
}

/// Answer of `usergroups.users.list`: the ids of the members.
#[derive(Debug, Clone)]
pub struct UsergroupsUsers {
    pub ok: bool,
    pub users: Option<Vec<String>>,
}

impl Response for UsergroupsUsers {
    open spec fn ok_spec(&self) -> bool {
        self.ok
    }

    open spec fn cursor_spec(&self) -> Option<Seq<char>> {
        None
    }

    fn is_ok(&self) -> (r: bool) {
        self.ok
    }

    fn next_cursor(&self) -> (r: Option<String>) {
        None
    }
}

/// The catalog as a table from usergroup id to handle, in catalog order.
pub open spec fn handle_table(groups: Seq<Usergroup>) -> Seq<(Seq<char>, Seq<char>)> {
    groups.map_values(|g: Usergroup| (g.id@, g.handle@))
}

/// Exec form of `handle_table`.
pub fn handles(groups: &Vec<Usergroup>) -> (r: Vec<(String, String)>)
    ensures
        table_view(r@) == handle_table(groups@),
{
    let mut r: Vec<(String, String)> = Vec::new();
    let mut i: usize = 0;
    while i < groups.len()
        invariant
            i <= groups@.len(),
            r@.len() == i,
            table_view(r@) =~= handle_table(groups@.subrange(0, i as int)),
        decreases groups.len() - i,
    {
        let ghost before = r@;
        let id = groups[i].id.clone();
        let handle = groups[i].handle.clone();
        r.push((id, handle));
        assert(r@ == before.push((id, handle)));
        assert(table_view(r@)[i as int] == (groups@[i as int].id@, groups@[i as int].handle@));
        assert forall|k: int| 0 <= k < i implies table_view(r@)[k] == (
            groups@[k].id@,
            groups@[k].handle@,
        ) by {
            assert(r@[k] == before[k]);
            assert(table_view(before)[k] == handle_table(groups@.subrange(0, i as int))[k]);
            assert(groups@.subrange(0, i as int)[k] == groups@[k]);
        }
        i = i + 1;
        assert(table_view(r@) =~= handle_table(groups@.subrange(0, i as int)));
    }
    assert(groups@.subrange(0, i as int) =~= groups@);
    r
}

} // verus!
