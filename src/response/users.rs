//! Answers of the users endpoints, and how a user's name is shown.
use vstd::prelude::*;

use crate::response::{cursor_of, next_cursor_of, Response, ResponseMetadata};

verus! {

/// Answer of `users.info`.
#[derive(Debug, Clone)]
pub struct UsersInfo {
    pub ok: bool,
    /// The user, when it exists.
    pub user: Option<User>,
}

impl Response for UsersInfo {
    open spec fn ok_spec(&self) -> bool {
        self.ok
    }

    open spec fn cursor_spec(&self) -> Option<Seq<char>> {
        None
    }

    fn is_ok(&self) -> (r: bool) {
        self.ok
    }

    fn next_cursor(&self) -> (r: Option<String>) {
        None
    }
}

/// A member of the workspace, human or automated.
#[derive(Debug, Clone)]
pub struct User {
    pub id: String,
    pub team_id: String,
    /// The account name.
    pub name: String,
    pub real_name: Option<String>,
    pub profile: Profile,
    pub is_bot: bool,
    pub deleted: bool,
    pub is_app_user: bool,
    /// Time zone of the user.
    pub tz: Option<String>,
}

/// The profile of a user.
#[derive(Debug, Clone)]
pub struct Profile {
    /// The name that the clients show.
    pub display_name: String,
    pub display_name_normalized: String,
    pub real_name: String,
    pub real_name_normalized: String,
    pub email: Option<String>,
    pub title: String,
    pub image_24: Option<String>,
    pub image_32: Option<String>,
    pub image_48: Option<String>,
    pub image_72: Option<String>,
    pub image_192: Option<String>,
    pub image_512: Option<String>,
    pub image_1024: Option<String>,
    pub image_original: Option<String>,
}

/// Answer of `users.list`: one page of members.
#[derive(Debug, Clone)]
pub struct UsersList {
    pub ok: bool,
    pub members: Option<Vec<User>>,
    pub response_metadata: Option<ResponseMetadata>,
}

impl Response for UsersList {
    open spec fn ok_spec(&self) -> bool {
        self.ok
    }

    open spec fn cursor_spec(&self) -> Option<Seq<char>> {
        cursor_of(self.response_metadata)
    }

    fn is_ok(&self) -> (r: bool) {
        self.ok
    }

    fn next_cursor(&self) -> (r: Option<String>) {
        next_cursor_of(&self.response_metadata)
    }
}

/// The name under which a user is shown: an automated account by its real
/// name, else its account name; a human by the profile's display name, or
/// the account name when that is empty.
pub open spec fn display_name(u: User) -> Seq<char> {
    if u.is_bot {
        match u.real_name {
            Some(r) => r@,
            None => u.name@,
        }
    } else if u.profile.display_name@.len() == 0 {
        u.name@
    } else {
        u.profile.display_name@
    }
}

/// Exec form of `display_name`.
pub fn display_name_of(user: User) -> (r: String)
    ensures
        r@ == display_name(user),
{
    if user.is_bot {
        match user.real_name {
            Some(r) => r,
            None => user.name,
        }
    } else if user.profile.display_name.as_str().unicode_len() == 0 {
        user.name
    } else {
        user.profile.display_name
    }
}

} // verus!
