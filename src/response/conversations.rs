//! Answers of the conversations endpoints, and how a channel and a message
//! are shown.
use vstd::prelude::*;

use crate::response::users::{display_name, User};
use crate::response::{cursor_of, next_cursor_of, Response, ResponseMetadata};

verus! {

/// Answer of `conversations.info`.
#[derive(Debug, Clone)]
pub struct ConversationsInfo {
    pub ok: bool,
    pub channel: Option<Channel>,
}

impl Response for ConversationsInfo {
    open spec fn ok_spec(&self) -> bool {
        self.ok
    }

    open spec fn cursor_spec(&self) -> Option<Seq<char>> {
        None
    }

    fn is_ok(&self) -> (r: bool) {
        self.ok
    }

    fn next_cursor(&self) -> (r: Option<String>) {
        None
    }
}

/// A conversation: a channel, a direct message or a multi-person direct
/// message.
#[derive(Debug, Clone)]
pub struct Channel {
    pub id: String,
    pub name: Option<String>,
    pub is_channel: Option<bool>,
    pub is_private: Option<bool>,
    pub is_shared: Option<bool>,
    pub is_ext_shared: Option<bool>,
    pub is_org_shared: Option<bool>,
    pub is_archived: Option<bool>,
    pub previous_names: Option<Vec<String>>,
    pub num_members: Option<i64>,
    pub created: i64,
    pub updated: i64,
    pub creator: Option<String>,
    /// A direct message with one other user.
    pub is_im: Option<bool>,
    /// A direct message among several users.
    pub is_mpim: Option<bool>,
    pub name_normalized: Option<String>,
    pub purpose: Option<Purpose>,
    /// The other user of a direct message.
    pub user: Option<String>,
}

/// The stated purpose of a conversation.
#[derive(Debug, Clone)]
pub struct Purpose {
    pub value: String,
}

/// Answer of `conversations.history` and `conversations.replies`.
#[derive(Debug, Clone)]
pub struct Conversations {
    pub ok: bool,
    pub messages: Option<Vec<Message>>,
    pub response_metadata: Option<ResponseMetadata>,
}

impl Response for Conversations {
    open spec fn ok_spec(&self) -> bool {
        self.ok
    }

    open spec fn cursor_spec(&self) -> Option<Seq<char>> {
        cursor_of(self.response_metadata)
    }

    fn is_ok(&self) -> (r: bool) {
        self.ok
    }

    fn next_cursor(&self) -> (r: Option<String>) {
        next_cursor_of(&self.response_metadata)
    }
}

/// Answer of `conversations.list`: one page of channels.
#[derive(Debug, Clone)]
pub struct ConversationsList {
    pub ok: bool,
    pub channels: Option<Vec<Channel>>,
    pub response_metadata: Option<ResponseMetadata>,
}

impl Response for ConversationsList {
    open spec fn ok_spec(&self) -> bool {
        self.ok
    }

    open spec fn cursor_spec(&self) -> Option<Seq<char>> {
        cursor_of(self.response_metadata)
    }

    fn is_ok(&self) -> (r: bool) {
        self.ok
    }

    fn next_cursor(&self) -> (r: Option<String>) {
        next_cursor_of(&self.response_metadata)
    }
}

/// A message as fetched.
#[derive(Debug, Clone)]
pub struct Message {
    /// Id of the author, when a user wrote it.
    pub user: Option<String>,
    /// Id of the author, when an automated account wrote it.
    pub bot_id: Option<String>,
    /// The plain text of the message.
    pub text: Option<String>,
    /// The message's blocks, each already rendered to markdown.
    pub blocks: Option<Vec<String>>,
}

pub open spec fn is_set(b: Option<bool>) -> bool {
    b matches Some(v) && v
}

/// The name of a conversation, or `None` for a direct message, whose name is
/// that of its other user: a multi-person direct message shows its purpose,
/// any other channel its normalized name, `UNKNOWN` where that is absent.
pub open spec fn channel_title(ch: Channel) -> Option<Seq<char>> {
    if is_set(ch.is_im) {
        None
    } else if is_set(ch.is_mpim) {
        match ch.purpose {
            Some(p) => Some(p.value@),
            None => Some("UNKNOWN"@),
        }
    } else {
        match ch.name_normalized {
            Some(n) => Some(n@),
            None => Some("UNKNOWN"@),
        }
    }
}

/// The name of a direct message with `peer`: `DM with` and the peer's
/// profile display name, `UNKNOWN` when the peer is unknown.
pub open spec fn dm_title(peer: Option<User>) -> Seq<char> {
    match peer {
        Some(u) => "DM with "@ + u.profile.display_name@,
        None => "DM with "@ + "UNKNOWN"@,
    }
}

/// Rendered blocks one after another, each on its own line.
pub open spec fn joined_blocks(bs: Seq<String>) -> Seq<char>
    decreases bs.len(),
{
    if bs.len() == 0 {
        Seq::empty()
    } else if bs.len() == 1 {
        bs[0]@
    } else {
        joined_blocks(bs.drop_last()) + "\n"@ + bs.last()@
    }
}

/// The body of a message: all its rendered blocks when it has any, else its
/// text, else nothing.
pub open spec fn body_of(m: Message) -> Seq<char> {
    match m.blocks {
        Some(bs) if bs.len() > 0 => joined_blocks(bs@),
        _ => match m.text {
            Some(t) => t@,
            None => Seq::empty(),
        },
    }
}

/// Exec form of `channel_title`.
pub fn channel_title_of(ch: &Channel) -> (r: Option<String>)
    ensures
        crate::permalink::opt_view(r) == channel_title(*ch),
{
    let im = match ch.is_im {
        Some(v) => v,
        None => false,
    };
    let mpim = match ch.is_mpim {
        Some(v) => v,
        None => false,
    };
    if im {
        None
    } else if mpim {
        match &ch.purpose {
            Some(p) => Some(p.value.clone()),
            None => Some("UNKNOWN".to_owned()),
        }
    } else {
        match &ch.name_normalized {
            Some(n) => Some(n.clone()),
            None => Some("UNKNOWN".to_owned()),
        }
    }
}

/// Exec form of `dm_title`.
pub fn dm_title_of(peer: Option<User>) -> (r: String)
    ensures
        r@ == dm_title(peer),
{
    let mut r = "DM with ".to_owned();
    match peer {
        Some(u) => r.append(u.profile.display_name.as_str()),
        None => r.append("UNKNOWN"),
    }
    r
}

fn join_blocks(bs: &Vec<String>) -> (r: String)
    ensures
        r@ == joined_blocks(bs@),
{
    let mut r = String::new();
    let mut i: usize = 0;
    while i < bs.len()
        invariant
            i <= bs@.len(),
            r@ == joined_blocks(bs@.subrange(0, i as int)),
        decreases bs.len() - i,
    {
        let ghost prefix = bs@.subrange(0, i + 1);
        assert(prefix.drop_last() =~= bs@.subrange(0, i as int));
        if i > 0 {
            r.append("\n");
        }
        r.append(bs[i].as_str());
        i = i + 1;
        assert(prefix.last() == bs@[i - 1]);
        assert(prefix == bs@.subrange(0, i as int));
        assert(i == 1 ==> prefix[0] == bs@[0]);
    }
    assert(bs@.subrange(0, i as int) =~= bs@);
    r
}

/// Exec form of `body_of`.
pub fn body_of_message(m: &Message) -> (r: String)
    ensures
        r@ == body_of(*m),
{
    match &m.blocks {
        Some(bs) if bs.len() > 0 => join_blocks(bs),
        _ => match &m.text {
            Some(t) => t.clone(),
            None => String::new(),
        },
    }
}

} // verus!

verus! {

/// Whether a listing keeps channel `ch`: when `creator` is given, only the
/// channels it created; when `exclude_archived` is set, only the channels
/// that the platform does not mark as archived.
pub open spec fn listed(ch: Channel, creator: Option<Seq<char>>, exclude_archived: bool) -> bool {
    &&& (creator matches Some(id) ==> ch.creator matches Some(c) && c@ == id)
    &&& (exclude_archived ==> !is_set(ch.is_archived))
}

/// Exec form of `listed`.
pub fn keeps_channel(ch: &Channel, creator: &Option<String>, exclude_archived: bool) -> (r: bool)
    ensures
        r == listed(*ch, crate::permalink::opt_view(*creator), exclude_archived),
{
    let by_creator = match creator {
        Some(id) => match &ch.creator {
            Some(c) => *c == *id,
            None => false,
        },
        None => true,
    };
    let archived = match ch.is_archived {
        Some(v) => v,
        None => false,
    };
    by_creator && !(exclude_archived && archived)
}

} // verus!
