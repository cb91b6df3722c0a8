//! Queries of the conversations endpoints.
use vstd::prelude::*;

use crate::permalink::Timestamp;
use crate::request::Request;
use crate::response::conversations::{Conversations, ConversationsInfo, ConversationsList};

verus! {

/// A query of a conversations endpoint.
pub trait ConversationsQuery: Request {

}

/// Query of `conversations.info`.
#[derive(Debug, Clone)]
pub struct Info {
    /// The conversation's id.
    pub channel: String,
}

impl ConversationsQuery for Info {

}

impl Request for Info {
    type Response = ConversationsInfo;

    open spec fn endpoint(&self) -> Seq<char> {
        "conversations.info"@
    }

    fn path(&self) -> (r: &'static str) {
        "conversations.info"
    }
}

/// Query of `conversations.history`.
#[derive(Debug, Clone)]
pub struct History {
    pub channel: String,
    /// Only messages before this time.
    pub latest: Timestamp,
    /// Only messages after this time.
    pub oldest: Timestamp,
    /// The most messages to return.
    pub limit: u64,
    /// Whether messages at `latest` and `oldest` count.
    pub inclusive: bool,
    /// Where the page starts; the first page when absent.
    pub cursor: Option<String>,
}

impl History {
    /// The one message of `channel` posted at `ts`.
    pub fn at(channel: String, ts: Timestamp) -> (r: History)
        ensures
            r.channel == channel,
            r.latest == ts,
            r.oldest == ts,
            r.limit == 1,
            r.inclusive,
            r.cursor is None,
    {
        History { channel, latest: ts, oldest: ts, limit: 1, inclusive: true, cursor: None }
    }
}

impl ConversationsQuery for History {

}

impl Request for History {
    type Response = Conversations;

    open spec fn endpoint(&self) -> Seq<char> {
        "conversations.history"@
    }

    fn path(&self) -> (r: &'static str) {
        "conversations.history"
    }
}

/// Query of `conversations.replies`.
#[derive(Debug, Clone)]
pub struct Replies {
    pub channel: String,
    /// The thread: its parent message, or any message in it.
    pub ts: Timestamp,
    /// Only messages before this time.
    pub latest: Timestamp,
    /// Only messages after this time.
    pub oldest: Timestamp,
    /// The most messages to return.
    pub limit: u64,
    /// Whether messages at `latest` and `oldest` count.
    pub inclusive: bool,
}

impl Replies {
    /// The one message of thread `thread` in `channel` posted at `ts`.
    pub fn at(channel: String, thread: Timestamp, ts: Timestamp) -> (r: Replies)
        ensures
            r.channel == channel,
            r.ts == thread,
            r.latest == ts,
            r.oldest == ts,
            r.limit == 1,
            r.inclusive,
    {
        Replies { channel, ts: thread, latest: ts, oldest: ts, limit: 1, inclusive: true }
    }
}

impl ConversationsQuery for Replies {

}

impl Request for Replies {
    type Response = Conversations;

    open spec fn endpoint(&self) -> Seq<char> {
        "conversations.replies"@
    }

    fn path(&self) -> (r: &'static str) {
        "conversations.replies"
    }
}

/// A kind of conversation, as `conversations.list` filters them.
#[derive(Clone, Copy, Debug, PartialEq, Eq, Structural)]
pub enum ChannelType {
    Public,
    Private,
    Mpim,
    Im,
}

/// The name by which the platform knows a conversation type.
pub open spec fn kind_name(t: ChannelType) -> Seq<char> {
    match t {
        ChannelType::Public => "public_channel"@,
        ChannelType::Private => "private_channel"@,
        ChannelType::Mpim => "mpim"@,
        ChannelType::Im => "im"@,
    }
}

impl ChannelType {
    /// The type that `value` names; a name outside the four gives `None`
    /// rather than a failure, so that callers decide what an unknown name means.
    pub fn from_name(value: &str) -> (r: Option<ChannelType>)
        ensures
            r matches Some(t) ==> kind_name(t) == value@,
            r is None ==> forall|t: ChannelType| kind_name(t) != value@,
    {
        let names = [ChannelType::Public, ChannelType::Private, ChannelType::Mpim, ChannelType::Im];
        let v = value.to_owned();
        let mut i: usize = 0;
        while i < 4
            invariant
                i <= 4,
                v@ == value@,
                names@ == seq![ChannelType::Public, ChannelType::Private, ChannelType::Mpim, ChannelType::Im],
                forall|k: int| 0 <= k < i ==> kind_name(#[trigger] names@[k]) != value@,
            decreases 4 - i,
        {
            let t = names[i];
            let name = t.as_str().to_owned();
            if name == v {
                return Some(t);
            }
            i = i + 1;
        }
        assert forall|t: ChannelType| kind_name(t) != value@ by {
            match t {
                ChannelType::Public => assert(names@[0] == t),
                ChannelType::Private => assert(names@[1] == t),
                ChannelType::Mpim => assert(names@[2] == t),
                ChannelType::Im => assert(names@[3] == t),
            }
        }
        None
    }

    /// The name by which the platform knows the type.
    pub fn as_str(&self) -> (r: &'static str)
        ensures
            r@ == kind_name(*self),
    {
        match self {
            ChannelType::Public => "public_channel",
            ChannelType::Private => "private_channel",
            ChannelType::Mpim => "mpim",
            ChannelType::Im => "im",
        }
    }
}

/// The names of `ts`, separated by commas.
pub open spec fn joined_names(ts: Seq<ChannelType>) -> Seq<char>
    decreases ts.len(),
{
    if ts.len() == 0 {
        Seq::empty()
    } else if ts.len() == 1 {
        kind_name(ts[0])
    } else {
        joined_names(ts.drop_last()) + ","@ + kind_name(ts.last())
    }
}

/// A set of conversation types, as `conversations.list` takes it.
#[derive(Debug, Clone)]
pub struct ChannelTypes {
    pub inner: Vec<ChannelType>,
}

impl ChannelTypes {
    pub open spec fn types(&self) -> Seq<ChannelType> {
        self.inner@
    }

    pub fn new(inner: Vec<ChannelType>) -> (r: ChannelTypes)
        ensures
            r.types() == inner@,
    {
        ChannelTypes { inner }
    }

    /// The names of the types, separated by commas.
    pub fn joined(&self) -> (r: String)
        ensures
            r@ == joined_names(self.types()),
    {
        let mut r = String::new();
        let mut i: usize = 0;
        while i < self.inner.len()
            invariant
                i <= self.inner@.len(),
                r@ == joined_names(self.inner@.subrange(0, i as int)),
            decreases self.inner.len() - i,
        {
            let ghost prefix = self.inner@.subrange(0, i + 1);
            assert(prefix.drop_last() =~= self.inner@.subrange(0, i as int));
            if i > 0 {
                r.append(",");
            }
            r.append(self.inner[i].as_str());
            i = i + 1;
            assert(prefix.last() == self.inner@[i - 1]);
            assert(prefix == self.inner@.subrange(0, i as int));
            assert(i == 1 ==> prefix[0] == self.inner@[0]);
            assert(i == 1 ==> r@ == kind_name(self.inner@[0]));
        }
        assert(self.inner@.subrange(0, i as int) =~= self.inner@);
        r
    }
}

impl From<Vec<ChannelType>> for ChannelTypes {
    fn from(inner: Vec<ChannelType>) -> (r: ChannelTypes) {
        ChannelTypes { inner }
    }
}

impl vstd::std_specs::convert::FromSpecImpl<Vec<ChannelType>> for ChannelTypes {
    open spec fn obeys_from_spec() -> bool {
        true
    }

    open spec fn from_spec(inner: Vec<ChannelType>) -> ChannelTypes {
        ChannelTypes { inner }
    }
}

/// Query of `conversations.list`: one page of conversations.
#[derive(Debug, Clone)]
pub struct List {
    pub exclude_archived: Option<bool>,
    /// The types to list.
    pub types: Option<ChannelTypes>,
    /// Where the page starts; the first page when absent.
    pub cursor: Option<String>,
    /// The most conversations to return.
    pub limit: Option<u64>,
}

impl ConversationsQuery for List {

}

impl Request for List {
    type Response = ConversationsList;

    open spec fn endpoint(&self) -> Seq<char> {
        "conversations.list"@
    }

    fn path(&self) -> (r: &'static str) {
        "conversations.list"
    }
}

/// The `types` parameter of a listing: the joined names, when types are given.
pub fn from_channel_types(value: &Option<ChannelTypes>) -> (r: Option<String>)
    ensures
        match value {
            Some(v) => r matches Some(s) && s@ == joined_names(v.types()),
            None => r is None,
        },
{
    match value {
        Some(v) => Some(v.joined()),
        None => None,
    }
}

} // verus!
