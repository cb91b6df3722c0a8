//! The life of a message: a URL, a session ready to resolve the permalink
//! it holds, and the resolved message. Resolution runs step by step: each
//! step names the remote lookup it needs next, and the answer to that lookup
//! is the event that drives the following step.
use vstd::prelude::*;

use crate::error::ResolveError;
use crate::mention::{mention_keys, rewrite_pass, rewritten, table_view, token_keys, Kind};
use crate::permalink::{Permalink, Timestamp};
use crate::response::bots::Bot;
use crate::response::conversations::{
    body_of, body_of_message, channel_title, channel_title_of, dm_title, dm_title_of, Channel,
    Message,
};
use crate::response::usergroups::{handle_table, handles, Usergroup};
use crate::response::users::{display_name, display_name_of, User};
use crate::text::strings_view;

verus! {

/// A stage in the life of a message.
pub trait State {

}

/// Just the URL.
#[derive(Debug)]
pub struct Uninitialized {
    pub url: url::Url,
}

/// The permalink is parsed; the message can be resolved.
#[derive(Debug, Clone)]
pub struct Initialized {
    pub permalink: Permalink,
}

/// The message with its channel name, author name and rewritten body.
#[derive(Debug, Clone)]
pub struct Resolved {
    pub channel_name: String,
    pub user_name: String,
    pub body: String,
    /// Epoch seconds of the message.
    pub ts: i64,
}

impl State for Uninitialized {

}

impl State for Initialized {

}

impl State for Resolved {

}

/// A message in one of its stages.
#[derive(Debug)]
pub struct SlackMessage<S> {
    pub state: S,
}

/// Where a resolution stands: what it waits for.
#[derive(Clone, Copy, Debug, PartialEq, Eq, Structural)]
pub enum Phase {
    /// The permalink's channel (`conversations.info`).
    ChannelInfo,
    /// The other user of a direct message (`users.info`).
    DmPeer,
    /// The message in the channel history (`conversations.history`).
    History,
    /// The message among thread replies (`conversations.replies`).
    Replies,
    /// The author, a user (`users.info`).
    AuthorUser,
    /// The author, an automated account (`bots.info`).
    AuthorBot,
    /// The body with its emoji shortcodes expanded.
    Emoji,
    /// The channel of the next channel mention (`conversations.info`).
    ChannelMentions,
    /// The user of the next user mention (`users.info`).
    UserMentions,
    /// The usergroup catalog (`usergroups.list`).
    Usergroups,
    /// Nothing: the resolution is over.
    Finished,
}

/// What a resolution asks for next, or how it ended.
#[derive(Debug)]
pub enum Action {
    /// Fetch the channel with this id.
    ConversationsInfo(String),
    /// Fetch the user with this id.
    UsersInfo(String),
    /// Fetch the automated account with this id.
    BotsInfo(String),
    /// Fetch the history of `channel` between `ts` and `ts`, inclusive, at most one message.
    History { channel: String, ts: Timestamp },
    /// Fetch the replies of thread `thread` in `channel` between `ts` and `ts`,
    /// inclusive, at most one message.
    Replies { channel: String, thread: Timestamp, ts: Timestamp },
    /// Expand the emoji shortcodes of this text.
    ExpandEmoji(String),
    /// Fetch the usergroup catalog.
    UsergroupsList,
    /// Done.
    Resolved(Resolved),
    /// Failed.
    Failed(ResolveError),
}

/// The answer to the last action.
#[derive(Debug)]
pub enum Event {
    /// `conversations.info` answered.
    Channel(Option<Channel>),
    /// `users.info` answered.
    User(Option<User>),
    /// `bots.info` answered.
    Bot(Option<Bot>),
    /// `conversations.history` or `conversations.replies` answered.
    Messages(Option<Vec<Message>>),
    /// `usergroups.list` answered.
    Usergroups(Option<Vec<Usergroup>>),
    /// The text with its emoji expanded.
    Expanded(String),
    /// The call failed or the platform reported failure; the raw response.
    Failed(String),
}

/// One resolution of a message, from its permalink to its resolved form.
pub struct Resolution {
    pub channel_id: String,
    pub timestamp: Timestamp,
    pub thread_ts: Option<Timestamp>,
    pub phase: Phase,
    pub channel_name: String,
    pub user_name: String,
    /// The fetched message.
    pub message: Option<Message>,
    pub body: String,
    /// The keys of the current pass's mentions, in order.
    pub keys: Vec<String>,
    /// The key looked up now.
    pub next: usize,
    /// Display text found for keys so far in the current pass.
    pub names: Vec<(String, String)>,
    /// Whether this resolution has asked for the usergroup catalog.
    pub catalog_requested: bool,
    /// How many times this resolution has asked for the usergroup catalog.
    pub catalog_asks: Ghost<nat>,
}

} // verus!

verus! {

/// The body after the last three passes: usergroup mentions resolved in
/// `groups`, then broadcast mentions, then links.
pub open spec fn last_passes(b: Seq<char>, groups: Seq<(Seq<char>, Seq<char>)>) -> Seq<char> {
    rewritten(
        Kind::Link,
        rewritten(Kind::Special, rewritten(Kind::Usergroup, b, groups), Seq::empty()),
        Seq::empty(),
    )
}

/// The table entry that the lookup of channel `key` adds: the channel's
/// normalized name (`Unknown` when it has none), a placeholder when the
/// lookup failed, nothing when the channel does not exist.
pub open spec fn channel_entry(key: Seq<char>, event: Event) -> Seq<(Seq<char>, Seq<char>)> {
    match event {
        Event::Channel(Some(ch)) => match ch.name_normalized {
            Some(n) => seq![(key, n@)],
            None => seq![(key, "Unknown"@)],
        },
        Event::Failed(_) => seq![(key, "private channel"@)],
        _ => Seq::empty(),
    }
}

/// The table entry that the lookup of user `key` adds: the user's display
/// name, or nothing when the lookup failed or found no one.
pub open spec fn user_entry(key: Seq<char>, event: Event) -> Seq<(Seq<char>, Seq<char>)> {
    match event {
        Event::User(Some(u)) => seq![(key, display_name(u))],
        _ => Seq::empty(),
    }
}

pub open spec fn or_empty(o: Option<String>) -> Seq<char> {
    match o {
        Some(s) => s@,
        None => Seq::empty(),
    }
}

impl Resolution {
    pub open spec fn wf(&self) -> bool {
        &&& self.timestamp.wf()
        &&& (self.thread_ts matches Some(t) ==> t.wf())
        &&& ((self.phase == Phase::ChannelMentions || self.phase == Phase::UserMentions)
            ==> self.next < self.keys@.len())
        &&& ((self.phase == Phase::AuthorUser || self.phase == Phase::AuthorBot
            || self.phase == Phase::Emoji) ==> self.message is Some)
        &&& (self.phase == Phase::Usergroups ==> self.catalog_requested)
        &&& (self.phase != Phase::Usergroups && self.phase != Phase::Finished
            ==> !self.catalog_requested)
        &&& self.catalog_asks@ == if self.catalog_requested {
            1nat
        } else {
            0nat
        }
    }

    /// Which events answer what the resolution waits for.
    pub open spec fn accepts(&self, event: Event) -> bool {
        match self.phase {
            Phase::ChannelInfo | Phase::ChannelMentions => event is Channel || event is Failed,
            Phase::DmPeer | Phase::AuthorUser | Phase::UserMentions => event is User
                || event is Failed,
            Phase::History | Phase::Replies => event is Messages || event is Failed,
            Phase::AuthorBot => event is Bot || event is Failed,
            Phase::Emoji => event is Expanded,
            Phase::Usergroups => event is Usergroups || event is Failed,
            Phase::Finished => false,
        }
    }

    /// What a step that returns `a` keeps: the target message and the names
    /// found; the catalog counts as asked for once more exactly when `a` asks
    /// for it.
    pub open spec fn keeps(&self, old: &Resolution, a: Action) -> bool {
        &&& self.channel_id@ == old.channel_id@
        &&& self.timestamp == old.timestamp
        &&& self.thread_ts == old.thread_ts
        &&& self.channel_name@ == old.channel_name@
        &&& self.user_name@ == old.user_name@
        &&& self.catalog_requested == (old.catalog_requested || a is UsergroupsList)
        &&& self.catalog_asks@ == old.catalog_asks@ + if a is UsergroupsList {
            1nat
        } else {
            0nat
        }
    }

    pub open spec fn failed_with(&self, a: Action, e: ResolveError) -> bool {
        &&& self.phase == Phase::Finished
        &&& a matches Action::Failed(x) && x == e
    }

    /// Resolution is over: the body `b` went through the last three passes.
    pub open spec fn finished_with(&self, a: Action, b: Seq<char>, groups: Seq<(Seq<char>, Seq<char>)>) -> bool {
        &&& self.phase == Phase::Finished
        &&& a matches Action::Resolved(res) && res.body@ == last_passes(b, groups)
            && res.channel_name@ == self.channel_name@ && res.user_name@ == self.user_name@
            && res.ts == self.timestamp.seconds as i64
    }

    /// The usergroup pass over `b` has begun: it asks for the catalog, or
    /// finishes at once when `b` mentions no usergroup.
    pub open spec fn usergroup_pass_begun(&self, a: Action, b: Seq<char>) -> bool {
        if token_keys(Kind::Usergroup, b, 0).len() == 0 {
            self.finished_with(a, b, Seq::empty())
        } else {
            &&& self.phase == Phase::Usergroups
            &&& self.body@ == b
            &&& a is UsergroupsList
        }
    }

    /// The user pass over `b` has begun: it asks for its first user, or
    /// moves on when `b` mentions none.
    pub open spec fn user_pass_begun(&self, a: Action, b: Seq<char>) -> bool {
        let keys = token_keys(Kind::User, b, 0);
        if keys.len() == 0 {
            self.usergroup_pass_begun(a, rewritten(Kind::User, b, Seq::empty()))
        } else {
            &&& self.phase == Phase::UserMentions
            &&& self.body@ == b
            &&& strings_view(self.keys@) == keys
            &&& self.next == 0
            &&& self.names@.len() == 0
            &&& a matches Action::UsersInfo(id) && id@ == keys[0]
        }
    }

    /// The channel pass over `b` has begun: it asks for its first channel, or
    /// moves on when `b` mentions none.
    pub open spec fn channel_pass_begun(&self, a: Action, b: Seq<char>) -> bool {
        let keys = token_keys(Kind::Channel, b, 0);
        if keys.len() == 0 {
            self.user_pass_begun(a, rewritten(Kind::Channel, b, Seq::empty()))
        } else {
            &&& self.phase == Phase::ChannelMentions
            &&& self.body@ == b
            &&& strings_view(self.keys@) == keys
            &&& self.next == 0
            &&& self.names@.len() == 0
            &&& a matches Action::ConversationsInfo(id) && id@ == keys[0]
        }
    }

    /// The history lookup of the permalink's message is asked for.
    pub open spec fn history_asked(&self, a: Action) -> bool {
        &&& self.phase == Phase::History
        &&& a matches Action::History { channel, ts } && channel@ == self.channel_id@ && ts
            == self.timestamp
    }

    /// The thread lookup is asked for, anchored at the thread timestamp or
    /// else at the message's own.
    pub open spec fn replies_asked(&self, a: Action) -> bool {
        &&& self.phase == Phase::Replies
        &&& a matches Action::Replies { channel, thread, ts } && channel@ == self.channel_id@ && ts
            == self.timestamp && thread == match self.thread_ts {
            Some(t) => t,
            None => self.timestamp,
        }
    }

    /// The author of `m` is asked for: its user, else its automated account;
    /// resolution fails when it names neither.
    pub open spec fn author_asked(&self, a: Action, m: Message) -> bool {
        match m.user {
            Some(id) => {
                &&& self.phase == Phase::AuthorUser
                &&& self.message == Some(m)
                &&& a matches Action::UsersInfo(x) && x@ == id@
            },
            None => match m.bot_id {
                Some(id) => {
                    &&& self.phase == Phase::AuthorBot
                    &&& self.message == Some(m)
                    &&& a matches Action::BotsInfo(x) && x@ == id@
                },
                None => self.failed_with(a, ResolveError::AuthorNotFound),
            },
        }
    }

    /// The body of the fetched message is handed out for emoji expansion.
    pub open spec fn body_asked(&self, a: Action) -> bool {
        &&& self.phase == Phase::Emoji
        &&& a matches Action::ExpandEmoji(t) && t@ == body_of(self.message->0)
    }
}

} // verus!

verus! {

impl Resolution {
    fn fail(&mut self, e: ResolveError) -> (a: Action)
        requires
            old(self).wf(),
        ensures
            final(self).wf(),
            final(self).keeps(old(self), a),
            final(self).failed_with(a, e),
            a is Failed,
    {
        self.phase = Phase::Finished;
        Action::Failed(e)
    }

    fn finish(&mut self, groups: &Vec<(String, String)>) -> (a: Action)
        requires
            old(self).wf(),
        ensures
            final(self).wf(),
            final(self).keeps(old(self), a),
            final(self).finished_with(a, old(self).body@, table_view(groups@)),
            a is Resolved,
    {
        let empty: Vec<(String, String)> = Vec::new();
        assert(table_view(empty@) =~= Seq::empty());
        let b3 = rewrite_pass(Kind::Usergroup, self.body.as_str(), groups);
        let b4 = rewrite_pass(Kind::Special, b3.as_str(), &empty);
        let b5 = rewrite_pass(Kind::Link, b4.as_str(), &empty);
        self.phase = Phase::Finished;
        Action::Resolved(
            Resolved {
                channel_name: self.channel_name.clone(),
                user_name: self.user_name.clone(),
                body: b5,
                ts: self.timestamp.seconds as i64,
            },
        )
    }

    fn begin_usergroup_pass(&mut self) -> (a: Action)
        requires
            old(self).wf(),
            !old(self).catalog_requested,
        ensures
            final(self).wf(),
            final(self).keeps(old(self), a),
            final(self).usergroup_pass_begun(a, old(self).body@),
            a is UsergroupsList ==> final(self).catalog_requested,
            a is UsersInfo || a is ConversationsInfo || a is UsergroupsList || a is Resolved
                || a is Failed,
    {
        let keys = mention_keys(Kind::Usergroup, self.body.as_str());
        if keys.len() == 0 {
            let empty: Vec<(String, String)> = Vec::new();
            assert(table_view(empty@) =~= Seq::empty());
            self.finish(&empty)
        } else {
            self.catalog_requested = true;
            self.catalog_asks = Ghost(self.catalog_asks@ + 1);
            self.phase = Phase::Usergroups;
            Action::UsergroupsList
        }
    }

    fn begin_user_pass(&mut self) -> (a: Action)
        requires
            old(self).wf(),
            !old(self).catalog_requested,
        ensures
            final(self).wf(),
            final(self).keeps(old(self), a),
            final(self).user_pass_begun(a, old(self).body@),
            a is UsergroupsList ==> final(self).catalog_requested,
    {
        let keys = mention_keys(Kind::User, self.body.as_str());
        if keys.len() == 0 {
            let empty: Vec<(String, String)> = Vec::new();
            assert(table_view(empty@) =~= Seq::empty());
            self.body = rewrite_pass(Kind::User, self.body.as_str(), &empty);
            self.begin_usergroup_pass()
        } else {
            let first = keys[0].clone();
            self.keys = keys;
            self.next = 0;
            self.names = Vec::new();
            self.phase = Phase::UserMentions;
            Action::UsersInfo(first)
        }
    }

    fn begin_channel_pass(&mut self) -> (a: Action)
        requires
            old(self).wf(),
            !old(self).catalog_requested,
        ensures
            final(self).wf(),
            final(self).keeps(old(self), a),
            final(self).channel_pass_begun(a, old(self).body@),
            a is UsergroupsList ==> final(self).catalog_requested,
    {
        let keys = mention_keys(Kind::Channel, self.body.as_str());
        if keys.len() == 0 {
            let empty: Vec<(String, String)> = Vec::new();
            assert(table_view(empty@) =~= Seq::empty());
            self.body = rewrite_pass(Kind::Channel, self.body.as_str(), &empty);
            self.begin_user_pass()
        } else {
            let first = keys[0].clone();
            self.keys = keys;
            self.next = 0;
            self.names = Vec::new();
            self.phase = Phase::ChannelMentions;
            Action::ConversationsInfo(first)
        }
    }

    fn ask_history(&mut self) -> (a: Action)
        requires
            old(self).wf(),
            !old(self).catalog_requested,
        ensures
            final(self).wf(),
            final(self).keeps(old(self), a),
            final(self).history_asked(a),
    {
        self.phase = Phase::History;
        Action::History { channel: self.channel_id.clone(), ts: self.timestamp }
    }

    fn ask_replies(&mut self) -> (a: Action)
        requires
            old(self).wf(),
            !old(self).catalog_requested,
        ensures
            final(self).wf(),
            final(self).keeps(old(self), a),
            final(self).replies_asked(a),
    {
        self.phase = Phase::Replies;
        let thread = match self.thread_ts {
            Some(t) => t,
            None => self.timestamp,
        };
        Action::Replies { channel: self.channel_id.clone(), thread, ts: self.timestamp }
    }

    fn ask_author(&mut self, m: Message) -> (a: Action)
        requires
            old(self).wf(),
            !old(self).catalog_requested,
        ensures
            final(self).wf(),
            final(self).keeps(old(self), a),
            final(self).author_asked(a, m),
    {
        match &m.user {
            Some(id) => {
                let id = id.clone();
                self.message = Some(m);
                self.phase = Phase::AuthorUser;
                Action::UsersInfo(id)
            },
            None => match &m.bot_id {
                Some(id) => {
                    let id = id.clone();
                    self.message = Some(m);
                    self.phase = Phase::AuthorBot;
                    Action::BotsInfo(id)
                },
                None => self.fail(ResolveError::AuthorNotFound),
            },
        }
    }

    fn ask_body(&mut self) -> (a: Action)
        requires
            old(self).wf(),
            !old(self).catalog_requested,
            old(self).message is Some,
        ensures
            final(self).wf(),
            final(self).keeps(old(self), a),
            final(self).message == old(self).message,
            final(self).body_asked(a),
    {
        let body = match &self.message {
            Some(m) => body_of_message(m),
            None => String::new(),
        };
        self.phase = Phase::Emoji;
        Action::ExpandEmoji(body)
    }
}

} // verus!

verus! {

proof fn lemma_table_push(t: Seq<(String, String)>, p: (String, String))
    ensures
        table_view(t.push(p)) =~= table_view(t) + seq![(p.0@, p.1@)],
{
    assert forall|k: int| 0 <= k < t.len() implies table_view(t.push(p))[k] == table_view(t)[k] by {
        assert(t.push(p)[k] == t[k]);
    }
    assert(t.push(p)[t.len() as int] == p);
}

impl Resolution {
    fn channel_mention_step(&mut self, event: Event) -> (a: Action)
        requires
            old(self).wf(),
            old(self).phase == Phase::ChannelMentions,
            event is Channel || event is Failed,
        ensures
            final(self).wf(),
            final(self).keeps(old(self), a),
            ({
                let t = table_view(old(self).names@) + channel_entry(
                    old(self).keys@[old(self).next as int]@,
                    event,
                );
                if old(self).next + 1 < old(self).keys@.len() {
                    &&& final(self).phase == Phase::ChannelMentions
                    &&& table_view(final(self).names@) == t
                    &&& final(self).keys@ == old(self).keys@
                    &&& final(self).next == old(self).next + 1
                    &&& final(self).body@ == old(self).body@
                    &&& a matches Action::ConversationsInfo(id) && id@ == old(self).keys@[old(self).next + 1]@
                } else {
                    final(self).user_pass_begun(a, rewritten(Kind::Channel, old(self).body@, t))
                }
            }),
            a is UsergroupsList ==> final(self).catalog_requested,
    {
        let key = self.keys[self.next].clone();
        let ghost before = self.names@;
        match event {
            Event::Channel(Some(ch)) => {
                let name = match ch.name_normalized {
                    Some(n) => n,
                    None => "Unknown".to_owned(),
                };
                self.names.push((key, name));
                proof {
                    lemma_table_push(before, (key, name));
                }
            },
            Event::Failed(_) => {
                let name = "private channel".to_owned();
                self.names.push((key, name));
                proof {
                    lemma_table_push(before, (key, name));
                }
            },
            _ => {
                assert(table_view(before) + Seq::empty() =~= table_view(before));
            },
        }
        let len = self.keys.len();
        let n = self.next + 1;
        if n < len {
            self.next = n;
            Action::ConversationsInfo(self.keys[n].clone())
        } else {
            self.body = rewrite_pass(Kind::Channel, self.body.as_str(), &self.names);
            self.begin_user_pass()
        }
    }

    fn user_mention_step(&mut self, event: Event) -> (a: Action)
        requires
            old(self).wf(),
            old(self).phase == Phase::UserMentions,
            event is User || event is Failed,
        ensures
            final(self).wf(),
            final(self).keeps(old(self), a),
            ({
                let t = table_view(old(self).names@) + user_entry(
                    old(self).keys@[old(self).next as int]@,
                    event,
                );
                if old(self).next + 1 < old(self).keys@.len() {
                    &&& final(self).phase == Phase::UserMentions
                    &&& table_view(final(self).names@) == t
                    &&& final(self).keys@ == old(self).keys@
                    &&& final(self).next == old(self).next + 1
                    &&& final(self).body@ == old(self).body@
                    &&& a matches Action::UsersInfo(id) && id@ == old(self).keys@[old(self).next + 1]@
                } else {
                    final(self).usergroup_pass_begun(a, rewritten(Kind::User, old(self).body@, t))
                }
            }),
            a is UsergroupsList ==> final(self).catalog_requested,
    {
        let key = self.keys[self.next].clone();
        let ghost before = self.names@;
        match event {
            Event::User(Some(u)) => {
                let name = display_name_of(u);
                self.names.push((key, name));
                proof {
                    lemma_table_push(before, (key, name));
                }
            },
            _ => {
                assert(table_view(before) + Seq::empty() =~= table_view(before));
            },
        }
        let len = self.keys.len();
        let n = self.next + 1;
        if n < len {
            self.next = n;
            Action::UsersInfo(self.keys[n].clone())
        } else {
            self.body = rewrite_pass(Kind::User, self.body.as_str(), &self.names);
            self.begin_usergroup_pass()
        }
    }
}

} // verus!

verus! {

impl Resolution {
    /// Begins resolving the message that `permalink` points to: the first
    /// step asks for its channel.
    pub fn start(permalink: &Permalink) -> (r: (Resolution, Action))
        requires
            permalink.wf(),
        ensures
            r.0.wf(),
            r.0.phase == Phase::ChannelInfo,
            !r.0.catalog_requested,
            r.0.catalog_asks@ == 0,
            r.0.channel_id@ == permalink.channel_id@,
            r.0.timestamp == permalink.timestamp,
            r.0.thread_ts == permalink.thread_ts,
            r.1 matches Action::ConversationsInfo(id) && id@ == permalink.channel_id@,
    {
        let res = Resolution {
            channel_id: permalink.channel_id.clone(),
            timestamp: permalink.timestamp,
            thread_ts: permalink.thread_ts,
            phase: Phase::ChannelInfo,
            channel_name: String::new(),
            user_name: String::new(),
            message: None,
            body: String::new(),
            keys: Vec::new(),
            next: 0,
            names: Vec::new(),
            catalog_requested: false,
            catalog_asks: Ghost(0),
        };
        let a = Action::ConversationsInfo(permalink.channel_id.clone());
        (res, a)
    }

    /// Exec form of `accepts`.
    pub fn accepts_event(&self, event: &Event) -> (r: bool)
        ensures
            r == self.accepts(*event),
    {
        let failed = match event {
            Event::Failed(_) => true,
            _ => false,
        };
        match self.phase {
            Phase::ChannelInfo | Phase::ChannelMentions => match event {
                Event::Channel(_) => true,
                _ => failed,
            },
            Phase::DmPeer | Phase::AuthorUser | Phase::UserMentions => match event {
                Event::User(_) => true,
                _ => failed,
            },
            Phase::History | Phase::Replies => match event {
                Event::Messages(_) => true,
                _ => failed,
            },
            Phase::AuthorBot => match event {
                Event::Bot(_) => true,
                _ => failed,
            },
            Phase::Emoji => match event {
                Event::Expanded(_) => true,
                _ => false,
            },
            Phase::Usergroups => match event {
                Event::Usergroups(_) => true,
                _ => failed,
            },
            Phase::Finished => false,
        }
    }

    /// Takes the answer to the last action and returns the next one.
    ///
    /// A failed remote call ends the resolution with `RemoteApiError`, except
    /// for a channel or user mention, whose lookup failure only leaves that
    /// mention unresolved (a channel mention then shows a placeholder).
    pub fn advance(&mut self, event: Event) -> (a: Action)
        requires
            old(self).wf(),
            old(self).accepts(event),
        ensures
            final(self).wf(),
            final(self).channel_id@ == old(self).channel_id@,
            final(self).timestamp == old(self).timestamp,
            final(self).thread_ts == old(self).thread_ts,
            old(self).phase != Phase::ChannelInfo && old(self).phase != Phase::DmPeer
                ==> final(self).channel_name@ == old(self).channel_name@,
            old(self).phase != Phase::AuthorUser && old(self).phase != Phase::AuthorBot
                ==> final(self).user_name@ == old(self).user_name@,
            // the usergroup catalog is asked for at most once in a whole run:
            // the count starts at zero, rises exactly when this step asks for
            // the catalog, and never exceeds one
            a is UsergroupsList ==> !old(self).catalog_requested && final(self).catalog_requested,
            old(self).catalog_requested ==> final(self).catalog_requested,
            final(self).catalog_asks@ == old(self).catalog_asks@ + if a is UsergroupsList {
                1nat
            } else {
                0nat
            },
            final(self).catalog_asks@ <= 1,
            match old(self).phase {
                Phase::ChannelInfo => match event {
                    Event::Channel(Some(ch)) => match channel_title(ch) {
                        Some(t) => final(self).channel_name@ == t && final(self).history_asked(a),
                        None => final(self).phase == Phase::DmPeer && (a matches Action::UsersInfo(
                            id,
                        ) && id@ == or_empty(ch.user)),
                    },
                    Event::Channel(None) => final(self).failed_with(
                        a,
                        ResolveError::ChannelNotFound,
                    ),
                    Event::Failed(raw) => final(self).failed_with(
                        a,
                        ResolveError::RemoteApiError(raw),
                    ),
                    _ => true,
                },
                Phase::DmPeer => match event {
                    Event::User(peer) => final(self).channel_name@ == dm_title(peer) && final(self).history_asked(a),
                    Event::Failed(raw) => final(self).failed_with(
                        a,
                        ResolveError::RemoteApiError(raw),
                    ),
                    _ => true,
                },
                Phase::History => match event {
                    Event::Messages(ms) => if ms matches Some(v) && v@.len() > 0 {
                        final(self).author_asked(a, ms->0@.last())
                    } else {
                        final(self).replies_asked(a)
                    },
                    Event::Failed(raw) => final(self).failed_with(
                        a,
                        ResolveError::RemoteApiError(raw),
                    ),
                    _ => true,
                },
                Phase::Replies => match event {
                    Event::Messages(ms) => if ms matches Some(v) && v@.len() > 0 {
                        final(self).author_asked(a, ms->0@.last())
                    } else {
                        final(self).failed_with(a, ResolveError::MessageNotFound)
                    },
                    Event::Failed(raw) => final(self).failed_with(
                        a,
                        ResolveError::RemoteApiError(raw),
                    ),
                    _ => true,
                },
                Phase::AuthorUser => match event {
                    Event::User(Some(u)) => final(self).user_name@ == display_name(u) && final(self).message == old(self).message && final(self).body_asked(a),
                    Event::User(None) => final(self).failed_with(a, ResolveError::AuthorNotFound),
                    Event::Failed(raw) => final(self).failed_with(
                        a,
                        ResolveError::RemoteApiError(raw),
                    ),
                    _ => true,
                },
                Phase::AuthorBot => match event {
                    Event::Bot(Some(b)) => final(self).user_name@ == b.name@ && final(self).message
                        == old(self).message && final(self).body_asked(a),
                    Event::Bot(None) => final(self).failed_with(a, ResolveError::AuthorNotFound),
                    Event::Failed(raw) => final(self).failed_with(
                        a,
                        ResolveError::RemoteApiError(raw),
                    ),
                    _ => true,
                },
                Phase::Emoji => match event {
                    Event::Expanded(t) => final(self).channel_pass_begun(a, t@),
                    _ => true,
                },
                Phase::ChannelMentions => {
                    let t = table_view(old(self).names@) + channel_entry(
                        old(self).keys@[old(self).next as int]@,
                        event,
                    );
                    if old(self).next + 1 < old(self).keys@.len() {
                        &&& final(self).phase == Phase::ChannelMentions
                        &&& table_view(final(self).names@) == t
                        &&& final(self).keys@ == old(self).keys@
                        &&& final(self).next == old(self).next + 1
                        &&& final(self).body@ == old(self).body@
                        &&& a matches Action::ConversationsInfo(id) && id@ == old(self).keys@[old(self).next + 1]@
                    } else {
                        final(self).user_pass_begun(
                            a,
                            rewritten(Kind::Channel, old(self).body@, t),
                        )
                    }
                },
                Phase::UserMentions => {
                    let t = table_view(old(self).names@) + user_entry(
                        old(self).keys@[old(self).next as int]@,
                        event,
                    );
                    if old(self).next + 1 < old(self).keys@.len() {
                        &&& final(self).phase == Phase::UserMentions
                        &&& table_view(final(self).names@) == t
                        &&& final(self).keys@ == old(self).keys@
                        &&& final(self).next == old(self).next + 1
                        &&& final(self).body@ == old(self).body@
                        &&& a matches Action::UsersInfo(id) && id@ == old(self).keys@[old(self).next + 1]@
                    } else {
                        final(self).usergroup_pass_begun(
                            a,
                            rewritten(Kind::User, old(self).body@, t),
                        )
                    }
                },
                Phase::Usergroups => match event {
                    Event::Usergroups(Some(gs)) => final(self).finished_with(
                        a,
                        old(self).body@,
                        handle_table(gs@),
                    ),
                    Event::Usergroups(None) => final(self).failed_with(
                        a,
                        ResolveError::UsergroupFetchFailed,
                    ),
                    Event::Failed(raw) => final(self).failed_with(
                        a,
                        ResolveError::RemoteApiError(raw),
                    ),
                    _ => true,
                },
                Phase::Finished => true,
            },
    {
        match self.phase {
            Phase::ChannelInfo => match event {
                Event::Channel(Some(ch)) => match channel_title_of(&ch) {
                    Some(t) => {
                        self.channel_name = t;
                        self.ask_history()
                    },
                    None => {
                        let peer = match ch.user {
                            Some(u) => u,
                            None => String::new(),
                        };
                        self.phase = Phase::DmPeer;
                        Action::UsersInfo(peer)
                    },
                },
                Event::Channel(None) => self.fail(ResolveError::ChannelNotFound),
                Event::Failed(raw) => self.fail(ResolveError::RemoteApiError(raw)),
                _ => self.fail(ResolveError::ChannelNotFound),
            },
            Phase::DmPeer => match event {
                Event::User(peer) => {
                    self.channel_name = dm_title_of(peer);
                    self.ask_history()
                },
                Event::Failed(raw) => self.fail(ResolveError::RemoteApiError(raw)),
                _ => self.fail(ResolveError::ChannelNotFound),
            },
            Phase::History => match event {
                Event::Messages(Some(mut ms)) if ms.len() > 0 => {
                    let m = ms.pop();
                    match m {
                        Some(m) => self.ask_author(m),
                        None => self.ask_replies(),
                    }
                },
                Event::Messages(_) => self.ask_replies(),
                Event::Failed(raw) => self.fail(ResolveError::RemoteApiError(raw)),
                _ => self.fail(ResolveError::MessageNotFound),
            },
            Phase::Replies => match event {
                Event::Messages(Some(mut ms)) if ms.len() > 0 => {
                    let m = ms.pop();
                    match m {
                        Some(m) => self.ask_author(m),
                        None => self.fail(ResolveError::MessageNotFound),
                    }
                },
                Event::Messages(_) => self.fail(ResolveError::MessageNotFound),
                Event::Failed(raw) => self.fail(ResolveError::RemoteApiError(raw)),
                _ => self.fail(ResolveError::MessageNotFound),
            },
            Phase::AuthorUser => match event {
                Event::User(Some(u)) => {
                    self.user_name = display_name_of(u);
                    self.ask_body()
                },
                Event::User(None) => self.fail(ResolveError::AuthorNotFound),
                Event::Failed(raw) => self.fail(ResolveError::RemoteApiError(raw)),
                _ => self.fail(ResolveError::AuthorNotFound),
            },
            Phase::AuthorBot => match event {
                Event::Bot(Some(b)) => {
                    self.user_name = b.name;
                    self.ask_body()
                },
                Event::Bot(None) => self.fail(ResolveError::AuthorNotFound),
                Event::Failed(raw) => self.fail(ResolveError::RemoteApiError(raw)),
                _ => self.fail(ResolveError::AuthorNotFound),
            },
            Phase::Emoji => match event {
                Event::Expanded(t) => {
                    self.body = t;
                    self.begin_channel_pass()
                },
                _ => self.fail(ResolveError::MessageNotFound),
            },
            Phase::ChannelMentions => self.channel_mention_step(event),
            Phase::UserMentions => self.user_mention_step(event),
            Phase::Usergroups => match event {
                Event::Usergroups(Some(gs)) => {
                    let table = handles(&gs);
                    self.finish(&table)
                },
                Event::Usergroups(None) => self.fail(ResolveError::UsergroupFetchFailed),
                Event::Failed(raw) => self.fail(ResolveError::RemoteApiError(raw)),
                _ => self.fail(ResolveError::UsergroupFetchFailed),
            },
            Phase::Finished => self.fail(ResolveError::MessageNotFound),
        }
    }
}

} // verus!

verus! {

impl Initialized {
    pub open spec fn wf(&self) -> bool {
        self.permalink.wf()
    }
}

impl SlackMessage<Uninitialized> {
    /// A message known by its URL only.
    pub fn new(url: url::Url) -> (r: SlackMessage<Uninitialized>)
        ensures
            r.state.url == url,
    {
        SlackMessage { state: Uninitialized { url } }
    }

    /// Reads the permalink in `url`, giving a message ready to resolve.
    pub fn try_new(url: &url::Url) -> (r: Result<SlackMessage<Initialized>, ResolveError>)
        ensures
            r matches Ok(m) ==> m.state.wf(),
            crate::permalink::read_from(
                match r {
                    Ok(m) => Ok(m.state.permalink),
                    Err(e) => Err(e),
                },
                *url,
            ),
    {
        match Permalink::parse(url) {
            Ok(p) => Ok(SlackMessage::from_permalink(p)),
            Err(e) => Err(e),
        }
    }

    /// Moves on to the ready stage with the permalink of the URL.
    pub fn parse(self) -> (r: Result<SlackMessage<Initialized>, ResolveError>)
        ensures
            r matches Ok(m) ==> m.state.wf(),
            crate::permalink::read_from(
                match r {
                    Ok(m) => Ok(m.state.permalink),
                    Err(e) => Err(e),
                },
                self.state.url,
            ),
    {
        SlackMessage::try_new(&self.state.url)
    }
}

impl SlackMessage<Initialized> {
    /// A message ready to resolve, from a parsed permalink.
    pub fn from_permalink(permalink: Permalink) -> (r: SlackMessage<Initialized>)
        requires
            permalink.wf(),
        ensures
            r.state.permalink == permalink,
            r.state.wf(),
    {
        SlackMessage { state: Initialized { permalink } }
    }

    /// Begins a resolution of its own, with its own usergroup catalog; the
    /// action is the first lookup to make.
    pub fn resolve(&self) -> (r: (Resolution, Action))
        requires
            self.state.wf(),
        ensures
            r.0.wf(),
            r.0.phase == Phase::ChannelInfo,
            !r.0.catalog_requested,
            r.0.catalog_asks@ == 0,
            r.0.channel_id@ == self.state.permalink.channel_id@,
            r.0.timestamp == self.state.permalink.timestamp,
            r.0.thread_ts == self.state.permalink.thread_ts,
            r.1 matches Action::ConversationsInfo(id) && id@ == self.state.permalink.channel_id@,
    {
        Resolution::start(&self.state.permalink)
    }

    /// The name under which `user` is shown.
    pub fn get_user_name(&self, user: User) -> (r: String)
        ensures
            r@ == display_name(user),
    {
        display_name_of(user)
    }

    /// Rewrites channel mentions whose channel `names` gives a display text for.
    pub fn replace_channel_ids(&self, body: &str, names: &Vec<(String, String)>) -> (r: Result<
        String,
        ResolveError,
    >)
        ensures
            r matches Ok(s) && s@ == rewritten(Kind::Channel, body@, table_view(names@)),
    {
        Ok(rewrite_pass(Kind::Channel, body, names))
    }

    /// Rewrites user mentions whose user `names` gives a display name for;
    /// the others stay as they are.
    pub fn replace_user_ids(&self, body: &str, names: &Vec<(String, String)>) -> (r: Result<
        String,
        ResolveError,
    >)
        ensures
            r matches Ok(s) && s@ == rewritten(Kind::User, body@, table_view(names@)),
    {
        Ok(rewrite_pass(Kind::User, body, names))
    }

    /// Rewrites usergroup mentions to the handle that the catalog `groups`
    /// gives; mentions of groups not in it stay as they are.
    pub fn replace_usergroups_ids(&self, body: &str, groups: &Vec<Usergroup>) -> (r: Result<
        String,
        ResolveError,
    >)
        ensures
            r matches Ok(s) && s@ == rewritten(Kind::Usergroup, body@, handle_table(groups@)),
    {
        let table = handles(groups);
        Ok(rewrite_pass(Kind::Usergroup, body, &table))
    }

    /// Rewrites `<!here>`, `<!channel>` and `<!everyone>` to `**@here**` and so on.
    pub fn replace_special_mentions(&self, body: &str) -> (r: Result<String, ResolveError>)
        ensures
            r matches Ok(s) && s@ == rewritten(Kind::Special, body@, Seq::empty()),
    {
        let empty: Vec<(String, String)> = Vec::new();
        assert(table_view(empty@) =~= Seq::empty());
        Ok(rewrite_pass(Kind::Special, body, &empty))
    }

    /// Rewrites links `<url|label>` to `[label](url)`.
    pub fn replace_links(&self, body: &str) -> (r: Result<String, ResolveError>)
        ensures
            r matches Ok(s) && s@ == rewritten(Kind::Link, body@, Seq::empty()),
    {
        let empty: Vec<(String, String)> = Vec::new();
        assert(table_view(empty@) =~= Seq::empty());
        Ok(rewrite_pass(Kind::Link, body, &empty))
    }
}

} // verus!
