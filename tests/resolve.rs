use slack_client::error::ResolveError;
use slack_client::message::{Action, Event, Initialized, Resolution, SlackMessage};
use slack_client::permalink::Permalink;
use slack_client::response::bots::Bot;
use slack_client::response::conversations::{Channel, Message, Purpose};
use slack_client::response::usergroups::Usergroup;
use slack_client::response::users::{Profile, User};

fn channel(name: Option<&str>) -> Channel {
    Channel {
        id: "C0".to_string(),
        name: name.map(|n| n.to_string()),
        is_channel: Some(true),
        is_private: None,
        is_shared: None,
        is_ext_shared: None,
        is_org_shared: None,
        is_archived: None,
        previous_names: None,
        num_members: None,
        created: 0,
        updated: 0,
        creator: None,
        is_im: None,
        is_mpim: None,
        name_normalized: name.map(|n| n.to_string()),
        purpose: None,
        user: None,
    }
}

fn user(name: &str, display: &str) -> User {
    User {
        id: "U0".to_string(),
        team_id: "T0".to_string(),
        name: name.to_string(),
        real_name: None,
        profile: Profile {
            display_name: display.to_string(),
            display_name_normalized: display.to_string(),
            real_name: String::new(),
            real_name_normalized: String::new(),
            email: None,
            title: String::new(),
            image_24: None,
            image_32: None,
            image_48: None,
            image_72: None,
            image_192: None,
            image_512: None,
            image_1024: None,
            image_original: None,
        },
        is_bot: false,
        deleted: false,
        is_app_user: false,
        tz: None,
    }
}

fn message(user: Option<&str>, bot: Option<&str>, text: &str) -> Message {
    Message {
        user: user.map(|u| u.to_string()),
        bot_id: bot.map(|b| b.to_string()),
        text: Some(text.to_string()),
        blocks: None,
    }
}

fn group(id: &str, handle: &str) -> Usergroup {
    Usergroup {
        id: id.to_string(),
        team_id: "T0".to_string(),
        name: handle.to_string(),
        description: None,
        handle: handle.to_string(),
        user_count: 0,
    }
}

fn ready(thread: Option<&str>) -> SlackMessage<Initialized> {
    let query = match thread {
        Some(t) => vec![("thread_ts".to_string(), t.to_string())],
        None => vec![],
    };
    let p = Permalink::from_parts(
        Some("x.slack.com".to_string()),
        Some(vec!["archives".to_string(), "C999".to_string(), "p1700000000000001".to_string()]),
        query,
    )
    .unwrap();
    SlackMessage::from_permalink(p)
}

/// Drives a resolution, answering each lookup with `answer`; returns the
/// final action and every action seen.
fn drive(m: &SlackMessage<Initialized>, mut answer: impl FnMut(&Action) -> Event) -> (Action, Vec<String>) {
    let (mut r, mut a): (Resolution, Action) = m.resolve();
    let mut seen = vec![];
    loop {
        seen.push(format!("{:?}", a));
        match a {
            Action::Resolved(_) | Action::Failed(_) => return (a, seen),
            _ => {}
        }
        let e = answer(&a);
        assert!(r.accepts_event(&e));
        a = r.advance(e);
    }
}

fn standard(body: &'static str) -> impl FnMut(&Action) -> Event {
    move |a| match a {
        Action::ConversationsInfo(id) if id == "C999" => Event::Channel(Some(channel(Some("random")))),
        Action::ConversationsInfo(id) if id == "C123" => {
            Event::Channel(Some(channel(Some("general-team"))))
        }
        Action::ConversationsInfo(_) => Event::Failed("{\"ok\":false}".to_string()),
        Action::History { .. } => Event::Messages(Some(vec![message(Some("U0"), None, body)])),
        Action::UsersInfo(id) if id == "U0" => Event::User(Some(user("bob", "Bob"))),
        Action::UsersInfo(id) if id == "U1" => Event::User(Some(user("alice", "Alice"))),
        Action::UsersInfo(_) => Event::User(None),
        Action::ExpandEmoji(t) => Event::Expanded(t.clone()),
        Action::UsergroupsList => {
            Event::Usergroups(Some(vec![group("S1", "devs"), group("S2", "ops")]))
        }
        _ => Event::Failed("unexpected".to_string()),
    }
}

#[test]
fn end_to_end_body() {
    let m = ready(None);
    let (a, _) = drive(&m, standard("<#C123|general> hi <@U1> <!here> see <https://x.com|site>"));
    match a {
        Action::Resolved(res) => {
            assert_eq!(res.body, "**#general-team** hi **@Alice** **@here** see [site](https://x.com)");
            assert_eq!(res.channel_name, "random");
            assert_eq!(res.user_name, "Bob");
            assert_eq!(res.ts, 1700000000);
        }
        other => panic!("{:?}", other),
    }
}

#[test]
fn inaccessible_channel_gets_placeholder() {
    let m = ready(None);
    let (a, _) = drive(&m, standard("see <#C777> now"));
    match a {
        Action::Resolved(res) => assert_eq!(res.body, "see **#private channel** now"),
        other => panic!("{:?}", other),
    }
}

#[test]
fn unknown_user_mention_stays() {
    let m = ready(None);
    let (a, _) = drive(&m, standard("hi <@U9> and <@U1>"));
    match a {
        Action::Resolved(res) => assert_eq!(res.body, "hi <@U9> and **@Alice**"),
        other => panic!("{:?}", other),
    }
}

#[test]
fn usergroup_catalog_fetched_once() {
    let m = ready(None);
    let (a, seen) = drive(&m, standard("<!subteam^S1> and <!subteam^S2> and <!subteam^S3>"));
    let asks = seen.iter().filter(|s| s.as_str() == "UsergroupsList").count();
    assert_eq!(asks, 1);
    match a {
        Action::Resolved(res) => assert_eq!(res.body, "**@devs** and **@ops** and <!subteam^S3>"),
        other => panic!("{:?}", other),
    }
}

#[test]
fn no_usergroup_mention_no_catalog() {
    let m = ready(None);
    let (_, seen) = drive(&m, standard("plain text"));
    assert!(seen.iter().all(|s| s.as_str() != "UsergroupsList"));
}

#[test]
fn usergroup_catalog_failure() {
    let m = ready(None);
    let mut base = standard("<!subteam^S1>");
    let (a, _) = drive(&m, |a| match a {
        Action::UsergroupsList => Event::Usergroups(None),
        _ => base(a),
    });
    match a {
        Action::Failed(e) => assert_eq!(e, ResolveError::UsergroupFetchFailed),
        other => panic!("{:?}", other),
    }
}

#[test]
fn falls_back_to_thread_replies() {
    let m = ready(Some("1699999999.0001"));
    let mut base = standard("in thread");
    let mut anchor = None;
    let (a, _) = drive(&m, |a| match a {
        Action::History { .. } => Event::Messages(Some(vec![])),
        Action::Replies { thread, ts, .. } => {
            anchor = Some((thread.seconds, thread.micros, ts.seconds, ts.micros));
            Event::Messages(Some(vec![message(Some("U0"), None, "in thread")]))
        }
        _ => base(a),
    });
    assert_eq!(anchor, Some((1699999999, 100, 1700000000, 1)));
    match a {
        Action::Resolved(res) => assert_eq!(res.body, "in thread"),
        other => panic!("{:?}", other),
    }
}

#[test]
fn replies_anchor_defaults_to_timestamp() {
    let m = ready(None);
    let mut base = standard("x");
    let mut anchor = None;
    let _ = drive(&m, |a| match a {
        Action::History { .. } => Event::Messages(None),
        Action::Replies { thread, .. } => {
            anchor = Some((thread.seconds, thread.micros));
            Event::Messages(Some(vec![message(Some("U0"), None, "x")]))
        }
        _ => base(a),
    });
    assert_eq!(anchor, Some((1700000000, 1)));
}

#[test]
fn message_not_found_when_both_empty() {
    let m = ready(None);
    let mut base = standard("x");
    let (a, _) = drive(&m, |a| match a {
        Action::History { .. } | Action::Replies { .. } => Event::Messages(Some(vec![])),
        _ => base(a),
    });
    match a {
        Action::Failed(e) => assert_eq!(e, ResolveError::MessageNotFound),
        other => panic!("{:?}", other),
    }
}

#[test]
fn no_author_fails() {
    let m = ready(None);
    let mut base = standard("x");
    let (a, _) = drive(&m, |a| match a {
        Action::History { .. } => Event::Messages(Some(vec![message(None, None, "x")])),
        _ => base(a),
    });
    match a {
        Action::Failed(e) => assert_eq!(e, ResolveError::AuthorNotFound),
        other => panic!("{:?}", other),
    }
}

#[test]
fn unknown_author_user_fails() {
    let m = ready(None);
    let mut base = standard("x");
    let (a, _) = drive(&m, |a| match a {
        Action::History { .. } => Event::Messages(Some(vec![message(Some("U5"), Some("B1"), "x")])),
        _ => base(a),
    });
    match a {
        Action::Failed(e) => assert_eq!(e, ResolveError::AuthorNotFound),
        other => panic!("{:?}", other),
    }
}

#[test]
fn bot_author_by_name() {
    let m = ready(None);
    let mut base = standard("beep");
    let (a, _) = drive(&m, |a| match a {
        Action::History { .. } => Event::Messages(Some(vec![message(None, Some("B1"), "beep")])),
        Action::BotsInfo(id) if id == "B1" => Event::Bot(Some(Bot { name: "deploy-bot".to_string() })),
        _ => base(a),
    });
    match a {
        Action::Resolved(res) => assert_eq!(res.user_name, "deploy-bot"),
        other => panic!("{:?}", other),
    }
}

#[test]
fn channel_not_found() {
    let m = ready(None);
    let (a, _) = drive(&m, |_| Event::Channel(None));
    match a {
        Action::Failed(e) => assert_eq!(e, ResolveError::ChannelNotFound),
        other => panic!("{:?}", other),
    }
}

#[test]
fn remote_failure_is_fatal() {
    let m = ready(None);
    let (a, _) = drive(&m, |_| Event::Failed("{\"ok\":false,\"error\":\"invalid_auth\"}".to_string()));
    match a {
        Action::Failed(e) => assert_eq!(
            e,
            ResolveError::RemoteApiError("{\"ok\":false,\"error\":\"invalid_auth\"}".to_string())
        ),
        other => panic!("{:?}", other),
    }
}

#[test]
fn direct_message_channel_name() {
    let m = ready(None);
    let mut base = standard("x");
    let (a, _) = drive(&m, |a| match a {
        Action::ConversationsInfo(id) if id == "C999" => {
            let mut ch = channel(None);
            ch.is_im = Some(true);
            ch.user = Some("U7".to_string());
            Event::Channel(Some(ch))
        }
        Action::UsersInfo(id) if id == "U7" => Event::User(Some(user("carol", "Carol"))),
        _ => base(a),
    });
    match a {
        Action::Resolved(res) => assert_eq!(res.channel_name, "DM with Carol"),
        other => panic!("{:?}", other),
    }
}

#[test]
fn direct_message_unknown_peer() {
    let m = ready(None);
    let mut base = standard("x");
    let (a, _) = drive(&m, |a| match a {
        Action::ConversationsInfo(id) if id == "C999" => {
            let mut ch = channel(None);
            ch.is_im = Some(true);
            Event::Channel(Some(ch))
        }
        Action::UsersInfo(id) if id.is_empty() => Event::User(None),
        _ => base(a),
    });
    match a {
        Action::Resolved(res) => assert_eq!(res.channel_name, "DM with UNKNOWN"),
        other => panic!("{:?}", other),
    }
}

#[test]
fn group_dm_uses_purpose() {
    let m = ready(None);
    let mut base = standard("x");
    let (a, _) = drive(&m, |a| match a {
        Action::ConversationsInfo(id) if id == "C999" => {
            let mut ch = channel(None);
            ch.is_mpim = Some(true);
            ch.purpose = Some(Purpose { value: "release planning".to_string() });
            Event::Channel(Some(ch))
        }
        _ => base(a),
    });
    match a {
        Action::Resolved(res) => assert_eq!(res.channel_name, "release planning"),
        other => panic!("{:?}", other),
    }
}

#[test]
fn channel_without_name_is_unknown() {
    let m = ready(None);
    let mut base = standard("x");
    let (a, _) = drive(&m, |a| match a {
        Action::ConversationsInfo(id) if id == "C999" => Event::Channel(Some(channel(None))),
        _ => base(a),
    });
    match a {
        Action::Resolved(res) => assert_eq!(res.channel_name, "UNKNOWN"),
        other => panic!("{:?}", other),
    }
}

#[test]
fn all_rendered_blocks_make_the_body() {
    let m = ready(None);
    let mut base = standard("x");
    let (a, _) = drive(&m, |a| match a {
        Action::History { .. } => {
            let mut msg = message(Some("U0"), None, "plain");
            msg.blocks = Some(vec!["first".to_string(), "*rendered*".to_string()]);
            Event::Messages(Some(vec![msg]))
        }
        _ => base(a),
    });
    match a {
        Action::Resolved(res) => assert_eq!(res.body, "first\n*rendered*"),
        other => panic!("{:?}", other),
    }
}

#[test]
fn emoji_expansion_result_is_used() {
    let m = ready(None);
    let mut base = standard(":wave: <!channel>");
    let (a, _) = drive(&m, |a| match a {
        Action::ExpandEmoji(t) => Event::Expanded(t.replace(":wave:", "\u{1F44B}")),
        _ => base(a),
    });
    match a {
        Action::Resolved(res) => assert_eq!(res.body, "\u{1F44B} **@channel**"),
        other => panic!("{:?}", other),
    }
}

#[test]
fn second_pipeline_run_changes_nothing() {
    let m = ready(None);
    let input = "<#C123|general> hi <@U1> <@U9> <!here> <!subteam^S1> see <https://x.com|site> <bare>";
    let (a, _) = drive(&m, standard(input));
    let first = match a {
        Action::Resolved(res) => res.body,
        other => panic!("{:?}", other),
    };
    let leaked: &'static str = Box::leak(first.clone().into_boxed_str());
    let (b, _) = drive(&m, standard(leaked));
    match b {
        Action::Resolved(res) => assert_eq!(res.body, first),
        other => panic!("{:?}", other),
    }
}

#[test]
fn each_resolve_has_its_own_catalog() {
    let m = ready(None);
    let (_, first) = drive(&m, standard("<!subteam^S1>"));
    let (_, second) = drive(&m, standard("<!subteam^S2>"));
    assert_eq!(first.iter().filter(|s| s.as_str() == "UsergroupsList").count(), 1);
    assert_eq!(second.iter().filter(|s| s.as_str() == "UsergroupsList").count(), 1);
}
