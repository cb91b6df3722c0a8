use slack_client::mention::{mention_keys, rewrite_pass, Kind};
use slack_client::message::SlackMessage;
use slack_client::permalink::Permalink;
use slack_client::response::usergroups::Usergroup;
use slack_client::response::users::{Profile, User};

fn table(pairs: &[(&str, &str)]) -> Vec<(String, String)> {
    pairs.iter().map(|(k, v)| (k.to_string(), v.to_string())).collect()
}

fn msg() -> SlackMessage<slack_client::message::Initialized> {
    let p = Permalink::from_parts(
        Some("x.slack.com".to_string()),
        Some(vec!["archives".to_string(), "C1".to_string(), "p1700000000000001".to_string()]),
        vec![],
    )
    .unwrap();
    SlackMessage::from_permalink(p)
}

fn profile(display: &str) -> Profile {
    Profile {
        display_name: display.to_string(),
        display_name_normalized: display.to_string(),
        real_name: String::new(),
        real_name_normalized: String::new(),
        email: None,
        title: String::new(),
        image_24: None,
        image_32: None,
        image_48: None,
        image_72: None,
        image_192: None,
        image_512: None,
        image_1024: None,
        image_original: None,
    }
}

fn user(name: &str, real: Option<&str>, display: &str, is_bot: bool) -> User {
    User {
        id: "U1".to_string(),
        team_id: "T1".to_string(),
        name: name.to_string(),
        real_name: real.map(|r| r.to_string()),
        profile: profile(display),
        is_bot,
        deleted: false,
        is_app_user: false,
        tz: None,
    }
}

#[test]
fn user_name_of_human() {
    let m = msg();
    assert_eq!(m.get_user_name(user("alice", Some("Alice A"), "Ally", false)), "Ally");
    assert_eq!(m.get_user_name(user("alice", Some("Alice A"), "", false)), "alice");
}

#[test]
fn user_name_of_bot() {
    let m = msg();
    assert_eq!(m.get_user_name(user("deployer", Some("Deploy Bot"), "x", true)), "Deploy Bot");
    assert_eq!(m.get_user_name(user("deployer", None, "x", true)), "deployer");
}

#[test]
fn special_mentions() {
    let m = msg();
    let out = m.replace_special_mentions("<!here> <!channel> <!everyone> <!nobody>").unwrap();
    assert_eq!(out, "**@here** **@channel** **@everyone** <!nobody>");
}

#[test]
fn links_need_a_label() {
    let m = msg();
    assert_eq!(m.replace_links("<https://a.b|A> and <https://c.d>").unwrap(), "[A](https://a.b) and <https://c.d>");
    assert_eq!(m.replace_links("<https://a.b|>").unwrap(), "<https://a.b|>");
}

#[test]
fn channel_mentions_with_and_without_label() {
    let m = msg();
    let names = table(&[("C1", "general"), ("G2", "secret")]);
    let out = m.replace_channel_ids("<#C1> <#G2|old> <#C3> <#X1>", &names).unwrap();
    assert_eq!(out, "**#general** **#secret** <#C3> <#X1>");
}

#[test]
fn user_mentions() {
    let m = msg();
    let names = table(&[("U1", "Alice"), ("W2", "Bob")]);
    assert_eq!(m.replace_user_ids("<@U1>,<@W2>,<@U3>,<@u1>", &names).unwrap(), "**@Alice**,**@Bob**,<@U3>,<@u1>");
}

#[test]
fn usergroup_mentions() {
    let m = msg();
    let groups = vec![Usergroup {
        id: "S1".to_string(),
        team_id: "T".to_string(),
        name: "Developers".to_string(),
        description: Some("devs".to_string()),
        handle: "devs".to_string(),
        user_count: 3,
    }];
    assert_eq!(m.replace_usergroups_ids("ping <!subteam^S1> <!subteam^S2>", &groups).unwrap(), "ping **@devs** <!subteam^S2>");
}

#[test]
fn text_outside_tokens_is_kept_exactly() {
    let names = table(&[("U1", "A")]);
    let input = "héllo <@U1> wörld <@U1";
    assert_eq!(rewrite_pass(Kind::User, input, &names), "héllo **@A** wörld <@U1");
    assert_eq!(rewrite_pass(Kind::User, "", &names), "");
    assert_eq!(rewrite_pass(Kind::Link, "no tokens at all", &vec![]), "no tokens at all");
}

#[test]
fn keys_in_order_with_repeats() {
    let keys = mention_keys(Kind::Channel, "<#C1> x <#G2|a> <#C1>");
    assert_eq!(keys, vec!["C1".to_string(), "G2".to_string(), "C1".to_string()]);
    let keys = mention_keys(Kind::Special, "<!here> <!everyone>");
    assert_eq!(keys, vec!["here".to_string(), "everyone".to_string()]);
}

#[test]
fn channel_label_ends_at_first_bracket() {
    let names = table(&[("C123", "general-team")]);
    assert_eq!(rewrite_pass(Kind::Channel, "<#C123|general> hi <@U1>", &names), "**#general-team** hi <@U1>");
}

#[test]
fn second_pass_of_each_kind_changes_nothing() {
    let names = table(&[("U1", "Alice"), ("S1", "devs")]);
    let input = "<@U1> <@U2> <<@U1>> <!subteam^S1> <!subteam^S9> <!here><!here> <<!channel>";
    for kind in [Kind::User, Kind::Usergroup, Kind::Special] {
        let once = rewrite_pass(kind, input, &names);
        let twice = rewrite_pass(kind, &once, &names);
        assert_eq!(once, twice);
    }
    assert_eq!(
        rewrite_pass(Kind::Special, "<<!channel>", &vec![]),
        "<**@channel**"
    );
}

#[test]
fn unresolved_tokens_pass_through_whole() {
    let names = table(&[]);
    let input = "a <#C1|x> b <@U1> c";
    assert_eq!(rewrite_pass(Kind::Channel, input, &names), input);
    assert_eq!(rewrite_pass(Kind::User, input, &names), input);
}
