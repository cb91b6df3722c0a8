use slack_client::response::conversations::{keeps_channel, Channel};
use slack_client::request::conversations::{from_channel_types, ChannelType, ChannelTypes, History, Replies};
use slack_client::request::{Request, RequestMethod};
use slack_client::response::users::UsersList;
use slack_client::response::{Response, ResponseMetadata};
use slack_client::permalink::Timestamp;

#[test]
fn cursor_of_listing() {
    let page = |c: Option<&str>| UsersList {
        ok: true,
        members: None,
        response_metadata: c.map(|c| ResponseMetadata { next_cursor: c.to_string() }),
    };
    assert_eq!(page(Some("dXNlcjpVMEc5V0ZYTlo=")).next_cursor(), Some("dXNlcjpVMEc5V0ZYTlo=".to_string()));
    assert_eq!(page(Some("")).next_cursor(), None);
    assert_eq!(page(None).next_cursor(), None);
    assert!(page(None).is_ok());
}

#[test]
fn channel_type_names() {
    assert_eq!(ChannelType::from_name("mpim"), Some(ChannelType::Mpim));
    assert_eq!(ChannelType::from_name("public_channel"), Some(ChannelType::Public));
    assert_eq!(ChannelType::from_name("group"), None);
    assert_eq!(ChannelType::Private.as_str(), "private_channel");
    let types = ChannelTypes::from(vec![ChannelType::Public, ChannelType::Private, ChannelType::Im]);
    assert_eq!(types.joined(), "public_channel,private_channel,im");
    assert_eq!(ChannelTypes::new(vec![]).joined(), "");
    assert_eq!(from_channel_types(&Some(types)), Some("public_channel,private_channel,im".to_string()));
    assert_eq!(from_channel_types(&None), None);
}

#[test]
fn single_message_queries() {
    let ts = Timestamp { seconds: 1700000000, micros: 1 };
    let thread = Timestamp { seconds: 1699999999, micros: 100 };
    let h = History::at("C1".to_string(), ts);
    assert_eq!((h.latest, h.oldest, h.limit, h.inclusive), (ts, ts, 1, true));
    assert_eq!(h.path(), "conversations.history");
    assert_eq!(h.method(), RequestMethod::Get);
    let r = Replies::at("C1".to_string(), thread, ts);
    assert_eq!((r.ts, r.latest, r.oldest, r.limit, r.inclusive), (thread, ts, ts, 1, true));
    assert_eq!(r.path(), "conversations.replies");
    assert_eq!(RequestMethod::Post.as_str(), "POST");
}

#[test]
fn channel_listing_filter() {
    let ch = |creator: Option<&str>, archived: Option<bool>| Channel {
        id: "C1".to_string(),
        name: None,
        is_channel: None,
        is_private: None,
        is_shared: None,
        is_ext_shared: None,
        is_org_shared: None,
        is_archived: archived,
        previous_names: None,
        num_members: None,
        created: 0,
        updated: 0,
        creator: creator.map(|c| c.to_string()),
        is_im: None,
        is_mpim: None,
        name_normalized: None,
        purpose: None,
        user: None,
    };
    let u1 = Some("U1".to_string());
    assert!(keeps_channel(&ch(Some("U1"), None), &u1, false));
    assert!(!keeps_channel(&ch(Some("U2"), None), &u1, false));
    assert!(!keeps_channel(&ch(None, None), &u1, false));
    assert!(!keeps_channel(&ch(None, Some(true)), &None, true));
    assert!(keeps_channel(&ch(None, Some(false)), &None, true));
    assert!(keeps_channel(&ch(None, None), &None, true));
    assert!(keeps_channel(&ch(None, Some(true)), &None, false));
    assert!(keeps_channel(&ch(None, None), &None, false));
}
