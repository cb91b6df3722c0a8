use slack_client::error::ResolveError;
use slack_client::message::SlackMessage;
use slack_client::permalink::Permalink;

fn parts(domain: &str, segs: &[&str], query: &[(&str, &str)]) -> Result<Permalink, ResolveError> {
    Permalink::from_parts(
        Some(domain.to_string()),
        Some(segs.iter().map(|s| s.to_string()).collect()),
        query.iter().map(|(k, v)| (k.to_string(), v.to_string())).collect(),
    )
}

#[test]
fn permalink_with_thread() {
    let url = url::Url::parse(
        "https://x.slack.com/archives/C123/p1700000000000001?thread_ts=1699999999.000100",
    )
    .unwrap();
    let p = Permalink::parse(&url).unwrap();
    assert_eq!(p.channel_id, "C123");
    assert_eq!(p.ts, "1700000000000001");
    assert_eq!((p.timestamp.seconds, p.timestamp.micros), (1700000000, 1));
    let t = p.thread_ts.unwrap();
    assert_eq!((t.seconds, t.micros), (1699999999, 100));
    let as_float = p.timestamp.seconds as f64 + p.timestamp.micros as f64 / 1e6;
    assert!((as_float - 1700000000.000001).abs() < 1e-5);
}

#[test]
fn permalink_without_thread() {
    let url = url::Url::parse("https://team.slack.com/archives/G42/p1712345678123456").unwrap();
    let p = Permalink::parse(&url).unwrap();
    assert_eq!(p.channel_id, "G42");
    assert_eq!((p.timestamp.seconds, p.timestamp.micros), (1712345678, 123456));
    assert!(p.thread_ts.is_none());
}

#[test]
fn thread_ts_among_other_parameters() {
    let p = parts("x.slack.com", &["archives", "C1", "p1700000000000001"], &[("cid", "C1"), ("thread_ts", "1699999999.5")]).unwrap();
    let t = p.thread_ts.unwrap();
    assert_eq!((t.seconds, t.micros), (1699999999, 500000));
}

#[test]
fn thread_ts_without_fraction() {
    let p = parts("x.slack.com", &["archives", "C1", "p1700000000000001"], &[("thread_ts", "1699999999")]).unwrap();
    let t = p.thread_ts.unwrap();
    assert_eq!((t.seconds, t.micros), (1699999999, 0));
}

#[test]
fn other_domain_is_refused() {
    let url = url::Url::parse("https://example.com/archives/C123/p1700000000000001").unwrap();
    assert_eq!(Permalink::parse(&url).unwrap_err(), ResolveError::NotPlatformUrl);
    assert_eq!(SlackMessage::try_new(&url).unwrap_err(), ResolveError::NotPlatformUrl);
}

#[test]
fn ip_host_is_refused() {
    let url = url::Url::parse("https://127.0.0.1/archives/C123/p1700000000000001").unwrap();
    assert_eq!(Permalink::parse(&url).unwrap_err(), ResolveError::NotPlatformUrl);
}

#[test]
fn missing_segments_are_malformed() {
    let url = url::Url::parse("https://x.slack.com/archives").unwrap();
    assert_eq!(Permalink::parse(&url).unwrap_err(), ResolveError::MalformedPermalink);
    assert_eq!(
        Permalink::from_parts(Some("x.slack.com".to_string()), None, vec![]).unwrap_err(),
        ResolveError::MalformedPermalink
    );
}

#[test]
fn non_numeric_timestamp_is_malformed() {
    assert_eq!(parts("x.slack.com", &["archives", "C1", "p17000x0000000001"], &[]).unwrap_err(), ResolveError::MalformedPermalink);
    assert_eq!(parts("x.slack.com", &["archives", "C1", "pxyz"], &[]).unwrap_err(), ResolveError::MalformedPermalink);
}

#[test]
fn short_timestamp_is_invalid() {
    assert_eq!(parts("x.slack.com", &["archives", "C1", "p12345"], &[]).unwrap_err(), ResolveError::InvalidTimestamp);
}

#[test]
fn six_digit_timestamp_is_fraction_only() {
    let p = parts("x.slack.com", &["archives", "C1", "p123456"], &[]).unwrap();
    assert_eq!((p.timestamp.seconds, p.timestamp.micros), (0, 123456));
}

#[test]
fn huge_timestamp_is_invalid() {
    assert_eq!(
        parts("x.slack.com", &["archives", "C1", "p99999999999999999999000001"], &[]).unwrap_err(),
        ResolveError::InvalidTimestamp
    );
}

#[test]
fn bad_thread_ts_is_invalid() {
    assert_eq!(
        parts("x.slack.com", &["archives", "C1", "p1700000000000001"], &[("thread_ts", "soon")]).unwrap_err(),
        ResolveError::InvalidTimestamp
    );
    assert_eq!(
        parts("x.slack.com", &["archives", "C1", "p1700000000000001"], &[("thread_ts", ".")]).unwrap_err(),
        ResolveError::InvalidTimestamp
    );
}

#[test]
fn long_thread_fraction_is_truncated_to_micros() {
    let p = parts("x.slack.com", &["archives", "C1", "p1700000000000001"], &[("thread_ts", "1.1234567")]).unwrap();
    let t = p.thread_ts.unwrap();
    assert_eq!((t.seconds, t.micros), (1, 123456));
    let p = parts("x.slack.com", &["archives", "C1", "p1700000000000001"], &[("thread_ts", "1699999999.000100999")]).unwrap();
    let t = p.thread_ts.unwrap();
    assert_eq!((t.seconds, t.micros), (1699999999, 100));
}

#[test]
fn thread_ts_with_leading_point_or_trailing_point() {
    let p = parts("x.slack.com", &["archives", "C1", "p1700000000000001"], &[("thread_ts", ".5")]).unwrap();
    let t = p.thread_ts.unwrap();
    assert_eq!((t.seconds, t.micros), (0, 500000));
    let p = parts("x.slack.com", &["archives", "C1", "p1700000000000001"], &[("thread_ts", "7.")]).unwrap();
    let t = p.thread_ts.unwrap();
    assert_eq!((t.seconds, t.micros), (7, 0));
}

#[test]
fn resolve_starts_with_channel_lookup() {
    let url = url::Url::parse("https://x.slack.com/archives/C123/p1700000000000001").unwrap();
    let m = SlackMessage::try_new(&url).unwrap();
    let (_, a) = m.resolve();
    assert_eq!(format!("{:?}", a), "ConversationsInfo(\"C123\")");
}

#[test]
fn uninitialized_message_parses() {
    let url = url::Url::parse("https://x.slack.com/archives/C5/p1700000000000001").unwrap();
    let m = SlackMessage::new(url).parse().unwrap();
    assert_eq!(m.state.permalink.channel_id, "C5");
}

#[test]
fn error_descriptions_name_the_stage() {
    assert_eq!(ResolveError::MessageNotFound.describe(), "no message found");
    assert_eq!(ResolveError::RemoteApiError("raw".to_string()).describe(), "request failed: raw");
}

#[test]
fn path_reading_ignores_the_host() {
    let url = url::Url::parse("https://example.com/archives/C7/p1700000000000001?thread_ts=1699999999.000100").unwrap();
    let p = Permalink::parse_path(&url).unwrap();
    assert_eq!(p.channel_id, "C7");
    assert_eq!((p.timestamp.seconds, p.timestamp.micros), (1700000000, 1));
    assert_eq!(p.thread_ts.map(|t| (t.seconds, t.micros)), Some((1699999999, 100)));
    let bad = url::Url::parse("https://example.com/archives").unwrap();
    assert_eq!(Permalink::parse_path(&bad).unwrap_err(), ResolveError::MalformedPermalink);
}
