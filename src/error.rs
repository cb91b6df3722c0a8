//! The ways in which parsing a permalink or resolving its message fails.
use vstd::prelude::*;

verus! {

/// Why a permalink could not be parsed or its message not be resolved.
#[derive(Debug, Clone)]
pub enum ResolveError {
    /// The URL's domain does not belong to the platform.
    NotPlatformUrl,
    /// The channel or timestamp segment is missing, or the timestamp is not
    /// all digits once its prefix is stripped.
    MalformedPermalink,
    /// The timestamp cannot be read as seconds and microseconds.
    InvalidTimestamp,
    /// Neither the history nor the thread replies hold the message.
    MessageNotFound,
    /// The channel of the permalink is unknown.
    ChannelNotFound,
    /// The message names no author, or its author is unknown.
    AuthorNotFound,
    /// A remote call failed; holds the raw response.
    RemoteApiError(String),
    /// The usergroup catalog could not be fetched.
    UsergroupFetchFailed,
}

impl PartialEq for ResolveError {
    fn eq(&self, other: &ResolveError) -> (r: bool) {
        match (self, other) {
            (ResolveError::NotPlatformUrl, ResolveError::NotPlatformUrl) => true,
            (ResolveError::MalformedPermalink, ResolveError::MalformedPermalink) => true,
            (ResolveError::InvalidTimestamp, ResolveError::InvalidTimestamp) => true,
            (ResolveError::MessageNotFound, ResolveError::MessageNotFound) => true,
            (ResolveError::ChannelNotFound, ResolveError::ChannelNotFound) => true,
            (ResolveError::AuthorNotFound, ResolveError::AuthorNotFound) => true,
            (ResolveError::RemoteApiError(a), ResolveError::RemoteApiError(b)) => *a == *b,
            (ResolveError::UsergroupFetchFailed, ResolveError::UsergroupFetchFailed) => true,
            _ => false,
        }
    }
}

impl vstd::std_specs::cmp::PartialEqSpecImpl for ResolveError {
    open spec fn obeys_eq_spec() -> bool {
        true
    }

    open spec fn eq_spec(&self, other: &ResolveError) -> bool {
        match (self, other) {
            (ResolveError::RemoteApiError(a), ResolveError::RemoteApiError(b)) => a@ == b@,
            _ => self == other,
        }
    }
}

/// The sentence that says which stage failed.
pub open spec fn description(e: ResolveError) -> Seq<char> {
    match e {
        ResolveError::NotPlatformUrl => "not a permalink of the platform"@,
        ResolveError::MalformedPermalink => "malformed permalink"@,
        ResolveError::InvalidTimestamp => "invalid timestamp in permalink"@,
        ResolveError::MessageNotFound => "no message found"@,
        ResolveError::ChannelNotFound => "channel not found"@,
        ResolveError::AuthorNotFound => "no user or bot found for the author"@,
        ResolveError::RemoteApiError(raw) => "request failed: "@ + raw@,
        ResolveError::UsergroupFetchFailed => "failed to get usergroups"@,
    }
}

impl ResolveError {
    /// A sentence that says which stage failed.
    pub fn describe(&self) -> (r: String)
        ensures
            r@ == description(*self),
    {
        match self {
            ResolveError::NotPlatformUrl => "not a permalink of the platform".to_owned(),
            ResolveError::MalformedPermalink => "malformed permalink".to_owned(),
            ResolveError::InvalidTimestamp => "invalid timestamp in permalink".to_owned(),
            ResolveError::MessageNotFound => "no message found".to_owned(),
            ResolveError::ChannelNotFound => "channel not found".to_owned(),
            ResolveError::AuthorNotFound => "no user or bot found for the author".to_owned(),
            ResolveError::RemoteApiError(raw) => {
                let mut r = String::new();
                r.append("request failed: ");
                r.append(raw.as_str());
                r
            },
            ResolveError::UsergroupFetchFailed => "failed to get usergroups".to_owned(),
        }
    }
}

} // verus!
