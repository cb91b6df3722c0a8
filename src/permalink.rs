//! Permalinks: the channel and timestamp that a message URL encodes.
use vstd::prelude::*;

use crate::error::ResolveError;
use crate::mention::lookup_exec;
use crate::mention::{lookup, table_view};
use crate::text::{
    all_digits, chars_of, digit_run_end, digit_run_exec, digits_value, digits_value_upto,
    first_digit, first_digit_exec, lemma_digit_run_bounds, lemma_digits_lt_pow10,
    lemma_first_digit_bounds, lemma_pow10_add, pow10, skip_non_digits, strings_view,
};

verus! {

#[verifier::external_type_specification]
#[verifier::external_body]
pub struct ExUrl(url::Url);

/// The host of `u` when it is a domain name, as `url::Url::domain` gives it.
pub uninterp spec fn domain_of(u: url::Url) -> Option<Seq<char>>;

/// The path segments of `u`, as `url::Url::path_segments` gives them.
pub uninterp spec fn segments_of(u: url::Url) -> Option<Seq<Seq<char>>>;

/// The decoded query pairs of `u`, as `url::Url::query_pairs` gives them.
pub uninterp spec fn query_of(u: url::Url) -> Seq<(Seq<char>, Seq<char>)>;

/// Relies on `url::Url::domain`: the URL's host, when that host is a domain
/// name; it depends on the URL alone.
#[verifier::external_body]
fn url_domain(u: &url::Url) -> (r: Option<String>)
    ensures
        opt_view(r) == domain_of(*u),
{
    u.domain().map(|d| d.to_owned())
}

/// Relies on `url::Url::path_segments`: the `/`-separated segments of the
/// path, or `None` for a URL that cannot be a base; they depend on the URL alone.
#[verifier::external_body]
fn url_path_segments(u: &url::Url) -> (r: Option<Vec<String>>)
    ensures
        opt_strings_view(r) == segments_of(*u),
{
    u.path_segments().map(|segs| segs.map(|s| s.to_owned()).collect())
}

/// Relies on `url::Url::query_pairs`: the decoded name/value pairs of the query
/// string, in order; they depend on the URL alone.
#[verifier::external_body]
fn url_query_pairs(u: &url::Url) -> (r: Vec<(String, String)>)
    ensures
        table_view(r@) == query_of(*u),
{
    u.query_pairs().map(|(k, v)| (k.into_owned(), v.into_owned())).collect()
}

/// A point in time as the platform writes it: whole seconds and microseconds.
#[derive(Clone, Copy, Debug, PartialEq, Eq, Structural)]
pub struct Timestamp {
    pub seconds: u64,
    pub micros: u32,
}

impl Timestamp {
    pub open spec fn wf(&self) -> bool {
        self.seconds <= i64::MAX && self.micros < 1_000_000
    }

    pub open spec fn model(&self) -> (nat, nat) {
        (self.seconds as nat, self.micros as nat)
    }
}

/// A parsed permalink.
#[derive(Clone, Debug)]
pub struct Permalink {
    /// The channel id, the second path segment.
    pub channel_id: String,
    /// The digits of the last path segment.
    pub ts: String,
    /// Those digits with a decimal point six places from the end.
    pub timestamp: Timestamp,
    /// The `thread_ts` query parameter, when present.
    pub thread_ts: Option<Timestamp>,
}

/// A domain of the platform: it ends in `slack.com`.
pub open spec fn is_platform_domain(d: Seq<char>) -> bool {
    d.len() >= 9 && d.subrange(d.len() - 9, d.len() as int) == "slack.com"@
}

/// Seconds and microseconds of a run of digits whose last six are the
/// microseconds; `None` when there are fewer than six or the seconds exceed
/// `i64::MAX`.
pub open spec fn timestamp_of(num: Seq<char>) -> Option<(nat, nat)> {
    if num.len() < 6 {
        None
    } else {
        let secs = digits_value(num.subrange(0, num.len() - 6));
        if secs <= i64::MAX {
            Some((secs, digits_value(num.subrange(num.len() - 6, num.len() as int))))
        } else {
            None
        }
    }
}

/// The fraction digits that a reading to the microsecond keeps: the first six.
pub open spec fn micro_digits(frac: Seq<char>) -> Seq<char> {
    if frac.len() <= 6 {
        frac
    } else {
        frac.subrange(0, 6)
    }
}

/// Seconds and microseconds of a decimal `digits`, `digits.fraction` or
/// `.fraction` (at least one digit in all), the fraction truncated to
/// microseconds; seconds at most `i64::MAX`.
pub open spec fn decimal_of(v: Seq<char>) -> Option<(nat, nat)> {
    let p = digit_run_end(v, 0);
    let secs = digits_value(v.subrange(0, p));
    if secs > i64::MAX {
        None
    } else if p == v.len() {
        if p == 0 {
            None
        } else {
            Some((secs, 0))
        }
    } else {
        let frac = v.subrange(p + 1, v.len() as int);
        if v[p] == '.' && all_digits(frac) && (p > 0 || frac.len() > 0) {
            let m = micro_digits(frac);
            Some((secs, digits_value(m) * pow10((6 - m.len()) as nat)))
        } else {
            None
        }
    }
}

/// The error that parsing these URL parts gives, if any.
pub open spec fn parts_error(
    domain: Option<Seq<char>>,
    segments: Option<Seq<Seq<char>>>,
    query: Seq<(Seq<char>, Seq<char>)>,
) -> Option<ResolveError> {
    if !(domain matches Some(d) && is_platform_domain(d)) {
        Some(ResolveError::NotPlatformUrl)
    } else {
        path_error(segments, query)
    }
}

/// The error that reading a permalink from these path segments and query
/// pairs gives, if any, whatever the host.
pub open spec fn path_error(
    segments: Option<Seq<Seq<char>>>,
    query: Seq<(Seq<char>, Seq<char>)>,
) -> Option<ResolveError> {
    if !(segments matches Some(ss) && ss.len() >= 2) {
        Some(ResolveError::MalformedPermalink)
    } else {
        let num = skip_non_digits(segments->0.last());
        if num.len() == 0 || !all_digits(num) {
            Some(ResolveError::MalformedPermalink)
        } else if timestamp_of(num) is None {
            Some(ResolveError::InvalidTimestamp)
        } else if lookup(query, "thread_ts"@) matches Some(v) && decimal_of(v) is None {
            Some(ResolveError::InvalidTimestamp)
        } else {
            None
        }
    }
}

pub open spec fn opt_view(o: Option<String>) -> Option<Seq<char>> {
    match o {
        Some(s) => Some(s@),
        None => None,
    }
}

pub open spec fn opt_strings_view(o: Option<Vec<String>>) -> Option<Seq<Seq<char>>> {
    match o {
        Some(v) => Some(strings_view(v@)),
        None => None,
    }
}

/// `r` is what reading the permalink in `u` gives: the error that its parts
/// give, or the permalink that they denote.
pub open spec fn read_from(r: Result<Permalink, ResolveError>, u: url::Url) -> bool {
    match r {
        Ok(p) => parts_error(domain_of(u), segments_of(u), query_of(u)) is None && denotes(
            p,
            segments_of(u)->0,
            query_of(u),
        ),
        Err(e) => parts_error(domain_of(u), segments_of(u), query_of(u)) == Some(e),
    }
}

/// `p` is what the URL parts denote, when they parse.
pub open spec fn denotes(
    p: Permalink,
    segments: Seq<Seq<char>>,
    query: Seq<(Seq<char>, Seq<char>)>,
) -> bool {
    let num = skip_non_digits(segments.last());
    &&& p.channel_id@ == segments[1]
    &&& p.ts@ == num
    &&& timestamp_of(num) == Some(p.timestamp.model())
    &&& p.timestamp.wf()
    &&& match lookup(query, "thread_ts"@) {
        Some(v) => p.thread_ts matches Some(t) && decimal_of(v) == Some(t.model()) && t.wf(),
        None => p.thread_ts is None,
    }
}

fn timestamp_exec(v: &Vec<char>, lo: usize) -> (r: Option<Timestamp>)
    requires
        lo <= v@.len(),
        all_digits(v@.subrange(lo as int, v@.len() as int)),
    ensures
        match r {
            Some(t) => timestamp_of(v@.subrange(lo as int, v@.len() as int)) == Some(t.model())
                && t.wf(),
            None => timestamp_of(v@.subrange(lo as int, v@.len() as int)) is None,
        },
{
    let ghost num = v@.subrange(lo as int, v@.len() as int);
    let n = v.len();
    if n - lo < 6 {
        return None;
    }
    let mid = n - 6;
    assert(num.subrange(0, num.len() - 6) =~= v@.subrange(lo as int, mid as int));
    assert(num.subrange(num.len() - 6, num.len() as int) =~= v@.subrange(mid as int, n as int));
    assert(all_digits(v@.subrange(lo as int, mid as int))) by {
        assert forall|i: int| 0 <= i < mid - lo implies crate::text::is_digit(
            #[trigger] v@.subrange(lo as int, mid as int)[i],
        ) by {
            assert(v@.subrange(lo as int, mid as int)[i] == num[i]);
        }
    }
    assert(all_digits(v@.subrange(mid as int, n as int))) by {
        assert forall|i: int| 0 <= i < 6 implies crate::text::is_digit(
            #[trigger] v@.subrange(mid as int, n as int)[i],
        ) by {
            assert(v@.subrange(mid as int, n as int)[i] == num[i + (mid - lo)]);
        }
    }
    proof {
        lemma_digits_lt_pow10(v@.subrange(mid as int, n as int));
        reveal_with_fuel(pow10, 7);
        assert(pow10(6) == 1_000_000);
    }
    match digits_value_upto(v, lo, mid, i64::MAX as u64) {
        Some(secs) => match digits_value_upto(v, mid, n, 999_999) {
            Some(micros) => Some(Timestamp { seconds: secs, micros: micros as u32 }),
            None => None,
        },
        None => None,
    }
}

fn decimal_exec(value: &String) -> (r: Option<Timestamp>)
    ensures
        match r {
            Some(t) => decimal_of(value@) == Some(t.model()) && t.wf(),
            None => decimal_of(value@) is None,
        },
{
    let v = chars_of(value.as_str());
    let n = v.len();
    let p = digit_run_exec(&v, 0);
    proof {
        lemma_digit_run_bounds(v@, 0);
    }
    let secs = match digits_value_upto(&v, 0, p, i64::MAX as u64) {
        Some(s) => s,
        None => return None,
    };
    if p == n {
        if p == 0 {
            return None;
        }
        return Some(Timestamp { seconds: secs, micros: 0 });
    }
    if v[p] != '.' {
        return None;
    }
    let q = digit_run_exec(&v, p + 1);
    proof {
        lemma_digit_run_bounds(v@, p + 1);
    }
    let ghost frac = v@.subrange(p + 1, n as int);
    if q != n {
        assert(frac[q - (p + 1)] == v@[q as int]);
        return None;
    }
    if p == 0 && n == p + 1 {
        return None;
    }
    let flen = if n - (p + 1) > 6 {
        6
    } else {
        n - (p + 1)
    };
    let ghost m = micro_digits(frac);
    assert(m =~= v@.subrange(p + 1, p + 1 + flen));
    assert(all_digits(m)) by {
        assert forall|i: int| 0 <= i < m.len() implies crate::text::is_digit(#[trigger] m[i]) by {
            assert(m[i] == frac[i]);
        }
    }
    let scale: u64 = if flen == 0 {
        1_000_000
    } else if flen == 1 {
        100_000
    } else if flen == 2 {
        10_000
    } else if flen == 3 {
        1_000
    } else if flen == 4 {
        100
    } else if flen == 5 {
        10
    } else {
        1
    };
    proof {
        lemma_digits_lt_pow10(m);
        reveal_with_fuel(pow10, 7);
        assert(pow10(0) == 1 && pow10(1) == 10 && pow10(2) == 100 && pow10(3) == 1000 && pow10(4)
            == 10000 && pow10(5) == 100000 && pow10(6) == 1000000);
        assert(scale == pow10((6 - flen) as nat));
        lemma_pow10_add(flen as nat, (6 - flen) as nat);
        let f = digits_value(m);
        let a = pow10(flen as nat);
        let b = pow10((6 - flen) as nat);
        assert(f * b < 1_000_000) by (nonlinear_arith)
            requires
                f < a,
                a * b == 1_000_000,
                b >= 1,
        ;
    }
    match digits_value_upto(&v, p + 1, p + 1 + flen, 999_999) {
        Some(f) => {
            assert(f * scale < 1_000_000);
            Some(Timestamp { seconds: secs, micros: (f * scale) as u32 })
        },
        None => None,
    }
}

impl Permalink {
    pub open spec fn wf(&self) -> bool {
        &&& self.timestamp.wf()
        &&& (self.thread_ts matches Some(t) ==> t.wf())
    }

    /// Builds a permalink from the parts of its URL: the domain, the path
    /// segments (`/archives/{channel}/p{digits}`) and the query pairs, where
    /// `thread_ts` names the thread.
    pub fn from_parts(
        domain: Option<String>,
        segments: Option<Vec<String>>,
        query: Vec<(String, String)>,
    ) -> (r: Result<Permalink, ResolveError>)
        ensures
            match r {
                Ok(p) => parts_error(opt_view(domain), opt_strings_view(segments), table_view(
                    query@,
                )) is None && denotes(p, strings_view(segments->0@), table_view(query@)),
                Err(e) => parts_error(opt_view(domain), opt_strings_view(segments), table_view(
                    query@,
                )) == Some(e),
            },
    {
        proof {
            reveal_strlit("slack.com");
        }
        let on_platform = match &domain {
            Some(d) => {
                let dc = chars_of(d.as_str());
                let ok = dc.len() >= 9 && crate::text::has_lit_at(&dc, dc.len() - 9, "slack.com");
                ok
            },
            None => false,
        };
        if !on_platform {
            return Err(ResolveError::NotPlatformUrl);
        }
        Permalink::from_path(segments, query)
    }

    /// Builds a permalink from the path segments of its URL
    /// (`/archives/{channel}/p{digits}`) and its query pairs, where
    /// `thread_ts` names the thread, whatever the host.
    pub fn from_path(segments: Option<Vec<String>>, query: Vec<(String, String)>) -> (r: Result<
        Permalink,
        ResolveError,
    >)
        ensures
            match r {
                Ok(p) => path_error(opt_strings_view(segments), table_view(query@)) is None
                    && denotes(p, strings_view(segments->0@), table_view(query@)),
                Err(e) => path_error(opt_strings_view(segments), table_view(query@)) == Some(e),
            },
    {
        let segs = match segments {
            Some(s) => s,
            None => return Err(ResolveError::MalformedPermalink),
        };
        if segs.len() < 2 {
            return Err(ResolveError::MalformedPermalink);
        }
        let ghost ss = strings_view(segs@);
        let last = &segs[segs.len() - 1];
        assert(ss.last() == last@);
        let v = chars_of(last.as_str());
        let n = v.len();
        let fd = first_digit_exec(&v);
        proof {
            lemma_first_digit_bounds(v@, 0);
            lemma_digit_run_bounds(v@, fd as int);
        }
        let ghost num = v@.subrange(fd as int, n as int);
        assert(num == skip_non_digits(ss.last()));
        let run = digit_run_exec(&v, fd);
        if fd == n {
            return Err(ResolveError::MalformedPermalink);
        }
        if run != n {
            assert(num[run - fd] == v@[run as int]);
            return Err(ResolveError::MalformedPermalink);
        }
        assert(v@.subrange(fd as int, digit_run_end(v@, fd as int)) == num);
        let timestamp = match timestamp_exec(&v, fd) {
            Some(t) => t,
            None => return Err(ResolveError::InvalidTimestamp),
        };
        let thread_key = "thread_ts".to_owned();
        let thread_ts = match lookup_exec(&query, &thread_key) {
            Some(value) => match decimal_exec(&value) {
                Some(t) => Some(t),
                None => return Err(ResolveError::InvalidTimestamp),
            },
            None => None,
        };
        let channel_id = segs[1].clone();
        let ts = last.as_str().substring_char(fd, n).to_owned();
        Ok(Permalink { channel_id, ts, timestamp, thread_ts })
    }

    /// Reads the permalink in the path and query of a URL, whatever its host.
    pub fn parse_path(url: &url::Url) -> (r: Result<Permalink, ResolveError>)
        ensures
            match r {
                Ok(p) => path_error(segments_of(*url), query_of(*url)) is None && denotes(
                    p,
                    segments_of(*url)->0,
                    query_of(*url),
                ),
                Err(e) => path_error(segments_of(*url), query_of(*url)) == Some(e),
            },
            r matches Ok(p) ==> p.wf(),
    {
        Permalink::from_path(url_path_segments(url), url_query_pairs(url))
    }

    /// Reads the permalink in a parsed URL.
    pub fn parse(url: &url::Url) -> (r: Result<Permalink, ResolveError>)
        ensures
            read_from(r, *url),
            r matches Ok(p) ==> p.wf(),
    {
        Permalink::from_parts(url_domain(url), url_path_segments(url), url_query_pairs(url))
    }
}

} // verus!

verus! {

/// A permalink `.../archives/{channel}/p{sixteen digits}` on a platform
/// domain, with no `thread_ts` or a decimal one, parses: its timestamp is the
/// digits with a point six places from the end, and its thread timestamp is
/// the parameter's value when present.
pub proof fn lemma_well_formed_permalink_parses(
    domain: Seq<char>,
    channel: Seq<char>,
    digits: Seq<char>,
    query: Seq<(Seq<char>, Seq<char>)>,
)
    requires
        is_platform_domain(domain),
        digits.len() == 16,
        all_digits(digits),
        lookup(query, "thread_ts"@) matches Some(v) ==> decimal_of(v) is Some,
    ensures
        ({
            let segments = seq!["archives"@, channel, seq!['p'] + digits];
            &&& parts_error(Some(domain), Some(segments), query) is None
            &&& skip_non_digits(segments.last()) == digits
            &&& timestamp_of(digits) == Some(
                (
                    digits_value(digits.subrange(0, 10)),
                    digits_value(digits.subrange(10, 16)),
                ),
            )
        }),
{
    let seg = seq!['p'] + digits;
    assert(!crate::text::is_digit(seg[0]));
    assert(seg[1] == digits[0]);
    assert(first_digit(seg, 1) == 1);
    assert(first_digit(seg, 0) == 1);
    assert(seg.subrange(1, seg.len() as int) =~= digits);
    let secs = digits.subrange(0, 10);
    assert(all_digits(secs)) by {
        assert forall|i: int| 0 <= i < 10 implies crate::text::is_digit(#[trigger] secs[i]) by {
            assert(secs[i] == digits[i]);
        }
    }
    lemma_digits_lt_pow10(secs);
    reveal_with_fuel(pow10, 11);
    assert(pow10(10) == 10_000_000_000);
}

} // verus!
