//! The five mention grammars and the rewrite pass that turns their tokens into
//! display text.
//!
//! A pass scans its input left to right. At each position it tries its one
//! grammar; a token that matches is replaced when its key resolves, and passes
//! through verbatim otherwise. Text between tokens is copied unchanged.
use vstd::prelude::*;

use crate::text::{chars_of, has_lit_at, lit_at};

verus! {

/// Which token grammar a pass looks for.
#[derive(Clone, Copy, Debug, PartialEq, Eq, Structural)]
pub enum Kind {
    /// `<#C123>` or `<#C123|label>`
    Channel,
    /// `<@U123>`
    User,
    /// `<!subteam^S123>`
    Usergroup,
    /// `<!here>`, `<!channel>`, `<!everyone>`
    Special,
    /// `<url|label>`
    Link,
}

/// Where a token lies in the text: it ends (exclusive) at `end`, its key
/// (an id, a broadcast word or a url) is `key_lo..key_hi`, its label is
/// `label_lo..label_hi` (empty when it has none).
pub ghost struct Span {
    pub end: int,
    pub key_lo: int,
    pub key_hi: int,
    pub label_lo: int,
    pub label_hi: int,
}

/// A token found by a scan, in character offsets.
#[derive(Clone, Copy, Debug)]
pub struct Token {
    pub end: usize,
    pub key_lo: usize,
    pub key_hi: usize,
    pub label_lo: usize,
    pub label_hi: usize,
}

impl View for Token {
    type V = Span;

    open spec fn view(&self) -> Span {
        Span {
            end: self.end as int,
            key_lo: self.key_lo as int,
            key_hi: self.key_hi as int,
            label_lo: self.label_lo as int,
            label_hi: self.label_hi as int,
        }
    }
}

/// The character classes that token parts are made of.
#[derive(Clone, Copy, Debug, PartialEq, Eq, Structural)]
pub enum Class {
    /// `A`-`Z` and `0`-`9`
    Id,
    /// anything but `|`, `<` and `>`
    Url,
    /// anything but `>`
    Label,
}

pub open spec fn in_class(cls: Class, c: char) -> bool {
    match cls {
        Class::Id => ('A' <= c && c <= 'Z') || ('0' <= c && c <= '9'),
        Class::Url => c != '|' && c != '<' && c != '>',
        Class::Label => c != '>',
    }
}

/// End of the run of characters of class `cls` that starts at `j`.
pub open spec fn run_end(cls: Class, s: Seq<char>, j: int) -> int
    decreases s.len() - j,
{
    if 0 <= j < s.len() && in_class(cls, s[j]) {
        run_end(cls, s, j + 1)
    } else {
        j
    }
}

pub open spec fn id_end(s: Seq<char>, j: int) -> int {
    run_end(Class::Id, s, j)
}

pub open spec fn url_end(s: Seq<char>, j: int) -> int {
    run_end(Class::Url, s, j)
}

pub open spec fn label_end(s: Seq<char>, j: int) -> int {
    run_end(Class::Label, s, j)
}

/// `<#` then `C` or `G` and one or more id characters, then `>` or `|label>`.
pub open spec fn channel_at(s: Seq<char>, i: int) -> Option<Span> {
    if 0 <= i && i + 3 < s.len() && s[i] == '<' && s[i + 1] == '#' && (s[i + 2] == 'C' || s[i
        + 2] == 'G') {
        let j = id_end(s, i + 3);
        if j > i + 3 && j < s.len() && s[j] == '>' {
            Some(Span { end: j + 1, key_lo: i + 2, key_hi: j, label_lo: j, label_hi: j })
        } else if j > i + 3 && j < s.len() && s[j] == '|' && label_end(s, j + 1) < s.len() {
            let k = label_end(s, j + 1);
            Some(Span { end: k + 1, key_lo: i + 2, key_hi: j, label_lo: j + 1, label_hi: k })
        } else {
            None
        }
    } else {
        None
    }
}

/// `<@` then `U` or `W` and one or more id characters, then `>`.
pub open spec fn user_at(s: Seq<char>, i: int) -> Option<Span> {
    if 0 <= i && i + 3 < s.len() && s[i] == '<' && s[i + 1] == '@' && (s[i + 2] == 'U' || s[i
        + 2] == 'W') {
        let j = id_end(s, i + 3);
        if j > i + 3 && j < s.len() && s[j] == '>' {
            Some(Span { end: j + 1, key_lo: i + 2, key_hi: j, label_lo: j, label_hi: j })
        } else {
            None
        }
    } else {
        None
    }
}

/// `<!subteam^`, one or more id characters, then `>`.
pub open spec fn usergroup_at(s: Seq<char>, i: int) -> Option<Span> {
    if lit_at(s, i, "<!subteam^"@) {
        let j = id_end(s, i + 10);
        if j > i + 10 && j < s.len() && s[j] == '>' {
            Some(Span { end: j + 1, key_lo: i + 10, key_hi: j, label_lo: j, label_hi: j })
        } else {
            None
        }
    } else {
        None
    }
}

/// `<!here>`, `<!channel>` or `<!everyone>`; the key is the word.
pub open spec fn special_at(s: Seq<char>, i: int) -> Option<Span> {
    if lit_at(s, i, "<!here>"@) {
        Some(Span { end: i + 7, key_lo: i + 2, key_hi: i + 6, label_lo: i + 6, label_hi: i + 6 })
    } else if lit_at(s, i, "<!channel>"@) {
        Some(Span { end: i + 10, key_lo: i + 2, key_hi: i + 9, label_lo: i + 9, label_hi: i + 9 })
    } else if lit_at(s, i, "<!everyone>"@) {
        Some(
            Span { end: i + 11, key_lo: i + 2, key_hi: i + 10, label_lo: i + 10, label_hi: i + 10 },
        )
    } else {
        None
    }
}

/// `<`, one or more url characters, `|`, one or more label characters, `>`.
pub open spec fn link_at(s: Seq<char>, i: int) -> Option<Span> {
    if 0 <= i && i < s.len() && s[i] == '<' {
        let j = url_end(s, i + 1);
        if j > i + 1 && j < s.len() && s[j] == '|' {
            let k = label_end(s, j + 1);
            if k > j + 1 && k < s.len() {
                Some(Span { end: k + 1, key_lo: i + 1, key_hi: j, label_lo: j + 1, label_hi: k })
            } else {
                None
            }
        } else {
            None
        }
    } else {
        None
    }
}

/// The token of grammar `kind` that starts at `i`, if any.
pub open spec fn token_at(kind: Kind, s: Seq<char>, i: int) -> Option<Span> {
    match kind {
        Kind::Channel => channel_at(s, i),
        Kind::User => user_at(s, i),
        Kind::Usergroup => usergroup_at(s, i),
        Kind::Special => special_at(s, i),
        Kind::Link => link_at(s, i),
    }
}

/// A lookup table from keys to display text, as sequences of characters.
pub open spec fn table_view(t: Seq<(String, String)>) -> Seq<(Seq<char>, Seq<char>)> {
    t.map_values(|p: (String, String)| (p.0@, p.1@))
}

/// The text of the first entry for `key` at or after position `j`.
pub open spec fn lookup_from(t: Seq<(Seq<char>, Seq<char>)>, key: Seq<char>, j: int) -> Option<
    Seq<char>,
>
    decreases t.len() - j,
{
    if j < 0 || j >= t.len() {
        None
    } else if t[j].0 == key {
        Some(t[j].1)
    } else {
        lookup_from(t, key, j + 1)
    }
}

/// The text of the first entry for `key`.
pub open spec fn lookup(t: Seq<(Seq<char>, Seq<char>)>, key: Seq<char>) -> Option<Seq<char>> {
    lookup_from(t, key, 0)
}

/// `**{prefix}{name}**`
pub open spec fn bold(prefix: Seq<char>, name: Seq<char>) -> Seq<char> {
    "**"@ + prefix + name + "**"@
}

/// What a token is replaced with, or `None` when it passes through verbatim.
pub open spec fn replacement(kind: Kind, s: Seq<char>, m: Span, t: Seq<(Seq<char>, Seq<char>)>) -> Option<
    Seq<char>,
> {
    let key = s.subrange(m.key_lo, m.key_hi);
    match kind {
        Kind::Channel => match lookup(t, key) {
            Some(name) => Some(bold("#"@, name)),
            None => None,
        },
        Kind::User | Kind::Usergroup => match lookup(t, key) {
            Some(name) => Some(bold("@"@, name)),
            None => None,
        },
        Kind::Special => Some(bold("@"@, key)),
        Kind::Link => Some("["@ + s.subrange(m.label_lo, m.label_hi) + "]("@ + key + ")"@),
    }
}

/// The output of a pass over `s` from position `i` on.
pub open spec fn rewrite(kind: Kind, s: Seq<char>, t: Seq<(Seq<char>, Seq<char>)>, i: int) -> Seq<
    char,
>
    decreases s.len() - i,
{
    if i < 0 || i >= s.len() {
        Seq::empty()
    } else {
        match token_at(kind, s, i) {
            Some(m) => if i < m.end <= s.len() {
                match replacement(kind, s, m, t) {
                    Some(r) => r + rewrite(kind, s, t, m.end),
                    None => s.subrange(i, m.end) + rewrite(kind, s, t, m.end),
                }
            } else {
                Seq::empty()
            },
            None => s.subrange(i, i + 1) + rewrite(kind, s, t, i + 1),
        }
    }
}

/// The output of a whole pass.
pub open spec fn rewritten(kind: Kind, s: Seq<char>, t: Seq<(Seq<char>, Seq<char>)>) -> Seq<char> {
    rewrite(kind, s, t, 0)
}

} // verus!

verus! {

/// `r` is the exec form of the span `o`.
pub open spec fn same_token(r: Option<Token>, o: Option<Span>) -> bool {
    match r {
        Some(t) => o == Some(t@),
        None => o is None,
    }
}

fn in_class_exec(cls: Class, c: char) -> (r: bool)
    ensures
        r == in_class(cls, c),
{
    match cls {
        Class::Id => ('A' <= c && c <= 'Z') || ('0' <= c && c <= '9'),
        Class::Url => c != '|' && c != '<' && c != '>',
        Class::Label => c != '>',
    }
}

pub proof fn lemma_run_end_bounds(cls: Class, s: Seq<char>, j: int)
    requires
        0 <= j <= s.len(),
    ensures
        j <= run_end(cls, s, j) <= s.len(),
        run_end(cls, s, j) < s.len() ==> !in_class(cls, s[run_end(cls, s, j)]),
    decreases s.len() - j,
{
    if j < s.len() && in_class(cls, s[j]) {
        lemma_run_end_bounds(cls, s, j + 1);
    }
}

/// A token lies within the text, after its start, and its parts lie within it.
pub proof fn lemma_token_bounds(kind: Kind, s: Seq<char>, i: int)
    requires
        0 <= i < s.len(),
    ensures
        token_at(kind, s, i) matches Some(m) ==> i < m.end <= s.len() && i <= m.key_lo <= m.key_hi
            <= m.end && m.key_lo <= m.label_lo <= m.label_hi <= m.end,
{
    reveal_strlit("<!subteam^");
    reveal_strlit("<!here>");
    reveal_strlit("<!channel>");
    reveal_strlit("<!everyone>");
    if i + 3 <= s.len() {
        lemma_run_end_bounds(Class::Id, s, i + 3);
    }
    if i + 10 <= s.len() {
        lemma_run_end_bounds(Class::Id, s, i + 10);
    }
    lemma_run_end_bounds(Class::Url, s, i + 1);
    let j = url_end(s, i + 1);
    if j < s.len() {
        lemma_run_end_bounds(Class::Label, s, j + 1);
    }
    let j2 = id_end(s, i + 3);
    if i + 3 <= s.len() && j2 < s.len() {
        lemma_run_end_bounds(Class::Label, s, j2 + 1);
    }
}

fn scan_run(cls: Class, s: &Vec<char>, j: usize) -> (r: usize)
    requires
        j <= s@.len(),
    ensures
        r as int == run_end(cls, s@, j as int),
        j <= r <= s@.len(),
{
    let mut k = j;
    while k < s.len() && in_class_exec(cls, s[k])
        invariant
            j <= k <= s@.len(),
            run_end(cls, s@, k as int) == run_end(cls, s@, j as int),
        decreases s.len() - k,
    {
        k = k + 1;
    }
    k
}

fn channel_token(s: &Vec<char>, i: usize) -> (r: Option<Token>)
    requires
        i < s@.len(),
    ensures
        same_token(r, channel_at(s@, i as int)),
{
    let n = s.len();
    if i < n && n - i > 3 && s[i] == '<' && s[i + 1] == '#' && (s[i + 2] == 'C' || s[i + 2] == 'G') {
        let j = scan_run(Class::Id, s, i + 3);
        if j > i + 3 && j < s.len() && s[j] == '>' {
            Some(Token { end: j + 1, key_lo: i + 2, key_hi: j, label_lo: j, label_hi: j })
        } else if j > i + 3 && j < s.len() && s[j] == '|' {
            let k = scan_run(Class::Label, s, j + 1);
            if k < s.len() {
                Some(Token { end: k + 1, key_lo: i + 2, key_hi: j, label_lo: j + 1, label_hi: k })
            } else {
                None
            }
        } else {
            None
        }
    } else {
        None
    }
}

fn user_token(s: &Vec<char>, i: usize) -> (r: Option<Token>)
    requires
        i < s@.len(),
    ensures
        same_token(r, user_at(s@, i as int)),
{
    let n = s.len();
    if i < n && n - i > 3 && s[i] == '<' && s[i + 1] == '@' && (s[i + 2] == 'U' || s[i + 2] == 'W') {
        let j = scan_run(Class::Id, s, i + 3);
        if j > i + 3 && j < s.len() && s[j] == '>' {
            Some(Token { end: j + 1, key_lo: i + 2, key_hi: j, label_lo: j, label_hi: j })
        } else {
            None
        }
    } else {
        None
    }
}

fn usergroup_token(s: &Vec<char>, i: usize) -> (r: Option<Token>)
    requires
        i < s@.len(),
    ensures
        same_token(r, usergroup_at(s@, i as int)),
{
    let n = s.len();
    if has_lit_at(s, i, "<!subteam^") {
        proof {
            reveal_strlit("<!subteam^");
        }
        let j = scan_run(Class::Id, s, i + 10);
        if j > i + 10 && j < s.len() && s[j] == '>' {
            Some(Token { end: j + 1, key_lo: i + 10, key_hi: j, label_lo: j, label_hi: j })
        } else {
            None
        }
    } else {
        None
    }
}

fn special_token(s: &Vec<char>, i: usize) -> (r: Option<Token>)
    requires
        i < s@.len(),
    ensures
        same_token(r, special_at(s@, i as int)),
{
    let n = s.len();
    proof {
        reveal_strlit("<!here>");
        reveal_strlit("<!channel>");
        reveal_strlit("<!everyone>");
    }
    if has_lit_at(s, i, "<!here>") {
        Some(Token { end: i + 7, key_lo: i + 2, key_hi: i + 6, label_lo: i + 6, label_hi: i + 6 })
    } else if has_lit_at(s, i, "<!channel>") {
        Some(Token { end: i + 10, key_lo: i + 2, key_hi: i + 9, label_lo: i + 9, label_hi: i + 9 })
    } else if has_lit_at(s, i, "<!everyone>") {
        Some(
            Token {
                end: i + 11,
                key_lo: i + 2,
                key_hi: i + 10,
                label_lo: i + 10,
                label_hi: i + 10,
            },
        )
    } else {
        None
    }
}

fn link_token(s: &Vec<char>, i: usize) -> (r: Option<Token>)
    requires
        i < s@.len(),
    ensures
        same_token(r, link_at(s@, i as int)),
{
    let n = s.len();
    if s[i] == '<' {
        let j = scan_run(Class::Url, s, i + 1);
        if j > i + 1 && j < s.len() && s[j] == '|' {
            let k = scan_run(Class::Label, s, j + 1);
            if k > j + 1 && k < s.len() {
                Some(Token { end: k + 1, key_lo: i + 1, key_hi: j, label_lo: j + 1, label_hi: k })
            } else {
                None
            }
        } else {
            None
        }
    } else {
        None
    }
}

/// The token of grammar `kind` that starts at `i`, if any.
pub fn token_at_exec(kind: Kind, s: &Vec<char>, i: usize) -> (r: Option<Token>)
    requires
        i < s@.len(),
    ensures
        same_token(r, token_at(kind, s@, i as int)),
        r matches Some(t) ==> i < t.end <= s@.len() && i <= t.key_lo <= t.key_hi <= t.end && t.key_lo
            <= t.label_lo <= t.label_hi <= t.end,
{
    proof {
        lemma_token_bounds(kind, s@, i as int);
    }
    let r = match kind {
        Kind::Channel => channel_token(s, i),
        Kind::User => user_token(s, i),
        Kind::Usergroup => usergroup_token(s, i),
        Kind::Special => special_token(s, i),
        Kind::Link => link_token(s, i),
    };
    r
}

} // verus!

verus! {

/// The display text of the first entry of `t` for `key`.
pub fn lookup_exec(t: &Vec<(String, String)>, key: &String) -> (r: Option<String>)
    ensures
        r matches Some(v) ==> lookup(table_view(t@), key@) == Some(v@),
        r is None ==> lookup(table_view(t@), key@) is None,
{
    let mut j: usize = 0;
    while j < t.len()
        invariant
            j <= t@.len(),
            lookup_from(table_view(t@), key@, j as int) == lookup(table_view(t@), key@),
        decreases t.len() - j,
    {
        if t[j].0 == *key {
            return Some(t[j].1.clone());
        }
        j = j + 1;
    }
    None
}

fn bold_exec(prefix: &str, name: &str) -> (r: String)
    ensures
        r@ == bold(prefix@, name@),
{
    let mut r = String::new();
    r.append("**");
    r.append(prefix);
    r.append(name);
    r.append("**");
    r
}

fn replacement_exec(
    kind: Kind,
    body: &str,
    s: &Vec<char>,
    tok: Token,
    t: &Vec<(String, String)>,
) -> (r: Option<String>)
    requires
        s@ == body@,
        tok.key_lo <= tok.key_hi <= s@.len(),
        tok.label_lo <= tok.label_hi <= s@.len(),
    ensures
        r matches Some(v) ==> replacement(kind, s@, tok@, table_view(t@)) == Some(v@),
        r is None ==> replacement(kind, s@, tok@, table_view(t@)) is None,
{
    let key = body.substring_char(tok.key_lo, tok.key_hi).to_owned();
    match kind {
        Kind::Channel => match lookup_exec(t, &key) {
            Some(name) => Some(bold_exec("#", name.as_str())),
            None => None,
        },
        Kind::User | Kind::Usergroup => match lookup_exec(t, &key) {
            Some(name) => Some(bold_exec("@", name.as_str())),
            None => None,
        },
        Kind::Special => Some(bold_exec("@", key.as_str())),
        Kind::Link => {
            let mut r = String::new();
            r.append("[");
            r.append(body.substring_char(tok.label_lo, tok.label_hi));
            r.append("](");
            r.append(key.as_str());
            r.append(")");
            Some(r)
        },
    }
}

/// Runs one pass of grammar `kind` over `body`: each token whose key resolves
/// in `table` (or that needs no lookup) is replaced, every other character is
/// kept in place.
pub fn rewrite_pass(kind: Kind, body: &str, table: &Vec<(String, String)>) -> (r: String)
    ensures
        r@ == rewritten(kind, body@, table_view(table@)),
{
    let ghost t = table_view(table@);
    let s = chars_of(body);
    let n = s.len();
    let mut out = String::new();
    let mut last: usize = 0;
    let mut i: usize = 0;
    while i < n
        invariant
            n == s@.len(),
            s@ == body@,
            t == table_view(table@),
            last <= i <= n,
            out@ + s@.subrange(last as int, i as int) + rewrite(kind, s@, t, i as int) == rewrite(
                kind,
                s@,
                t,
                0,
            ),
        decreases n - i,
    {
        let ghost before = rewrite(kind, s@, t, i as int);
        match token_at_exec(kind, &s, i) {
            Some(tok) => {
                match replacement_exec(kind, body, &s, tok, table) {
                    Some(rep) => {
                        assert(before == rep@ + rewrite(kind, s@, t, tok.end as int));
                        out.append(body.substring_char(last, i));
                        out.append(rep.as_str());
                        i = tok.end;
                        last = i;
                        assert(s@.subrange(last as int, i as int) =~= Seq::<char>::empty());
                    },
                    None => {
                        let ghost old_i = i;
                        assert(before == s@.subrange(i as int, tok.end as int) + rewrite(
                            kind,
                            s@,
                            t,
                            tok.end as int,
                        ));
                        i = tok.end;
                        assert(s@.subrange(last as int, old_i as int) + s@.subrange(
                            old_i as int,
                            i as int,
                        ) =~= s@.subrange(last as int, i as int));
                    },
                }
            },
            None => {
                assert(before == s@.subrange(i as int, i + 1) + rewrite(kind, s@, t, i + 1));
                assert(s@.subrange(last as int, i as int) + s@.subrange(i as int, i + 1)
                    =~= s@.subrange(last as int, i + 1));
                i = i + 1;
            },
        }
    }
    out.append(body.substring_char(last, n));
    assert(rewrite(kind, s@, t, n as int) =~= Seq::<char>::empty());
    out
}

} // verus!

verus! {

/// The spans that a pass cuts `s` into from position `i` on: each token it
/// matches, and each single character outside a token.
pub open spec fn pieces(kind: Kind, s: Seq<char>, i: int) -> Seq<(int, int)>
    decreases s.len() - i,
{
    if i < 0 || i >= s.len() {
        Seq::empty()
    } else {
        match token_at(kind, s, i) {
            Some(m) => if i < m.end <= s.len() {
                seq![(i, m.end)] + pieces(kind, s, m.end)
            } else {
                Seq::empty()
            },
            None => seq![(i, i + 1)] + pieces(kind, s, i + 1),
        }
    }
}

/// What a pass emits for the span `p`: the replacement of the token there, or
/// the span's own text when it is no token or its token stays unresolved.
pub open spec fn piece_output(kind: Kind, s: Seq<char>, t: Seq<(Seq<char>, Seq<char>)>, p: (
    int,
    int,
)) -> Seq<char> {
    match token_at(kind, s, p.0) {
        Some(m) => match replacement(kind, s, m, t) {
            Some(r) => if m.end == p.1 {
                r
            } else {
                s.subrange(p.0, p.1)
            },
            None => s.subrange(p.0, p.1),
        },
        None => s.subrange(p.0, p.1),
    }
}

proof fn lemma_flatten_cons(x: Seq<char>, rest: Seq<Seq<char>>)
    ensures
        (seq![x] + rest).flatten() == x + rest.flatten(),
{
    let whole = seq![x] + rest;
    assert(whole.drop_first() =~= rest);
    assert(whole[0] == x);
}

proof fn lemma_pieces_from(kind: Kind, s: Seq<char>, t: Seq<(Seq<char>, Seq<char>)>, i: int)
    requires
        0 <= i <= s.len(),
    ensures
        pieces(kind, s, i).map_values(|p: (int, int)| s.subrange(p.0, p.1)).flatten()
            == s.subrange(i, s.len() as int),
        pieces(kind, s, i).map_values(|p: (int, int)| piece_output(kind, s, t, p)).flatten()
            == rewrite(kind, s, t, i),
        forall|j: int|
            0 <= j < pieces(kind, s, i).len() ==> i <= (#[trigger] pieces(kind, s, i)[j]).0
                < pieces(kind, s, i)[j].1 <= s.len(),
    decreases s.len() - i,
{
    let f = |p: (int, int)| s.subrange(p.0, p.1);
    let g = |p: (int, int)| piece_output(kind, s, t, p);
    if i == s.len() {
        assert(s.subrange(i, s.len() as int) =~= Seq::<char>::empty());
    } else {
        lemma_token_bounds(kind, s, i);
        let e = match token_at(kind, s, i) {
            Some(m) => m.end,
            None => i + 1,
        };
        lemma_pieces_from(kind, s, t, e);
        let rest = pieces(kind, s, e);
        assert(pieces(kind, s, i) == seq![(i, e)] + rest);
        assert((seq![(i, e)] + rest).map_values(f) =~= seq![f((i, e))] + rest.map_values(f));
        assert((seq![(i, e)] + rest).map_values(g) =~= seq![g((i, e))] + rest.map_values(g));
        lemma_flatten_cons(f((i, e)), rest.map_values(f));
        lemma_flatten_cons(g((i, e)), rest.map_values(g));
        assert(s.subrange(i, e) + s.subrange(e, s.len() as int) =~= s.subrange(i, s.len() as int));
    }
}

/// Coverage of a pass: the spans it works on tile its input in order, with no
/// character dropped or repeated, and its output is what it emits for each
/// span in turn, either a replacement or the span's own text.
pub proof fn lemma_pass_covers_input(kind: Kind, s: Seq<char>, t: Seq<(Seq<char>, Seq<char>)>)
    ensures
        pieces(kind, s, 0).map_values(|p: (int, int)| s.subrange(p.0, p.1)).flatten() == s,
        pieces(kind, s, 0).map_values(|p: (int, int)| piece_output(kind, s, t, p)).flatten()
            == rewritten(kind, s, t),
        forall|j: int|
            0 <= j < pieces(kind, s, 0).len() ==> 0 <= (#[trigger] pieces(kind, s, 0)[j]).0
                < pieces(kind, s, 0)[j].1 <= s.len(),
        forall|j: int|
            0 <= j < pieces(kind, s, 0).len() - 1 ==> (#[trigger] pieces(kind, s, 0)[j]).1
                == pieces(kind, s, 0)[j + 1].0,
{
    lemma_pieces_from(kind, s, t, 0);
    assert(s.subrange(0, s.len() as int) =~= s);
    lemma_pieces_adjacent(kind, s, 0);
}

proof fn lemma_pieces_adjacent(kind: Kind, s: Seq<char>, i: int)
    requires
        0 <= i <= s.len(),
    ensures
        pieces(kind, s, i).len() > 0 ==> pieces(kind, s, i)[0].0 == i,
        forall|j: int|
            0 <= j < pieces(kind, s, i).len() - 1 ==> (#[trigger] pieces(kind, s, i)[j]).1
                == pieces(kind, s, i)[j + 1].0,
    decreases s.len() - i,
{
    if i < s.len() {
        lemma_token_bounds(kind, s, i);
        let e = match token_at(kind, s, i) {
            Some(m) => m.end,
            None => i + 1,
        };
        lemma_pieces_adjacent(kind, s, e);
        let rest = pieces(kind, s, e);
        let all = pieces(kind, s, i);
        assert(all == seq![(i, e)] + rest);
        assert forall|j: int| 0 <= j < all.len() - 1 implies (#[trigger] all[j]).1 == all[j
            + 1].0 by {
            if j > 0 {
                assert(all[j] == rest[j - 1]);
                assert(all[j + 1] == rest[j]);
            } else {
                lemma_pieces_from(kind, s, Seq::empty(), e);
            }
        }
    }
}

} // verus!

verus! {

/// The keys of the tokens that a pass of grammar `kind` meets from `i` on,
/// in order, repeats included.
pub open spec fn token_keys(kind: Kind, s: Seq<char>, i: int) -> Seq<Seq<char>>
    decreases s.len() - i,
{
    if i < 0 || i >= s.len() {
        Seq::empty()
    } else {
        match token_at(kind, s, i) {
            Some(m) => if i < m.end <= s.len() {
                seq![s.subrange(m.key_lo, m.key_hi)] + token_keys(kind, s, m.end)
            } else {
                Seq::empty()
            },
            None => token_keys(kind, s, i + 1),
        }
    }
}

/// The keys (channel, user or usergroup ids) of the tokens of grammar `kind`
/// in `body`, in order; these are what a pass needs looked up.
pub fn mention_keys(kind: Kind, body: &str) -> (r: Vec<String>)
    ensures
        crate::text::strings_view(r@) == token_keys(kind, body@, 0),
{
    let s = chars_of(body);
    let n = s.len();
    let mut keys: Vec<String> = Vec::new();
    let mut i: usize = 0;
    while i < n
        invariant
            n == s@.len(),
            s@ == body@,
            i <= n,
            crate::text::strings_view(keys@) + token_keys(kind, s@, i as int) == token_keys(
                kind,
                s@,
                0,
            ),
        decreases n - i,
    {
        match token_at_exec(kind, &s, i) {
            Some(tok) => {
                let key = body.substring_char(tok.key_lo, tok.key_hi).to_owned();
                let ghost before = keys@;
                keys.push(key);
                assert(crate::text::strings_view(keys@) =~= crate::text::strings_view(before)
                    + seq![key@]);
                assert(token_keys(kind, s@, i as int) == seq![key@] + token_keys(
                    kind,
                    s@,
                    tok.end as int,
                ));
                assert(crate::text::strings_view(before) + seq![key@] + token_keys(
                    kind,
                    s@,
                    tok.end as int,
                ) =~= crate::text::strings_view(before) + (seq![key@] + token_keys(
                    kind,
                    s@,
                    tok.end as int,
                )));
                i = tok.end;
            },
            None => {
                i = i + 1;
            },
        }
    }
    assert(token_keys(kind, s@, n as int) =~= Seq::<Seq<char>>::empty());
    assert(crate::text::strings_view(keys@) + Seq::<Seq<char>>::empty() =~= crate::text::strings_view(keys@));
    keys
}

} // verus!
