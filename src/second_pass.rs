//! Stability of the mention passes whose tokens hold no `*` and no inner
//! `<` (user, usergroup and broadcast mentions): once such a pass has run,
//! running it again over its output changes nothing, as long as the display
//! texts it puts in hold no `<`.
use vstd::prelude::*;

use crate::mention::{
    id_end, lemma_run_end_bounds, lookup, replacement, rewrite, rewritten, run_end, token_at, Class,
    Kind, Span,
};
use crate::text::lit_at;

verus! {

/// The kinds whose tokens hold neither `*` nor a `<` after their first character.
pub open spec fn is_closed_kind(kind: Kind) -> bool {
    kind == Kind::User || kind == Kind::Usergroup || kind == Kind::Special
}

pub open spec fn no_lt(x: Seq<char>) -> bool {
    forall|i: int| 0 <= i < x.len() ==> x[i] != '<'
}

/// No display text of the table holds `<`.
pub open spec fn texts_without_lt(t: Seq<(Seq<char>, Seq<char>)>) -> bool {
    forall|i: int| 0 <= i < t.len() ==> no_lt(#[trigger] t[i].1)
}

pub open spec fn shift(o: Option<Span>, d: int) -> Option<Span> {
    match o {
        Some(m) => Some(
            Span {
                end: m.end + d,
                key_lo: m.key_lo + d,
                key_hi: m.key_hi + d,
                label_lo: m.label_lo + d,
                label_hi: m.label_hi + d,
            },
        ),
        None => None,
    }
}

proof fn lemma_run_end_shift(cls: Class, x: Seq<char>, y: Seq<char>, j: int)
    requires
        0 <= j <= y.len(),
    ensures
        run_end(cls, x + y, x.len() + j) == x.len() + run_end(cls, y, j),
    decreases y.len() - j,
{
    let xy = x + y;
    if j < y.len() {
        assert(xy[x.len() + j] == y[j]);
        lemma_run_end_shift(cls, x, y, j + 1);
    }
}

proof fn lemma_lit_shift(x: Seq<char>, y: Seq<char>, k: int, lit: Seq<char>)
    requires
        0 <= k <= y.len(),
    ensures
        lit_at(x + y, x.len() + k, lit) == lit_at(y, k, lit),
{
    let xy = x + y;
    if k + lit.len() <= y.len() {
        assert(xy.subrange(x.len() + k, x.len() + k + lit.len()) =~= y.subrange(k, k + lit.len()));
    }
}

/// Where a token starts and ends depends on what follows its start only.
proof fn lemma_token_shift(kind: Kind, x: Seq<char>, y: Seq<char>, k: int)
    requires
        is_closed_kind(kind),
        0 <= k < y.len(),
    ensures
        token_at(kind, x + y, x.len() + k) == shift(token_at(kind, y, k), x.len() as int),
{
    let xy = x + y;
    let d = x.len() as int;
    reveal_strlit("<!subteam^");
    reveal_strlit("<!here>");
    reveal_strlit("<!channel>");
    reveal_strlit("<!everyone>");
    if k + 3 <= y.len() {
        lemma_run_end_shift(Class::Id, x, y, k + 3);
    }
    if k + 10 <= y.len() {
        lemma_run_end_shift(Class::Id, x, y, k + 10);
    }
    lemma_lit_shift(x, y, k, "<!subteam^"@);
    lemma_lit_shift(x, y, k, "<!here>"@);
    lemma_lit_shift(x, y, k, "<!channel>"@);
    lemma_lit_shift(x, y, k, "<!everyone>"@);
    if kind == Kind::User {
        if k + 3 < y.len() {
            let j = id_end(y, k + 3);
            lemma_run_end_bounds(Class::Id, y, k + 3);
            if j < y.len() {
                assert(xy[d + j] == y[j]);
            }
        }
    } else if kind == Kind::Usergroup {
        if k + 10 <= y.len() {
            let j = id_end(y, k + 10);
            lemma_run_end_bounds(Class::Id, y, k + 10);
            if j < y.len() {
                assert(xy[d + j] == y[j]);
            }
        }
    }
}

} // verus!

verus! {

proof fn lemma_rewrite_shift(
    kind: Kind,
    x: Seq<char>,
    y: Seq<char>,
    t: Seq<(Seq<char>, Seq<char>)>,
    k: int,
)
    requires
        is_closed_kind(kind),
        0 <= k <= y.len(),
    ensures
        rewrite(kind, x + y, t, x.len() + k) == rewrite(kind, y, t, k),
    decreases y.len() - k,
{
    let xy = x + y;
    let d = x.len() as int;
    if k < y.len() {
        lemma_token_shift(kind, x, y, k);
        crate::mention::lemma_token_bounds(kind, y, k);
        match token_at(kind, y, k) {
            Some(m) => {
                let sm = shift(Some(m), d)->0;
                assert(xy.subrange(sm.key_lo, sm.key_hi) =~= y.subrange(m.key_lo, m.key_hi));
                assert(xy.subrange(sm.label_lo, sm.label_hi) =~= y.subrange(m.label_lo, m.label_hi));
                assert(replacement(kind, xy, sm, t) == replacement(kind, y, m, t));
                assert(xy.subrange(d + k, sm.end) =~= y.subrange(k, m.end));
                lemma_rewrite_shift(kind, x, y, t, m.end);
            },
            None => {
                assert(xy.subrange(d + k, d + k + 1) =~= y.subrange(k, k + 1));
                lemma_rewrite_shift(kind, x, y, t, k + 1);
            },
        }
    }
}

proof fn lemma_run_chars(cls: Class, s: Seq<char>, j: int)
    requires
        0 <= j <= s.len(),
    ensures
        forall|c: int| j <= c < run_end(cls, s, j) ==> crate::mention::in_class(cls, #[trigger] s[c]),
    decreases s.len() - j,
{
    if j < s.len() && crate::mention::in_class(cls, s[j]) {
        lemma_run_chars(cls, s, j + 1);
    }
}

proof fn lemma_run_prefix(cls: Class, w: Seq<char>, v: Seq<char>, j: int)
    requires
        0 <= j <= run_end(cls, w, j) < w.len(),
        run_end(cls, w, j) < v.len(),
        forall|c: int| j <= c <= run_end(cls, w, j) ==> #[trigger] v[c] == w[c],
    ensures
        run_end(cls, v, j) == run_end(cls, w, j),
    decreases w.len() - j,
{
    assert(v[j] == w[j]);
    if j < w.len() && crate::mention::in_class(cls, w[j]) {
        assert(run_end(cls, w, j) == run_end(cls, w, j + 1));
        lemma_run_end_bounds(cls, w, j + 1);
        lemma_run_prefix(cls, w, v, j + 1);
        assert(run_end(cls, v, j) == run_end(cls, v, j + 1));
    }
}

/// A token at the start of `w` is a token at the start of any text that
/// begins with the same characters.
proof fn lemma_token_prefix(kind: Kind, w: Seq<char>, v: Seq<char>)
    requires
        is_closed_kind(kind),
        0 < w.len(),
        token_at(kind, w, 0) matches Some(m) && m.end <= v.len() && forall|c: int|
            0 <= c < m.end ==> #[trigger] v[c] == w[c],
    ensures
        token_at(kind, v, 0) == token_at(kind, w, 0),
{
    reveal_strlit("<!subteam^");
    reveal_strlit("<!here>");
    reveal_strlit("<!channel>");
    reveal_strlit("<!everyone>");
    let m = token_at(kind, w, 0)->0;
    crate::mention::lemma_token_bounds(kind, w, 0);
    if kind == Kind::User {
        lemma_run_end_bounds(Class::Id, w, 3);
        lemma_run_prefix(Class::Id, w, v, 3);
    } else if kind == Kind::Usergroup {
        assert(v.subrange(0, 10) =~= w.subrange(0, 10));
        lemma_run_end_bounds(Class::Id, w, 10);
        lemma_run_prefix(Class::Id, w, v, 10);
    } else {
        if lit_at(w, 0, "<!here>"@) {
            assert(v.subrange(0, 7) =~= w.subrange(0, 7));
        } else if lit_at(w, 0, "<!channel>"@) {
            assert(v.subrange(0, 10) =~= w.subrange(0, 10));
            assert(!lit_at(v, 0, "<!here>"@)) by {
                assert(v.subrange(0, 10)[2] == v[2]);
                assert(v[2] == 'c');
                assert(v.subrange(0, 7)[2] == v[2]);
            }
        } else {
            assert(v.subrange(0, 11) =~= w.subrange(0, 11));
            assert(v.subrange(0, 11)[2] == v[2]);
            assert(v[2] == 'e');
            assert(!lit_at(v, 0, "<!here>"@)) by {
                assert(v.subrange(0, 7)[2] == v[2]);
            }
            assert(!lit_at(v, 0, "<!channel>"@)) by {
                assert(v.subrange(0, 10)[2] == v[2]);
            }
        }
    }
}

/// A token opens with `<` and holds neither `<` nor `*` after that.
proof fn lemma_token_chars(kind: Kind, w: Seq<char>)
    requires
        is_closed_kind(kind),
        0 < w.len(),
        token_at(kind, w, 0) is Some,
    ensures
        w[0] == '<',
        forall|c: int|
            0 < c < token_at(kind, w, 0)->0.end ==> #[trigger] w[c] != '<' && w[c] != '*',
{
    reveal_strlit("<!subteam^");
    reveal_strlit("<!here>");
    reveal_strlit("<!channel>");
    reveal_strlit("<!everyone>");
    let m = token_at(kind, w, 0)->0;
    crate::mention::lemma_token_bounds(kind, w, 0);
    if kind == Kind::User {
        lemma_run_chars(Class::Id, w, 3);
    } else if kind == Kind::Usergroup {
        lemma_run_chars(Class::Id, w, 10);
        assert forall|c: int| 0 < c < 10 implies #[trigger] w[c] != '<' && w[c] != '*' by {
            assert(w.subrange(0, 10)[c] == w[c]);
        }
        assert(w.subrange(0, 10)[0] == w[0]);
    } else {
        if lit_at(w, 0, "<!here>"@) {
            assert forall|c: int| 0 <= c < 7 implies #[trigger] w[c] == "<!here>"@[c] by {
                assert(w.subrange(0, 7)[c] == w[c]);
            }
        } else if lit_at(w, 0, "<!channel>"@) {
            assert forall|c: int| 0 <= c < 10 implies #[trigger] w[c] == "<!channel>"@[c] by {
                assert(w.subrange(0, 10)[c] == w[c]);
            }
        } else {
            assert forall|c: int| 0 <= c < 11 implies #[trigger] w[c] == "<!everyone>"@[c] by {
                assert(w.subrange(0, 11)[c] == w[c]);
            }
        }
    }
}

} // verus!

verus! {

proof fn lemma_split_at(s: Seq<char>, i: int)
    requires
        0 <= i <= s.len(),
    ensures
        s == s.subrange(0, i) + s.subrange(i, s.len() as int),
{
    assert(s =~= s.subrange(0, i) + s.subrange(i, s.len() as int));
}

/// The token at `i`, read from the text that starts there.
proof fn lemma_token_here(kind: Kind, s: Seq<char>, i: int)
    requires
        is_closed_kind(kind),
        0 <= i < s.len(),
    ensures
        token_at(kind, s, i) == shift(token_at(kind, s.subrange(i, s.len() as int), 0), i),
{
    lemma_split_at(s, i);
    lemma_token_shift(kind, s.subrange(0, i), s.subrange(i, s.len() as int), 0);
}

/// Text without `<` holds no token, so a pass copies it through.
proof fn lemma_skip(kind: Kind, x: Seq<char>, y: Seq<char>, t: Seq<(Seq<char>, Seq<char>)>)
    requires
        is_closed_kind(kind),
        no_lt(x),
    ensures
        rewrite(kind, x + y, t, 0) == x + rewrite(kind, y, t, 0),
    decreases x.len(),
{
    if x.len() == 0 {
        assert(x + y =~= y);
        assert(x + rewrite(kind, y, t, 0) =~= rewrite(kind, y, t, 0));
    } else {
        let xy = x + y;
        let head = x.subrange(0, 1);
        let rest = x.subrange(1, x.len() as int);
        assert(xy =~= head + (rest + y));
        if token_at(kind, xy, 0) is Some {
            lemma_token_chars(kind, xy);
            assert(xy[0] == x[0]);
        }
        assert(xy.subrange(0, 1) =~= head);
        lemma_rewrite_shift(kind, head, rest + y, t, 0);
        assert(no_lt(rest)) by {
            assert forall|i: int| 0 <= i < rest.len() implies rest[i] != '<' by {
                assert(rest[i] == x[i + 1]);
            }
        }
        lemma_skip(kind, rest, y, t);
        assert(head + (rest + rewrite(kind, y, t, 0)) =~= x + rewrite(kind, y, t, 0));
    }
}

proof fn lemma_lookup_text(t: Seq<(Seq<char>, Seq<char>)>, key: Seq<char>, j: int)
    requires
        texts_without_lt(t),
        crate::mention::lookup_from(t, key, j) is Some,
    ensures
        no_lt(crate::mention::lookup_from(t, key, j)->0),
    decreases t.len() - j,
{
    if 0 <= j < t.len() && t[j].0 != key {
        lemma_lookup_text(t, key, j + 1);
    }
}

/// A replacement opens with `*`, and holds no `<` when the table's texts hold none.
proof fn lemma_replacement_text(kind: Kind, s: Seq<char>, i: int, t: Seq<(Seq<char>, Seq<char>)>)
    requires
        is_closed_kind(kind),
        texts_without_lt(t),
        0 <= i < s.len(),
        token_at(kind, s, i) is Some,
        replacement(kind, s, token_at(kind, s, i)->0, t) is Some,
    ensures
        ({
            let r = replacement(kind, s, token_at(kind, s, i)->0, t)->0;
            r.len() > 0 && r[0] == '*' && no_lt(r)
        }),
{
    reveal_strlit("**");
    reveal_strlit("@");
    let m = token_at(kind, s, i)->0;
    let key = s.subrange(m.key_lo, m.key_hi);
    crate::mention::lemma_token_bounds(kind, s, i);
    let name = if kind == Kind::Special {
        key
    } else {
        lookup(t, key)->0
    };
    if kind == Kind::Special {
        let y = s.subrange(i, s.len() as int);
        lemma_token_here(kind, s, i);
        lemma_token_chars(kind, y);
        assert forall|c: int| 0 <= c < key.len() implies key[c] != '<' by {
            assert(key[c] == s[m.key_lo + c]);
            assert(s[m.key_lo + c] == y[m.key_lo + c - i]);
        }
    } else {
        lemma_lookup_text(t, key, 0);
    }
    let r = "**"@ + "@"@ + name + "**"@;
    assert(replacement(kind, s, m, t)->0 == r);
    assert forall|c: int| 0 <= c < r.len() implies r[c] != '<' by {
        if 3 <= c < 3 + name.len() {
            assert(r[c] == name[c - 3]);
        }
    }
}

/// A token opens with `<`.
proof fn lemma_token_opens(kind: Kind, s: Seq<char>, i: int)
    requires
        is_closed_kind(kind),
        0 <= i < s.len(),
        token_at(kind, s, i) is Some,
    ensures
        s[i] == '<',
{
    let y = s.subrange(i, s.len() as int);
    lemma_token_here(kind, s, i);
    lemma_token_chars(kind, y);
}

/// Until its first `<` or `*`, a pass's output is its input.
proof fn lemma_output_prefix(kind: Kind, s: Seq<char>, t: Seq<(Seq<char>, Seq<char>)>, i: int, n: int)
    requires
        is_closed_kind(kind),
        texts_without_lt(t),
        0 <= i <= s.len(),
        0 <= n <= rewrite(kind, s, t, i).len(),
        forall|j: int|
            0 <= j < n ==> #[trigger] rewrite(kind, s, t, i)[j] != '<' && rewrite(kind, s, t, i)[j]
                != '*',
    ensures
        i + n <= s.len(),
        rewrite(kind, s, t, i).subrange(0, n) == s.subrange(i, i + n),
    decreases s.len() - i,
{
    let out = rewrite(kind, s, t, i);
    if n == 0 {
        assert(out.subrange(0, 0) =~= s.subrange(i, i));
    } else {
        assert(i < s.len());
        crate::mention::lemma_token_bounds(kind, s, i);
        match token_at(kind, s, i) {
            Some(m) => {
                match replacement(kind, s, m, t) {
                    Some(r) => {
                        lemma_replacement_text(kind, s, i, t);
                        assert(out[0] == r[0]);
                    },
                    None => {
                        lemma_token_opens(kind, s, i);
                        assert(out[0] == s.subrange(i, m.end)[0]);
                    },
                }
            },
            None => {
                let next = rewrite(kind, s, t, i + 1);
                assert(out == s.subrange(i, i + 1) + next);
                assert forall|j: int| 0 <= j < n - 1 implies #[trigger] next[j] != '<' && next[j]
                    != '*' by {
                    assert(out[j + 1] == next[j]);
                }
                lemma_output_prefix(kind, s, t, i + 1, n - 1);
                assert(out.subrange(0, n) =~= s.subrange(i, i + 1) + next.subrange(0, n - 1));
                assert(s.subrange(i, i + n) =~= s.subrange(i, i + 1) + s.subrange(i + 1, i + n));
            },
        }
    }
}

} // verus!

verus! {

proof fn lemma_stable_unresolved(kind: Kind, s: Seq<char>, t: Seq<(Seq<char>, Seq<char>)>, i: int)
    requires
        is_closed_kind(kind),
        0 <= i < s.len(),
        token_at(kind, s, i) is Some,
        replacement(kind, s, token_at(kind, s, i)->0, t) is None,
        ({
            let rest = rewrite(kind, s, t, token_at(kind, s, i)->0.end);
            rewrite(kind, rest, t, 0) == rest
        }),
    ensures
        rewrite(kind, rewrite(kind, s, t, i), t, 0) == rewrite(kind, s, t, i),
{
    crate::mention::lemma_token_bounds(kind, s, i);
    let m = token_at(kind, s, i)->0;
    let y = s.subrange(i, s.len() as int);
    lemma_token_here(kind, s, i);
    let rest = rewrite(kind, s, t, m.end);
    let u = s.subrange(i, m.end);
    let w = u + rest;
    assert(rewrite(kind, s, t, i) == w);
    let m0 = token_at(kind, y, 0)->0;
    assert forall|c: int| 0 <= c < m0.end implies #[trigger] w[c] == y[c] by {
        assert(w[c] == u[c]);
    }
    lemma_token_prefix(kind, y, w);
    assert(w.subrange(m0.key_lo, m0.key_hi) =~= s.subrange(m.key_lo, m.key_hi));
    assert(replacement(kind, w, m0, t) == replacement(kind, s, m, t));
    assert(w.subrange(0, m0.end) =~= u);
    lemma_rewrite_shift(kind, u, rest, t, 0);
}

proof fn lemma_no_token_after_lt(kind: Kind, s: Seq<char>, t: Seq<(Seq<char>, Seq<char>)>, i: int)
    requires
        is_closed_kind(kind),
        texts_without_lt(t),
        0 <= i < s.len(),
        token_at(kind, s, i) is None,
    ensures
        token_at(kind, s.subrange(i, i + 1) + rewrite(kind, s, t, i + 1), 0) is None,
{
    let y = s.subrange(i, s.len() as int);
    lemma_token_here(kind, s, i);
    let head = s.subrange(i, i + 1);
    let rest = rewrite(kind, s, t, i + 1);
    let w = head + rest;
    if token_at(kind, w, 0) is Some {
        let m0 = token_at(kind, w, 0)->0;
        lemma_token_chars(kind, w);
        crate::mention::lemma_token_bounds(kind, w, 0);
        let n = m0.end - 1;
        assert forall|j: int| 0 <= j < n implies #[trigger] rest[j] != '<' && rest[j] != '*' by {
            assert(w[j + 1] == rest[j]);
        }
        lemma_output_prefix(kind, s, t, i + 1, n);
        assert forall|c: int| 0 <= c < m0.end implies #[trigger] y[c] == w[c] by {
            if c > 0 {
                assert(w[c] == rest[c - 1]);
                assert(rest.subrange(0, n)[c - 1] == rest[c - 1]);
                assert(s.subrange(i + 1, i + 1 + n)[c - 1] == s[i + c]);
            }
        }
        lemma_token_prefix(kind, w, y);
        assert(false);
    }
}

proof fn lemma_stable_plain(kind: Kind, s: Seq<char>, t: Seq<(Seq<char>, Seq<char>)>, i: int)
    requires
        is_closed_kind(kind),
        texts_without_lt(t),
        0 <= i < s.len(),
        token_at(kind, s, i) is None,
        ({
            let rest = rewrite(kind, s, t, i + 1);
            rewrite(kind, rest, t, 0) == rest
        }),
    ensures
        rewrite(kind, rewrite(kind, s, t, i), t, 0) == rewrite(kind, s, t, i),
{
    let rest = rewrite(kind, s, t, i + 1);
    let head = s.subrange(i, i + 1);
    assert(rewrite(kind, s, t, i) == head + rest);
    if s[i] != '<' {
        assert(no_lt(head));
        lemma_skip(kind, head, rest, t);
    } else {
        let w = head + rest;
        lemma_no_token_after_lt(kind, s, t, i);
        assert(w.subrange(0, 1) =~= head);
        lemma_rewrite_shift(kind, head, rest, t, 0);
    }
}

proof fn lemma_stable_from(kind: Kind, s: Seq<char>, t: Seq<(Seq<char>, Seq<char>)>, i: int)
    requires
        is_closed_kind(kind),
        texts_without_lt(t),
        0 <= i <= s.len(),
    ensures
        rewrite(kind, rewrite(kind, s, t, i), t, 0) == rewrite(kind, s, t, i),
    decreases s.len() - i,
{
    if i == s.len() {
        assert(rewrite(kind, s, t, i) =~= Seq::<char>::empty());
    } else {
        crate::mention::lemma_token_bounds(kind, s, i);
        match token_at(kind, s, i) {
            Some(m) => {
                lemma_stable_from(kind, s, t, m.end);
                match replacement(kind, s, m, t) {
                    Some(r) => {
                        lemma_replacement_text(kind, s, i, t);
                        lemma_skip(kind, r, rewrite(kind, s, t, m.end), t);
                    },
                    None => {
                        lemma_stable_unresolved(kind, s, t, i);
                    },
                }
            },
            None => {
                lemma_stable_from(kind, s, t, i + 1);
                lemma_stable_plain(kind, s, t, i);
            },
        }
    }
}

/// A second user, usergroup or broadcast pass over the output of the first
/// leaves it unchanged, when no display text of the table holds `<`: the
/// first pass leaves no token of its grammar that a second could resolve.
pub proof fn lemma_second_pass_changes_nothing(
    kind: Kind,
    s: Seq<char>,
    t: Seq<(Seq<char>, Seq<char>)>,
)
    requires
        is_closed_kind(kind),
        texts_without_lt(t),
    ensures
        rewritten(kind, rewritten(kind, s, t), t) == rewritten(kind, s, t),
{
    lemma_stable_from(kind, s, t, 0);
}

} // verus!
