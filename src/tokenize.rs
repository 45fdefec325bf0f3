use vstd::prelude::*;

use crate::text::{chars_of, push_char, strings_view};

verus! {

/// Characters that separate the arguments of an `Exec` value.
pub open spec fn is_blank(c: char) -> bool {
    c == ' ' || c == '\t' || c == '\n' || c == '\r'
}

/// Characters that a backslash escapes inside a quoted run.
pub open spec fn is_escapable(c: char) -> bool {
    c == '"' || c == '`' || c == '$' || c == '\\'
}

/// Reads the rest `s` of an `Exec` value, given the tokens finished so far,
/// the token being built, whether a token has been started and whether a
/// quoted run is open. `None` when a quoted run is never closed.
pub open spec fn scan(
    s: Seq<char>,
    toks: Seq<Seq<char>>,
    cur: Seq<char>,
    started: bool,
    quoted: bool,
) -> Option<Seq<Seq<char>>>
    decreases s.len(),
{
    if s.len() == 0 {
        if quoted {
            None
        } else if started {
            Some(toks.push(cur))
        } else {
            Some(toks)
        }
    } else {
        let c = s[0];
        let rest = s.drop_first();
        if quoted {
            if c == '"' {
                scan(rest, toks, cur, true, false)
            } else if c == '\\' && rest.len() > 0 && is_escapable(rest[0]) {
                scan(rest.drop_first(), toks, cur.push(rest[0]), true, true)
            } else {
                scan(rest, toks, cur.push(c), true, true)
            }
        } else if is_blank(c) {
            if started {
                scan(rest, toks.push(cur), Seq::empty(), false, false)
            } else {
                scan(rest, toks, cur, false, false)
            }
        } else if c == '"' {
            scan(rest, toks, cur, true, true)
        } else {
            scan(rest, toks, cur.push(c), true, false)
        }
    }
}

/// The tokens of an `Exec` value, or `None` for an unterminated quote.
pub open spec fn exec_tokens(s: Seq<char>) -> Option<Seq<Seq<char>>> {
    scan(s, Seq::empty(), Seq::empty(), false, false)
}

/// Splits an `Exec` value into its arguments: unquoted blanks separate them,
/// a double quote opens a run that the next unescaped double quote closes, and
/// inside such a run a backslash escapes `"`, `` ` ``, `$` and `\` only.
pub fn tokenize(exec: &str) -> (r: Option<Vec<String>>)
    ensures
        r.is_some() == exec_tokens(exec@).is_some(),
        r.is_some() ==> strings_view(r->0@) == exec_tokens(exec@)->0,
{
    let cs = chars_of(exec);
    let n = cs.len();
    let mut toks: Vec<String> = Vec::new();
    let mut cur = String::new();
    let mut started = false;
    let mut quoted = false;
    let mut i: usize = 0;
    assert(cs@.subrange(0, n as int) =~= cs@);
    assert(strings_view(toks@) =~= Seq::<Seq<char>>::empty());
    while i < n
        invariant
            n == cs@.len(),
            cs@ == exec@,
            i <= n,
            quoted ==> started,
            exec_tokens(exec@) == scan(
                cs@.subrange(i as int, n as int),
                strings_view(toks@),
                cur@,
                started,
                quoted,
            ),
        decreases n - i,
    {
        let ghost s = cs@.subrange(i as int, n as int);
        assert(s.drop_first() =~= cs@.subrange(i + 1, n as int));
        let c = cs[i];
        assert(s[0] == c);
        assert(i + 1 < n ==> s.drop_first()[0] == cs@[i + 1]);
        if quoted {
            if c == '"' {
                quoted = false;
                i = i + 1;
            } else if c == '\\' && i + 1 < n && (cs[i + 1] == '"' || cs[i + 1] == '`'
                || cs[i + 1] == '$' || cs[i + 1] == '\\') {
                assert(s.drop_first().drop_first() =~= cs@.subrange(i + 2, n as int));
                push_char(&mut cur, cs[i + 1]);
                i = i + 2;
            } else {
                push_char(&mut cur, c);
                i = i + 1;
            }
        } else if c == ' ' || c == '\t' || c == '\n' || c == '\r' {
            if started {
                let ghost before = toks@;
                toks.push(cur);
                assert(strings_view(toks@) =~= strings_view(before).push(cur@));
                cur = String::new();
                started = false;
            }
            i = i + 1;
        } else if c == '"' {
            started = true;
            quoted = true;
            i = i + 1;
        } else {
            push_char(&mut cur, c);
            started = true;
            i = i + 1;
        }
    }
    assert(cs@.subrange(n as int, n as int) =~= Seq::<char>::empty());
    if quoted {
        None
    } else {
        if started {
            let ghost before = toks@;
            toks.push(cur);
            assert(strings_view(toks@) =~= strings_view(before).push(cur@));
        }
        Some(toks)
    }
}

} // verus!

verus! {

/// Tokens written one after another, separated by single spaces.
pub open spec fn join_tokens(ts: Seq<Seq<char>>) -> Seq<char>
    decreases ts.len(),
{
    if ts.len() == 0 {
        Seq::empty()
    } else if ts.len() == 1 {
        ts[0]
    } else {
        ts[0] + seq![' '] + join_tokens(ts.drop_first())
    }
}

/// A token that reads back as itself when written unquoted: not empty, with
/// no blank and no double quote.
pub open spec fn is_bare_word(t: Seq<char>) -> bool {
    t.len() > 0 && forall|i: int| 0 <= i < t.len() ==> !is_blank(#[trigger] t[i]) && t[i] != '"'
}

/// Unquoted text without blanks or quotes extends the current token.
proof fn lemma_scan_word(
    w: Seq<char>,
    rest: Seq<char>,
    toks: Seq<Seq<char>>,
    cur: Seq<char>,
    started: bool,
)
    requires
        forall|i: int| 0 <= i < w.len() ==> !is_blank(#[trigger] w[i]) && w[i] != '"',
    ensures
        scan(w + rest, toks, cur, started, false) == scan(
            rest,
            toks,
            cur + w,
            started || w.len() > 0,
            false,
        ),
    decreases w.len(),
{
    if w.len() == 0 {
        assert(w + rest =~= rest);
        assert(cur + w =~= cur);
    } else {
        let ws = w + rest;
        assert(ws[0] == w[0]);
        assert(ws.drop_first() =~= w.drop_first() + rest);
        assert forall|i: int| 0 <= i < w.drop_first().len() implies !is_blank(
            #[trigger] w.drop_first()[i],
        ) && w.drop_first()[i] != '"' by {
            assert(w.drop_first()[i] == w[i + 1]);
        }
        lemma_scan_word(w.drop_first(), rest, toks, cur.push(w[0]), true);
        assert(cur.push(w[0]) + w.drop_first() =~= cur + w);
    }
}

/// Bare words joined by spaces read back as the same words.
proof fn lemma_scan_joined(ts: Seq<Seq<char>>, toks: Seq<Seq<char>>)
    requires
        forall|k: int| 0 <= k < ts.len() ==> is_bare_word(#[trigger] ts[k]),
    ensures
        scan(join_tokens(ts), toks, Seq::empty(), false, false) == Some(toks + ts),
    decreases ts.len(),
{
    if ts.len() == 0 {
        assert(toks + ts =~= toks);
    } else {
        assert(is_bare_word(ts[0]));
        let rest = if ts.len() == 1 {
            Seq::<char>::empty()
        } else {
            seq![' '] + join_tokens(ts.drop_first())
        };
        if ts.len() == 1 {
            assert(join_tokens(ts) =~= ts[0] + rest);
        } else {
            assert(join_tokens(ts) =~= ts[0] + rest);
        }
        lemma_scan_word(ts[0], rest, toks, Seq::empty(), false);
        assert(Seq::<char>::empty() + ts[0] =~= ts[0]);
        if ts.len() == 1 {
            assert(toks + ts =~= toks.push(ts[0]));
        } else {
            assert(rest.drop_first() =~= join_tokens(ts.drop_first()));
            assert forall|k: int| 0 <= k < ts.drop_first().len() implies is_bare_word(
                #[trigger] ts.drop_first()[k],
            ) by {
                assert(ts.drop_first()[k] == ts[k + 1]);
            }
            lemma_scan_joined(ts.drop_first(), toks.push(ts[0]));
            assert(toks.push(ts[0]) + ts.drop_first() =~= toks + ts);
        }
    }
}

/// Tokenizing, joining the tokens with single spaces and tokenizing again
/// gives the same tokens, for any `Exec` value whose tokens are bare words.
pub proof fn lemma_tokenize_round_trip(s: Seq<char>)
    requires
        exec_tokens(s) is Some,
        forall|k: int|
            0 <= k < exec_tokens(s)->0.len() ==> is_bare_word(#[trigger] exec_tokens(s)->0[k]),
    ensures
        exec_tokens(join_tokens(exec_tokens(s)->0)) == exec_tokens(s),
{
    let ts = exec_tokens(s)->0;
    lemma_scan_joined(ts, Seq::empty());
    assert(Seq::<Seq<char>>::empty() + ts =~= ts);
}

} // verus!
