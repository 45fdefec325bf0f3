use vstd::prelude::*;

use crate::text::{chars_of, push_char, strings_view};
use crate::tokenize::{exec_tokens, tokenize};

verus! {

/// What the field codes of an `Exec` value are replaced with.
#[derive(Debug)]
pub struct ExecContext {
    /// The file to open (`%f`, `%F`, `%u`, `%U`).
    pub target: String,
    /// The entry's `Icon` value (`%i`).
    pub icon: Option<String>,
    /// The entry's display name (`%c`).
    pub name: Option<String>,
    /// The entry's id, used for `%c` when no name is known.
    pub entry_id: String,
    /// Where the desktop entry file lies (`%k`).
    pub entry_path: Option<String>,
}

/// The values of an [`ExecContext`], as character sequences.
pub ghost struct ContextView {
    pub target: Seq<char>,
    pub icon: Option<Seq<char>>,
    pub name: Option<Seq<char>>,
    pub entry_id: Seq<char>,
    pub entry_path: Option<Seq<char>>,
}

/// The characters of an optional string.
pub open spec fn option_view(o: Option<String>) -> Option<Seq<char>> {
    match o {
        Some(s) => Some(s@),
        None => None,
    }
}

impl View for ExecContext {
    type V = ContextView;

    open spec fn view(&self) -> ContextView {
        ContextView {
            target: self.target@,
            icon: option_view(self.icon),
            name: option_view(self.name),
            entry_id: self.entry_id@,
            entry_path: option_view(self.entry_path),
        }
    }
}

/// The text that the field code `%code` stands for; unsupported codes stand
/// for nothing.
/// The URL codes `%u` and `%U` receive the plain path, as `%f` does: callers
/// hand over one local path, so `%F` and `%U` give a single argument too.
pub open spec fn code_value(code: char, ctx: ContextView) -> Seq<char> {
    if code == 'f' || code == 'F' || code == 'u' || code == 'U' {
        ctx.target
    } else if code == 'c' {
        match ctx.name {
            Some(n) => n,
            None => ctx.entry_id,
        }
    } else if code == 'k' {
        match ctx.entry_path {
            Some(p) => p,
            None => Seq::empty(),
        }
    } else if code == '%' {
        seq!['%']
    } else {
        Seq::empty()
    }
}

/// A token's text with each field code replaced by its value. A `%` that
/// ends the token is kept.
pub open spec fn expand_text(t: Seq<char>, ctx: ContextView) -> Seq<char>
    decreases t.len(),
{
    if t.len() == 0 {
        Seq::empty()
    } else if t[0] == '%' && t.len() >= 2 {
        code_value(t[1], ctx) + expand_text(t.subrange(2, t.len() as int), ctx)
    } else {
        seq![t[0]] + expand_text(t.drop_first(), ctx)
    }
}

/// The token that consists of the icon code alone.
pub open spec fn icon_token() -> Seq<char> {
    seq!['%', 'i']
}

/// The flag placed before the icon.
pub open spec fn icon_flag() -> Seq<char> {
    seq!['-', '-', 'i', 'c', 'o', 'n']
}

/// The arguments that one token becomes: `--icon` and the icon for a lone
/// `%i` (nothing without an icon); nothing for a token whose codes expand to
/// nothing; else its expanded text. An empty token written as `""` stays.
pub open spec fn expand_token(t: Seq<char>, ctx: ContextView) -> Seq<Seq<char>> {
    if t == icon_token() {
        match ctx.icon {
            Some(i) => seq![icon_flag(), i],
            None => Seq::empty(),
        }
    } else if t.len() > 0 && expand_text(t, ctx).len() == 0 {
        Seq::empty()
    } else {
        seq![expand_text(t, ctx)]
    }
}

/// The arguments that a sequence of tokens becomes, in order.
pub open spec fn expand_tokens(ts: Seq<Seq<char>>, ctx: ContextView) -> Seq<Seq<char>>
    decreases ts.len(),
{
    if ts.len() == 0 {
        Seq::empty()
    } else {
        expand_tokens(ts.drop_last(), ctx) + expand_token(ts.last(), ctx)
    }
}

/// The argument vector of an `Exec` value, or `None` when it cannot be read.
pub open spec fn exec_argv(exec: Seq<char>, ctx: ContextView) -> Option<Seq<Seq<char>>> {
    match exec_tokens(exec) {
        Some(ts) => Some(expand_tokens(ts, ctx)),
        None => None,
    }
}

/// Appends the value of the field code `code` to `out`.
fn push_code_value(out: &mut String, code: char, ctx: &ExecContext)
    ensures
        final(out)@ == old(out)@ + code_value(code, ctx@),
{
    if code == 'f' || code == 'F' || code == 'u' || code == 'U' {
        append_str(out, &ctx.target);
    } else if code == 'c' {
        match &ctx.name {
            Some(n) => append_str(out, n),
            None => append_str(out, &ctx.entry_id),
        }
    } else if code == 'k' {
        match &ctx.entry_path {
            Some(p) => append_str(out, p),
            None => {
                assert(old(out)@ + Seq::<char>::empty() =~= old(out)@);
            },
        }
    } else if code == '%' {
        push_char(out, '%');
        assert(old(out)@.push('%') =~= old(out)@ + seq!['%']);
    } else {
        assert(old(out)@ + Seq::<char>::empty() =~= old(out)@);
    }
}

/// Appends `s` to `out`.
fn append_str(out: &mut String, s: &String)
    ensures
        final(out)@ == old(out)@ + s@,
{
    out.append(s.as_str());
}

/// Replaces the field codes of one token's text.
pub fn expand_field_codes(t: &str, ctx: &ExecContext) -> (r: String)
    ensures
        r@ == expand_text(t@, ctx@),
{
    let cs = chars_of(t);
    let n = cs.len();
    let mut out = String::new();
    let mut i: usize = 0;
    assert(cs@.subrange(0, n as int) =~= cs@);
    assert(Seq::<char>::empty() + expand_text(t@, ctx@) =~= expand_text(t@, ctx@));
    while i < n
        invariant
            n == cs@.len(),
            cs@ == t@,
            i <= n,
            out@ + expand_text(cs@.subrange(i as int, n as int), ctx@) == expand_text(t@, ctx@),
        decreases n - i,
    {
        let ghost s = cs@.subrange(i as int, n as int);
        let ghost before = out@;
        if cs[i] == '%' && i + 1 < n {
            assert(s.subrange(2, s.len() as int) =~= cs@.subrange(i + 2, n as int));
            push_code_value(&mut out, cs[i + 1], ctx);
            i = i + 2;
            assert(before + (code_value(s[1], ctx@) + expand_text(
                cs@.subrange(i as int, n as int),
                ctx@,
            )) =~= out@ + expand_text(cs@.subrange(i as int, n as int), ctx@));
        } else {
            assert(s.drop_first() =~= cs@.subrange(i + 1, n as int));
            push_char(&mut out, cs[i]);
            i = i + 1;
            assert(before + (seq![s[0]] + expand_text(cs@.subrange(i as int, n as int), ctx@))
                =~= out@ + expand_text(cs@.subrange(i as int, n as int), ctx@));
        }
    }
    assert(out@ + expand_text(cs@.subrange(n as int, n as int), ctx@) =~= out@);
    out
}

/// Whether `t` is the lone icon code.
fn is_icon_token(t: &String) -> (r: bool)
    ensures
        r == (t@ == icon_token()),
{
    let cs = chars_of(t.as_str());
    if cs.len() == 2 && cs[0] == '%' && cs[1] == 'i' {
        assert(cs@ =~= icon_token());
        true
    } else {
        false
    }
}

/// The arguments that tokens become once their field codes are replaced.
pub fn expand_all(tokens: &Vec<String>, ctx: &ExecContext) -> (r: Vec<String>)
    ensures
        strings_view(r@) == expand_tokens(strings_view(tokens@), ctx@),
{
    let ghost ts = strings_view(tokens@);
    let mut out: Vec<String> = Vec::new();
    let mut i: usize = 0;
    assert(strings_view(out@) =~= Seq::<Seq<char>>::empty());
    while i < tokens.len()
        invariant
            ts == strings_view(tokens@),
            i <= tokens@.len(),
            strings_view(out@) == expand_tokens(ts.subrange(0, i as int), ctx@),
        decreases tokens.len() - i,
    {
        let ghost before = strings_view(out@);
        assert(ts.subrange(0, i + 1).drop_last() =~= ts.subrange(0, i as int));
        let t = &tokens[i];
        if is_icon_token(t) {
            match &ctx.icon {
                Some(icon) => {
                    let mut flag = String::new();
                    append_str(&mut flag, &String::from_str("--icon"));
                    proof {
                        reveal_strlit("--icon");
                        assert(flag@ =~= icon_flag());
                    }
                    out.push(flag);
                    out.push(icon.clone());
                    assert(strings_view(out@) =~= before + seq![icon_flag(), icon@]);
                },
                None => {
                    assert(before + Seq::<Seq<char>>::empty() =~= before);
                },
            }
        } else {
            let e = expand_field_codes(t.as_str(), ctx);
            if !t.as_str().is_empty() && e.as_str().is_empty() {
                assert(before + Seq::<Seq<char>>::empty() =~= before);
            } else {
                out.push(e);
                assert(strings_view(out@) =~= before + seq![expand_text(t@, ctx@)]);
            }
        }
        i = i + 1;
    }
    assert(ts.subrange(0, tokens@.len() as int) =~= ts);
    out
}

/// Turns an `Exec` value into an argument vector; `None` when a quote is
/// never closed.
pub fn parse_command(exec: &str, ctx: &ExecContext) -> (r: Option<Vec<String>>)
    ensures
        r.is_some() == exec_argv(exec@, ctx@).is_some(),
        r.is_some() ==> strings_view(r->0@) == exec_argv(exec@, ctx@)->0,
{
    match tokenize(exec) {
        Some(tokens) => Some(expand_all(&tokens, ctx)),
        None => None,
    }
}

} // verus!
