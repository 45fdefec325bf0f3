use vstd::prelude::*;

use crate::application::{EntryFields, EntryLoad};
use crate::expand::option_view;
use crate::text::{chars_of, string_of};

verus! {

/// The lines of `s`, given the line being read and the lines before it:
/// each `\n` ends a line, and the text after the last one is a line too.
pub open spec fn split_lines(s: Seq<char>, cur: Seq<char>, acc: Seq<Seq<char>>) -> Seq<Seq<char>>
    decreases s.len(),
{
    if s.len() == 0 {
        acc.push(cur)
    } else if s[0] == '\n' {
        split_lines(s.drop_first(), Seq::empty(), acc.push(cur))
    } else {
        split_lines(s.drop_first(), cur.push(s[0]), acc)
    }
}

/// The lines of a key file.
pub open spec fn lines_of(s: Seq<char>) -> Seq<Seq<char>> {
    split_lines(s, Seq::empty(), Seq::empty())
}

/// A line that the format admits: blank, a comment, a group header or a
/// `Key=Value` pair.
pub open spec fn line_ok(l: Seq<char>) -> bool {
    l.len() == 0 || l[0] == '#' || l[0] == '[' || l.contains('=')
}

/// The header of the group that launching reads.
pub open spec fn entry_header() -> Seq<char> {
    seq!['[', 'D', 'e', 's', 'k', 't', 'o', 'p', ' ', 'E', 'n', 't', 'r', 'y', ']']
}

/// Whether `l` is a comment or header line rather than a pair.
pub open spec fn is_marker_line(l: Seq<char>) -> bool {
    l.len() > 0 && (l[0] == '#' || l[0] == '[')
}

/// Whether the pair on line `l` has the key `key`.
pub open spec fn line_has_key(l: Seq<char>, key: Seq<char>) -> bool {
    &&& !is_marker_line(l)
    &&& key.len() < l.len()
    &&& l.subrange(0, key.len() as int) == key
    &&& l[key.len() as int] == '='
}

/// The value of the first pair with the key `key` in the `[Desktop Entry]`
/// group, reading `lines` while `in_entry` tells whether that group is open.
pub open spec fn find_value(lines: Seq<Seq<char>>, key: Seq<char>, in_entry: bool) -> Option<
    Seq<char>,
>
    decreases lines.len(),
{
    if lines.len() == 0 {
        None
    } else {
        let l = lines[0];
        if l.len() > 0 && l[0] == '[' {
            find_value(lines.drop_first(), key, l == entry_header())
        } else if in_entry && line_has_key(l, key) {
            Some(l.subrange(key.len() as int + 1, l.len() as int))
        } else {
            find_value(lines.drop_first(), key, in_entry)
        }
    }
}

/// The value of `key` in the `[Desktop Entry]` group of the key file `text`.
pub open spec fn entry_value(text: Seq<char>, key: Seq<char>) -> Option<Seq<char>> {
    find_value(lines_of(text), key, false)
}

/// Whether every line of the key file `text` is one the format admits.
pub open spec fn well_formed(text: Seq<char>) -> bool {
    forall|i: int| 0 <= i < lines_of(text).len() ==> line_ok(#[trigger] lines_of(text)[i])
}

/// The lines of `text`.
fn lines(text: &str) -> (r: Vec<Vec<char>>)
    ensures
        r@.map_values(|l: Vec<char>| l@) == lines_of(text@),
{
    let n = text.unicode_len();
    let mut acc: Vec<Vec<char>> = Vec::new();
    let mut cur: Vec<char> = Vec::new();
    let mut i: usize = 0;
    assert(text@.subrange(0, n as int) =~= text@);
    assert(acc@.map_values(|l: Vec<char>| l@) =~= Seq::<Seq<char>>::empty());
    while i < n
        invariant
            n == text@.len(),
            i <= n,
            lines_of(text@) == split_lines(
                text@.subrange(i as int, n as int),
                cur@,
                acc@.map_values(|l: Vec<char>| l@),
            ),
        decreases n - i,
    {
        let ghost s = text@.subrange(i as int, n as int);
        assert(s.drop_first() =~= text@.subrange(i + 1, n as int));
        let c = text.get_char(i);
        if c == '\n' {
            let ghost before = acc@.map_values(|l: Vec<char>| l@);
            acc.push(cur);
            assert(acc@.map_values(|l: Vec<char>| l@) =~= before.push(cur@));
            cur = Vec::new();
        } else {
            cur.push(c);
        }
        i = i + 1;
    }
    let ghost before = acc@.map_values(|l: Vec<char>| l@);
    acc.push(cur);
    assert(acc@.map_values(|l: Vec<char>| l@) =~= before.push(cur@));
    acc
}

/// Whether `l` has one of the line forms that the format admits.
fn line_is_ok(l: &Vec<char>) -> (r: bool)
    ensures
        r == line_ok(l@),
{
    if l.len() == 0 || l[0] == '#' || l[0] == '[' {
        return true;
    }
    let mut i: usize = 0;
    while i < l.len()
        invariant
            i <= l@.len(),
            forall|j: int| 0 <= j < i ==> l@[j] != '=',
        decreases l.len() - i,
    {
        if l[i] == '=' {
            return true;
        }
        i = i + 1;
    }
    false
}

/// Whether `l` equals `s`.
fn chars_equal(l: &Vec<char>, s: &Vec<char>) -> (r: bool)
    ensures
        r == (l@ == s@),
{
    if l.len() != s.len() {
        return false;
    }
    let mut i: usize = 0;
    while i < l.len()
        invariant
            l@.len() == s@.len(),
            i <= l@.len(),
            forall|j: int| 0 <= j < i ==> l@[j] == s@[j],
        decreases l.len() - i,
    {
        if l[i] != s[i] {
            return false;
        }
        i = i + 1;
    }
    assert(l@ =~= s@);
    true
}

/// Whether the pair on line `l` has the key `key`.
fn has_key(l: &Vec<char>, key: &Vec<char>) -> (r: bool)
    ensures
        r == line_has_key(l@, key@),
{
    if l.len() > 0 && (l[0] == '#' || l[0] == '[') {
        return false;
    }
    if key.len() >= l.len() {
        return false;
    }
    let mut i: usize = 0;
    while i < key.len()
        invariant
            key@.len() < l@.len(),
            i <= key@.len(),
            forall|j: int| 0 <= j < i ==> l@[j] == key@[j],
        decreases key.len() - i,
    {
        if l[i] != key[i] {
            assert(l@.subrange(0, key@.len() as int)[i as int] != key@[i as int]);
            return false;
        }
        i = i + 1;
    }
    assert(l@.subrange(0, key@.len() as int) =~= key@);
    l[key.len()] == '='
}

/// The characters of `l` from `from` on.
fn tail_of(l: &Vec<char>, from: usize) -> (r: Vec<char>)
    requires
        from <= l@.len(),
    ensures
        r@ == l@.subrange(from as int, l@.len() as int),
{
    let mut r: Vec<char> = Vec::new();
    let mut i: usize = from;
    while i < l.len()
        invariant
            from <= i <= l@.len(),
            r@ == l@.subrange(from as int, i as int),
        decreases l.len() - i,
    {
        r.push(l[i]);
        i = i + 1;
        assert(r@ =~= l@.subrange(from as int, i as int));
    }
    r
}

/// The value of `key` in the `[Desktop Entry]` group of the lines `ls`.
fn value_of(ls: &Vec<Vec<char>>, key: &Vec<char>) -> (r: Option<String>)
    ensures
        option_view(r) == find_value(ls@.map_values(|l: Vec<char>| l@), key@, false),
{
    let ghost all = ls@.map_values(|l: Vec<char>| l@);
    let header = chars_of("[Desktop Entry]");
    proof {
        reveal_strlit("[Desktop Entry]");
        assert(header@ =~= entry_header());
    }
    let mut in_entry = false;
    let mut i: usize = 0;
    assert(all.subrange(0, all.len() as int) =~= all);
    while i < ls.len()
        invariant
            all == ls@.map_values(|l: Vec<char>| l@),
            header@ == entry_header(),
            i <= ls@.len(),
            find_value(all, key@, false) == find_value(
                all.subrange(i as int, all.len() as int),
                key@,
                in_entry,
            ),
        decreases ls.len() - i,
    {
        let ghost rest = all.subrange(i as int, all.len() as int);
        assert(rest.drop_first() =~= all.subrange(i + 1, all.len() as int));
        assert(rest[0] == ls@[i as int]@);
        let l = &ls[i];
        if l.len() > 0 && l[0] == '[' {
            in_entry = chars_equal(l, &header);
        } else if in_entry && has_key(l, key) {
            let v = tail_of(l, key.len() + 1);
            return Some(string_of(&v));
        }
        i = i + 1;
    }
    None
}

/// Reads the `Exec`, `Icon` and `Name` keys of the `[Desktop Entry]` group
/// of a key file; `None` when a line is neither blank, a comment, a group
/// header nor a `Key=Value` pair. Keys with a locale suffix are not read.
pub fn parse_entry(text: &str) -> (r: Option<EntryFields>)
    ensures
        r is Some == well_formed(text@),
        r is Some ==> {
            &&& option_view(r->0.exec_command) == entry_value(text@, seq!['E', 'x', 'e', 'c'])
            &&& option_view(r->0.icon) == entry_value(text@, seq!['I', 'c', 'o', 'n'])
            &&& option_view(r->0.name) == entry_value(text@, seq!['N', 'a', 'm', 'e'])
        },
{
    let ls = lines(text);
    let ghost all = ls@.map_values(|l: Vec<char>| l@);
    let mut i: usize = 0;
    while i < ls.len()
        invariant
            all == ls@.map_values(|l: Vec<char>| l@),
            all == lines_of(text@),
            i <= ls@.len(),
            forall|j: int| 0 <= j < i ==> line_ok(#[trigger] all[j]),
        decreases ls.len() - i,
    {
        if !line_is_ok(&ls[i]) {
            assert(!line_ok(all[i as int]));
            return None;
        }
        i = i + 1;
    }
    proof {
        reveal_strlit("Exec");
        reveal_strlit("Icon");
        reveal_strlit("Name");
    }
    let exec_key = chars_of("Exec");
    let icon_key = chars_of("Icon");
    let name_key = chars_of("Name");
    assert(exec_key@ =~= seq!['E', 'x', 'e', 'c']);
    assert(icon_key@ =~= seq!['I', 'c', 'o', 'n']);
    assert(name_key@ =~= seq!['N', 'a', 'm', 'e']);
    Some(
        EntryFields {
            exec_command: value_of(&ls, &exec_key),
            icon: value_of(&ls, &icon_key),
            name: value_of(&ls, &name_key),
        },
    )
}

/// What reading an entry file gives: the read error, `ParseFailed` for a
/// malformed file, else its keys.
pub fn load_entry(read: Result<String, String>) -> (r: EntryLoad)
    ensures
        match read {
            Err(m) => r matches EntryLoad::LookupFailed(e) && e@ == m@,
            Ok(text) => if well_formed(text@) {
                r matches EntryLoad::Parsed(f) && {
                    &&& option_view(f.exec_command) == entry_value(
                        text@,
                        seq!['E', 'x', 'e', 'c'],
                    )
                    &&& option_view(f.icon) == entry_value(text@, seq!['I', 'c', 'o', 'n'])
                    &&& option_view(f.name) == entry_value(text@, seq!['N', 'a', 'm', 'e'])
                }
            } else {
                r is ParseFailed
            },
        },
{
    match read {
        Err(m) => EntryLoad::LookupFailed(m),
        Ok(text) => match parse_entry(text.as_str()) {
            Some(f) => EntryLoad::Parsed(f),
            None => EntryLoad::ParseFailed(
                "a line is neither a comment, a group header nor a key-value pair".to_owned(),
            ),
        },
    }
}

} // verus!
