use vstd::prelude::*;

use crate::text::{chars_of, string_of, strings_view};

verus! {

/// What searching one `applications` directory for an entry gave.
#[derive(Debug)]
pub enum DirProbe {
    /// The directory could not be listed or read.
    Unreadable,
    /// The directory was read and holds no such entry.
    Missing,
    /// The entry's file, at this path.
    Found(String),
}

/// `s` with every `-` read as a directory separator.
pub open spec fn dashes_to_slashes(s: Seq<char>) -> Seq<char> {
    s.map_values(|c: char| if c == '-' { '/' } else { c })
}

/// The file names, relative to an `applications` directory, under which the
/// entry `id` may stand: the id itself, then the id with its dashes read as
/// subdirectories when it has any.
pub open spec fn entry_file_names_spec(id: Seq<char>) -> Seq<Seq<char>> {
    if id.contains('-') {
        seq![id, dashes_to_slashes(id)]
    } else {
        seq![id]
    }
}

/// The path of the first directory, in order of precedence, that holds the
/// entry. Unreadable directories are skipped.
pub open spec fn first_found(probes: Seq<DirProbe>) -> Option<Seq<char>>
    decreases probes.len(),
{
    if probes.len() == 0 {
        None
    } else {
        match probes[0] {
            DirProbe::Found(p) => Some(p@),
            _ => first_found(probes.drop_first()),
        }
    }
}

/// The names to try, in order, for the entry `id` in each directory.
pub fn entry_file_names(id: &str) -> (r: Vec<String>)
    ensures
        strings_view(r@) == entry_file_names_spec(id@),
{
    let cs = chars_of(id);
    let mut aliased: Vec<char> = Vec::new();
    let mut has_dash = false;
    let mut i: usize = 0;
    while i < cs.len()
        invariant
            cs@ == id@,
            i <= cs@.len(),
            aliased@ == dashes_to_slashes(cs@.subrange(0, i as int)),
            has_dash == cs@.subrange(0, i as int).contains('-'),
        decreases cs.len() - i,
    {
        let ghost prefix = cs@.subrange(0, i as int);
        assert(cs@.subrange(0, i + 1) =~= prefix.push(cs@[i as int]));
        if cs[i] == '-' {
            aliased.push('/');
            has_dash = true;
            assert(cs@.subrange(0, i + 1)[i as int] == '-');
        } else {
            aliased.push(cs[i]);
            assert(has_dash == cs@.subrange(0, i + 1).contains('-')) by {
                if cs@.subrange(0, i + 1).contains('-') {
                    let k = choose|k: int|
                        0 <= k < i + 1 && #[trigger] cs@.subrange(0, i + 1)[k] == '-';
                    assert(prefix[k] == '-');
                }
            }
        }
        i = i + 1;
        assert(aliased@ =~= dashes_to_slashes(cs@.subrange(0, i as int)));
    }
    assert(cs@.subrange(0, cs@.len() as int) =~= id@);
    let mut r: Vec<String> = Vec::new();
    r.push(string_of(&cs));
    if has_dash {
        r.push(string_of(&aliased));
        assert(strings_view(r@) =~= seq![id@, dashes_to_slashes(id@)]);
    } else {
        assert(strings_view(r@) =~= seq![id@]);
    }
    r
}

/// The entry file that the search of the directories, taken in order of
/// precedence, finds first; `None` when no readable directory holds it.
pub fn find_entry(probes: &Vec<DirProbe>) -> (r: Option<String>)
    ensures
        r.is_some() == first_found(probes@).is_some(),
        r.is_some() ==> r->0@ == first_found(probes@)->0,
{
    let mut i: usize = 0;
    assert(probes@.subrange(0, probes@.len() as int) =~= probes@);
    while i < probes.len()
        invariant
            i <= probes@.len(),
            first_found(probes@) == first_found(probes@.subrange(i as int, probes@.len() as int)),
        decreases probes.len() - i,
    {
        let ghost rest = probes@.subrange(i as int, probes@.len() as int);
        assert(rest.drop_first() =~= probes@.subrange(i + 1, probes@.len() as int));
        match &probes[i] {
            DirProbe::Found(p) => {
                return Some(p.clone());
            },
            _ => {},
        }
        i = i + 1;
    }
    assert(probes@.subrange(i as int, probes@.len() as int) =~= Seq::<DirProbe>::empty());
    None
}

/// Directories are searched in order of precedence: an entry found in a
/// directory is the one used whenever no earlier directory holds the entry,
/// whether those earlier ones were unreadable or lacked it.
pub proof fn lemma_search_precedence(probes: Seq<DirProbe>, i: int)
    requires
        0 <= i < probes.len(),
        probes[i] is Found,
        forall|j: int| 0 <= j < i ==> !(#[trigger] probes[j] is Found),
    ensures
        first_found(probes) == Some(probes[i]->Found_0@),
    decreases i,
{
    if i > 0 {
        assert(!(probes[0] is Found));
        lemma_search_precedence(probes.drop_first(), i - 1);
    }
}

} // verus!
