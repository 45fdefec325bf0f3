use vstd::prelude::*;

use crate::expand::{exec_argv, option_view, parse_command, ContextView, ExecContext};
use crate::text::strings_view;

verus! {

/// Why no editor could be found.
#[derive(Debug)]
pub enum DetectEditorError {
    /// Neither `text/rust` nor `text/plain` has a default application.
    NoDefaultEditorSet,
    /// No readable applications directory holds the associated entry.
    FreeDesktopEntryNotFound,
    /// The entry file was read but is malformed; the cause is given.
    FreeDesktopEntryParseError(String),
    /// The entry file that the search found could not be read; the cause is given.
    FreeDesktopEntryLookupFailed(String),
    /// The entry declares no `Exec` key.
    ExecFieldMissing,
}

/// Why a file could not be opened.
#[derive(Debug)]
pub enum OpenFileError {
    /// The process could not be started; the cause is given.
    LaunchFailed(String),
    /// The entry's `Exec` value gives no command.
    CommandParsingFailed,
}

/// The keys of a desktop entry that launching reads.
#[derive(Debug)]
pub struct EntryFields {
    /// `Exec`: the command template.
    pub exec_command: Option<String>,
    /// `Icon`.
    pub icon: Option<String>,
    /// `Name`: the display name.
    pub name: Option<String>,
}

/// What reading the entry file that the search found gave.
#[derive(Debug)]
pub enum EntryLoad {
    /// The file could not be read; the cause is given.
    LookupFailed(String),
    /// The file is malformed; the cause is given.
    ParseFailed(String),
    /// The keys that the file declares.
    Parsed(EntryFields),
}

/// A desktop entry that files can be opened with.
#[derive(Debug)]
pub struct Application {
    /// The raw `Exec` value.
    pub exec_command: String,
    /// The raw `Icon` value, if any.
    pub icon: Option<String>,
    /// The display name, if any.
    pub name: Option<String>,
    /// The entry's id.
    pub entry_id: String,
    /// Where the entry file lies.
    pub xdg_entry_path: String,
}

/// The entry id that the MIME associations give an editor: the one for
/// `text/rust`, else the one for `text/plain`.
pub open spec fn editor_entry_spec(rust: Option<String>, plain: Option<String>) -> Option<Seq<char>> {
    match rust {
        Some(r) => Some(r@),
        None => match plain {
            Some(p) => Some(p@),
            None => None,
        },
    }
}

/// Picks the editor's entry id from the answers to the `text/rust` and
/// `text/plain` association queries.
pub fn editor_entry_id(rust: Option<String>, plain: Option<String>) -> (r: Result<
    String,
    DetectEditorError,
>)
    ensures
        match editor_entry_spec(rust, plain) {
            Some(id) => r is Ok && r->Ok_0@ == id,
            None => r matches Err(DetectEditorError::NoDefaultEditorSet),
        },
{
    match rust {
        Some(r) => Ok(r),
        None => match plain {
            Some(p) => Ok(p),
            None => Err(DetectEditorError::NoDefaultEditorSet),
        },
    }
}

/// The entry file that the directory search found, or
/// `FreeDesktopEntryNotFound`.
pub fn located_entry(found: Option<String>) -> (r: Result<String, DetectEditorError>)
    ensures
        match found {
            Some(p) => r is Ok && r->Ok_0 == p,
            None => r matches Err(DetectEditorError::FreeDesktopEntryNotFound),
        },
{
    match found {
        Some(p) => Ok(p),
        None => Err(DetectEditorError::FreeDesktopEntryNotFound),
    }
}

/// A copy of an optional string.
fn clone_option(s: &Option<String>) -> (r: Option<String>)
    ensures
        option_view(r) == option_view(*s),
{
    match s {
        Some(v) => Some(v.clone()),
        None => None,
    }
}

impl Application {
    /// The application described by the entry `entry_id`, read from
    /// `entry_path`. Fails with the read or parse error, or when the entry
    /// has no `Exec` key.
    pub fn from_entry(entry_id: String, entry_path: String, load: EntryLoad) -> (r: Result<
        Application,
        DetectEditorError,
    >)
        ensures
            match load {
                EntryLoad::LookupFailed(m) => r matches Err(
                    DetectEditorError::FreeDesktopEntryLookupFailed(e),
                ) && e@ == m@,
                EntryLoad::ParseFailed(m) => r matches Err(
                    DetectEditorError::FreeDesktopEntryParseError(e),
                ) && e@ == m@,
                EntryLoad::Parsed(f) => match f.exec_command {
                    None => r matches Err(DetectEditorError::ExecFieldMissing),
                    Some(x) => r matches Ok(a) && a.exec_command@ == x@ && a.icon == f.icon
                        && a.name == f.name && a.entry_id == entry_id && a.xdg_entry_path
                        == entry_path,
                },
            },
    {
        match load {
            EntryLoad::LookupFailed(m) => Err(DetectEditorError::FreeDesktopEntryLookupFailed(m)),
            EntryLoad::ParseFailed(m) => Err(DetectEditorError::FreeDesktopEntryParseError(m)),
            EntryLoad::Parsed(f) => match f.exec_command {
                None => Err(DetectEditorError::ExecFieldMissing),
                Some(x) => Ok(
                    Application {
                        exec_command: x,
                        icon: f.icon,
                        name: f.name,
                        entry_id,
                        xdg_entry_path: entry_path,
                    },
                ),
            },
        }
    }

    /// The field-code values for opening `path` with this application.
    pub open spec fn context_view(&self, path: Seq<char>) -> ContextView {
        ContextView {
            target: path,
            icon: option_view(self.icon),
            name: option_view(self.name),
            entry_id: self.entry_id@,
            entry_path: Some(self.xdg_entry_path@),
        }
    }

    /// The field-code values for opening `path` with this application.
    fn context(&self, path: &str) -> (r: ExecContext)
        ensures
            r@ == self.context_view(path@),
    {
        ExecContext {
            target: path.to_owned(),
            icon: clone_option(&self.icon),
            name: clone_option(&self.name),
            entry_id: self.entry_id.clone(),
            entry_path: Some(self.xdg_entry_path.clone()),
        }
    }

    /// The argument vector that opens `path` with this application: its
    /// `Exec` value with the field codes replaced. `CommandParsingFailed`
    /// when a quote is never closed or no argument is left.
    pub fn launch_command(&self, path: &str) -> (r: Result<Vec<String>, OpenFileError>)
        ensures
            match exec_argv(self.exec_command@, self.context_view(path@)) {
                Some(argv) => if argv.len() > 0 {
                    r is Ok && strings_view(r->Ok_0@) == argv
                } else {
                    r matches Err(OpenFileError::CommandParsingFailed)
                },
                None => r matches Err(OpenFileError::CommandParsingFailed),
            },
    {
        let ctx = self.context(path);
        match parse_command(self.exec_command.as_str(), &ctx) {
            Some(argv) => if argv.len() > 0 {
                Ok(argv)
            } else {
                Err(OpenFileError::CommandParsingFailed)
            },
            None => Err(OpenFileError::CommandParsingFailed),
        }
    }
}

} // verus!

verus! {

/// An entry that a search by application name found in one directory.
#[derive(Debug)]
pub struct NamedEntry {
    /// The entry's id.
    pub entry_id: String,
    /// Where the entry file lies.
    pub entry_path: String,
    /// The keys that the file declares.
    pub fields: EntryFields,
}

/// The field-code values for opening `path` with a named entry.
pub open spec fn named_context(e: NamedEntry, path: Seq<char>) -> ContextView {
    ContextView {
        target: path,
        icon: option_view(e.fields.icon),
        name: option_view(e.fields.name),
        entry_id: e.entry_id@,
        entry_path: Some(e.entry_path@),
    }
}

/// The non-empty argument vector that a found entry gives for `path`, if any.
pub open spec fn usable_argv(found: Option<NamedEntry>, path: Seq<char>) -> Option<Seq<Seq<char>>> {
    match found {
        Some(e) => match e.fields.exec_command {
            Some(x) => match exec_argv(x@, named_context(e, path)) {
                Some(argv) => if argv.len() > 0 {
                    Some(argv)
                } else {
                    None
                },
                None => None,
            },
            None => None,
        },
        None => None,
    }
}

/// The command that opens `path` with the application named `app`: that of
/// the first directory whose entry gives one, else `app` run by itself.
pub open spec fn open_with_argv(
    app: Seq<char>,
    path: Seq<char>,
    found: Seq<Option<NamedEntry>>,
) -> Seq<Seq<char>>
    decreases found.len(),
{
    if found.len() == 0 {
        seq![app]
    } else {
        match usable_argv(found[0], path) {
            Some(argv) => argv,
            None => open_with_argv(app, path, found.drop_first()),
        }
    }
}

/// The argument vector of a found entry for `path`, when it gives a non-empty one.
fn named_entry_command(e: &NamedEntry, path: &str) -> (r: Option<Vec<String>>)
    ensures
        r is Some == usable_argv(Some(*e), path@) is Some,
        r is Some ==> strings_view(r->0@) == usable_argv(Some(*e), path@)->0,
{
    match &e.fields.exec_command {
        Some(x) => {
            let ctx = ExecContext {
                target: path.to_owned(),
                icon: clone_option(&e.fields.icon),
                name: clone_option(&e.fields.name),
                entry_id: e.entry_id.clone(),
                entry_path: Some(e.entry_path.clone()),
            };
            assert(ctx@ == named_context(*e, path@));
            match parse_command(x.as_str(), &ctx) {
                Some(argv) => if argv.len() > 0 {
                    Some(argv)
                } else {
                    None
                },
                None => None,
            }
        },
        None => None,
    }
}

/// The command that opens `path` with the application named `application`,
/// given what the search by name found in each directory, in order of
/// precedence. When no entry gives a command, `application` is run itself.
pub fn open_file_with(application: &str, path: &str, found: &Vec<Option<NamedEntry>>) -> (r: Vec<
    String,
>)
    ensures
        strings_view(r@) == open_with_argv(application@, path@, found@),
        r@.len() > 0,
{
    let mut i: usize = 0;
    assert(found@.subrange(0, found@.len() as int) =~= found@);
    while i < found.len()
        invariant
            i <= found@.len(),
            open_with_argv(application@, path@, found@) == open_with_argv(
                application@,
                path@,
                found@.subrange(i as int, found@.len() as int),
            ),
        decreases found.len() - i,
    {
        let ghost rest = found@.subrange(i as int, found@.len() as int);
        assert(rest.drop_first() =~= found@.subrange(i + 1, found@.len() as int));
        match &found[i] {
            Some(e) => {
                match named_entry_command(e, path) {
                    Some(argv) => {
                        return argv;
                    },
                    None => {},
                }
            },
            None => {},
        }
        i = i + 1;
    }
    assert(found@.subrange(i as int, found@.len() as int) =~= Seq::<Option<NamedEntry>>::empty());
    let mut r: Vec<String> = Vec::new();
    r.push(application.to_owned());
    assert(strings_view(r@) =~= seq![application@]);
    r
}

} // verus!

verus! {

/// The editor association falls back from `text/rust` to `text/plain`: when
/// the first query fails the second one's entry is used, when it succeeds
/// its own entry is used, and when both fail there is none.
pub proof fn lemma_mime_fallback(rust: Option<String>, plain: Option<String>)
    ensures
        rust is Some ==> editor_entry_spec(rust, plain) == Some(rust->0@),
        rust is None ==> editor_entry_spec(rust, plain) == option_view(plain),
        rust is None && plain is None ==> editor_entry_spec(rust, plain) is None,
{
}

} // verus!
