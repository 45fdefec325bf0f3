use vstd::prelude::*;

use crate::text::strings_view;

verus! {

/// `s` as a character sequence, for string literals.
fn owned(s: &str) -> (r: String)
    ensures
        r@ == s@,
{
    s.to_owned()
}

/// `name` under the directory `dir`, joined with one `/`.
pub open spec fn join_path(dir: Seq<char>, name: Seq<char>) -> Seq<char> {
    if dir.len() == 0 {
        name
    } else if dir.last() == '/' {
        dir + name
    } else {
        dir + seq!['/'] + name
    }
}

/// The argument vector that asks `sh` where the command `name` lies, through
/// its `command -v` builtin.
pub fn command_path(name: &str) -> (r: Vec<String>)
    ensures
        strings_view(r@) == seq![
            seq!['s', 'h'],
            seq!['-', 'c'],
            seq!['c', 'o', 'm', 'm', 'a', 'n', 'd', ' ', '-', 'v', ' '] + name@,
        ],
{
    let mut query = owned("command -v ");
    query.append(name);
    let mut r: Vec<String> = Vec::new();
    r.push(owned("sh"));
    r.push(owned("-c"));
    r.push(query);
    proof {
        reveal_strlit("sh");
        reveal_strlit("-c");
        reveal_strlit("command -v ");
        assert(r@[0]@ =~= seq!['s', 'h']);
        assert(r@[1]@ =~= seq!['-', 'c']);
        assert(r@[2]@ =~= seq!['c', 'o', 'm', 'm', 'a', 'n', 'd', ' ', '-', 'v', ' '] + name@);
    }
    assert(strings_view(r@) =~= seq![
        seq!['s', 'h'],
        seq!['-', 'c'],
        seq!['c', 'o', 'm', 'm', 'a', 'n', 'd', ' ', '-', 'v', ' '] + name@,
    ]);
    r
}

/// The argument vector that starts `code`, the Visual Studio Code launcher.
pub fn code_command() -> (r: Vec<String>)
    ensures
        strings_view(r@) == seq![seq!['c', 'o', 'd', 'e']],
{
    let mut r: Vec<String> = Vec::new();
    r.push(owned("code"));
    proof {
        reveal_strlit("code");
        assert(r@[0]@ =~= seq!['c', 'o', 'd', 'e']);
    }
    assert(strings_view(r@) =~= seq![seq!['c', 'o', 'd', 'e']]);
    r
}

/// The argument vector that runs the Gradle wrapper of the project in
/// `project_dir` on that project.
pub fn gradlew_command(project_dir: &str) -> (r: Vec<String>)
    ensures
        strings_view(r@) == seq![
            join_path(project_dir@, seq!['g', 'r', 'a', 'd', 'l', 'e', 'w']),
            seq!['-', '-', 'p', 'r', 'o', 'j', 'e', 'c', 't', '-', 'd', 'i', 'r'],
            project_dir@,
        ],
{
    proof {
        reveal_strlit("gradlew");
        reveal_strlit("/gradlew");
        reveal_strlit("--project-dir");
    }
    let mut program = owned(project_dir);
    let n = project_dir.unicode_len();
    if n == 0 {
        program.append("gradlew");
    } else if project_dir.get_char(n - 1) == '/' {
        program.append("gradlew");
    } else {
        program.append("/gradlew");
        assert(project_dir@ + seq!['/'] + seq!['g', 'r', 'a', 'd', 'l', 'e', 'w']
            =~= project_dir@ + seq!['/', 'g', 'r', 'a', 'd', 'l', 'e', 'w']);
    }
    let mut r: Vec<String> = Vec::new();
    r.push(program);
    r.push(owned("--project-dir"));
    r.push(owned(project_dir));
    assert(r@[0]@ =~= join_path(project_dir@, seq!['g', 'r', 'a', 'd', 'l', 'e', 'w']));
    assert(r@[1]@ =~= seq!['-', '-', 'p', 'r', 'o', 'j', 'e', 'c', 't', '-', 'd', 'i', 'r']);
    assert(strings_view(r@) =~= seq![
        join_path(project_dir@, seq!['g', 'r', 'a', 'd', 'l', 'e', 'w']),
        seq!['-', '-', 'p', 'r', 'o', 'j', 'e', 'c', 't', '-', 'd', 'i', 'r'],
        project_dir@,
    ]);
    r
}

/// Paths already use the platform's separator here: `path` is returned as it is.
pub fn replace_path_separator(path: String) -> (r: String)
    ensures
        r@ == path@,
{
    path
}

} // verus!
