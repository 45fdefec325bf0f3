use xdg_launch::application::{Application, EntryFields, EntryLoad, OpenFileError};
use xdg_launch::expand::{expand_field_codes, parse_command, ExecContext};
use xdg_launch::tokenize::tokenize;

fn ctx(target: &str, icon: Option<&str>) -> ExecContext {
    ExecContext {
        target: target.to_string(),
        icon: icon.map(|s| s.to_string()),
        name: None,
        entry_id: "editor.desktop".to_string(),
        entry_path: Some("/usr/share/applications/editor.desktop".to_string()),
    }
}

fn strs(v: &[&str]) -> Vec<String> {
    v.iter().map(|s| s.to_string()).collect()
}

fn app(exec: &str, icon: Option<&str>) -> Application {
    let load = EntryLoad::Parsed(EntryFields {
        exec_command: Some(exec.to_string()),
        icon: icon.map(|s| s.to_string()),
        name: None,
    });
    match Application::from_entry(
        "editor.desktop".to_string(),
        "/usr/share/applications/editor.desktop".to_string(),
        load,
    ) {
        Ok(a) => a,
        Err(_) => panic!("entry with Exec rejected"),
    }
}

#[test]
fn single_file_code() {
    let r = parse_command("%f", &ctx("/tmp/a.rs", None)).unwrap();
    assert_eq!(r, strs(&["/tmp/a.rs"]));
}

#[test]
fn icon_expands_to_two_arguments() {
    let r = parse_command("editor %f %i", &ctx("/tmp/a.rs", Some("edit-icon"))).unwrap();
    assert_eq!(r, strs(&["editor", "/tmp/a.rs", "--icon", "edit-icon"]));
}

#[test]
fn missing_icon_drops_token() {
    let r = parse_command("editor %f %i", &ctx("/tmp/a.rs", None)).unwrap();
    assert_eq!(r, strs(&["editor", "/tmp/a.rs"]));
}

#[test]
fn empty_icon_still_two_arguments() {
    let r = parse_command("editor %i", &ctx("/tmp/a.rs", Some(""))).unwrap();
    assert_eq!(r, strs(&["editor", "--icon", ""]));
}

#[test]
fn literal_percent() {
    let r = parse_command("%%d", &ctx("/tmp/a.rs", None)).unwrap();
    assert_eq!(r, strs(&["%d"]));
}

#[test]
fn unsupported_code_dropped_inside_token() {
    let r = parse_command("run --x=%dvalue %d", &ctx("/tmp/a.rs", None)).unwrap();
    assert_eq!(r, strs(&["run", "--x=value"]));
}

#[test]
fn url_and_list_codes_use_the_path() {
    let r = parse_command("e %u %F %U", &ctx("/tmp/a.rs", None)).unwrap();
    assert_eq!(r, strs(&["e", "/tmp/a.rs", "/tmp/a.rs", "/tmp/a.rs"]));
}

#[test]
fn name_and_location_codes() {
    let mut c = ctx("/tmp/a.rs", None);
    let r = parse_command("e %c %k", &c).unwrap();
    assert_eq!(
        r,
        strs(&["e", "editor.desktop", "/usr/share/applications/editor.desktop"])
    );
    c.name = Some("Editor".to_string());
    let r = parse_command("e %c", &c).unwrap();
    assert_eq!(r, strs(&["e", "Editor"]));
}

#[test]
fn trailing_percent_kept() {
    assert_eq!(expand_field_codes("50%", &ctx("/x", None)), "50%");
    assert_eq!(expand_field_codes("a%fb", &ctx("/x", None)), "a/xb");
}

#[test]
fn empty_exec_fails_to_launch() {
    let a = app("", None);
    assert!(matches!(a.launch_command("/tmp/a.rs"), Err(OpenFileError::CommandParsingFailed)));
}

#[test]
fn unterminated_quote_fails_to_launch() {
    let a = app("editor \"%f", None);
    assert!(matches!(a.launch_command("/tmp/a.rs"), Err(OpenFileError::CommandParsingFailed)));
    assert!(parse_command("editor \"%f", &ctx("/tmp/a.rs", None)).is_none());
}

#[test]
fn launch_command_expands_exec() {
    let a = app("editor --new %f %i", Some("ic"));
    let r = a.launch_command("/tmp/a.rs").unwrap();
    assert_eq!(r, strs(&["editor", "--new", "/tmp/a.rs", "--icon", "ic"]));
}

#[test]
fn tokenizer_quotes_and_escapes() {
    let t = tokenize("a \"b c\" \"x\\\"y\" \"p\\q\" d\\e").unwrap();
    assert_eq!(t, strs(&["a", "b c", "x\"y", "p\\q", "d\\e"]));
    let t = tokenize("  \"\"  x\"y z\"w  ").unwrap();
    assert_eq!(t, strs(&["", "xy zw"]));
    let t = tokenize("a|b $HOME `x`").unwrap();
    assert_eq!(t, strs(&["a|b", "$HOME", "`x`"]));
    assert_eq!(tokenize("\t\n").unwrap(), Vec::<String>::new());
}

#[test]
fn tokenizer_round_trip() {
    let first = tokenize("  editor\t--flag   %f\n%i ").unwrap();
    let joined = first.join(" ");
    assert_eq!(joined, "editor --flag %f %i");
    assert_eq!(tokenize(&joined).unwrap(), first);
}

#[test]
fn quoted_empty_argument_is_kept() {
    let r = parse_command("e \"\" %f", &ctx("/t", None)).unwrap();
    assert_eq!(r, strs(&["e", "", "/t"]));
    let r = parse_command("e %f", &ctx("", None)).unwrap();
    assert_eq!(r, strs(&["e"]));
}
