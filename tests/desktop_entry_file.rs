use xdg_launch::application::{Application, DetectEditorError, EntryLoad};
use xdg_launch::desktop_entry::{load_entry, parse_entry};

#[test]
fn reads_desktop_entry_group() {
    let text = "# comment\n[Desktop Entry]\nName=Editor\nName[de]=Bearbeiter\nExec=editor %f\nIcon=edit-icon\n\n[Desktop Action new]\nExec=editor --new\n";
    let f = parse_entry(text).unwrap();
    assert_eq!(f.exec_command, Some("editor %f".to_string()));
    assert_eq!(f.icon, Some("edit-icon".to_string()));
    assert_eq!(f.name, Some("Editor".to_string()));
}

#[test]
fn keys_outside_the_group_are_ignored() {
    let text = "[Other]\nExec=wrong\n[Desktop Entry]\nType=Application\n";
    let f = parse_entry(text).unwrap();
    assert_eq!(f.exec_command, None);
    assert_eq!(f.icon, None);
    let r = Application::from_entry("e".to_string(), "/p".to_string(), load_entry(Ok(text.to_string())));
    assert!(matches!(r, Err(DetectEditorError::ExecFieldMissing)));
}

#[test]
fn first_value_wins_and_empty_value_kept() {
    let f = parse_entry("[Desktop Entry]\nIcon=\nExec=a\nExec=b").unwrap();
    assert_eq!(f.exec_command, Some("a".to_string()));
    assert_eq!(f.icon, Some(String::new()));
}

#[test]
fn malformed_line_is_a_parse_error() {
    assert!(parse_entry("[Desktop Entry]\nnot a pair\n").is_none());
    assert!(matches!(load_entry(Ok("garbage".to_string())), EntryLoad::ParseFailed(_)));
    let r = Application::from_entry("e".to_string(), "/p".to_string(), load_entry(Ok("x".to_string())));
    assert!(matches!(r, Err(DetectEditorError::FreeDesktopEntryParseError(_))));
}

#[test]
fn read_error_is_a_lookup_failure() {
    let r = load_entry(Err("permission denied".to_string()));
    assert!(matches!(r, EntryLoad::LookupFailed(ref m) if m == "permission denied"));
    let r = Application::from_entry("e".to_string(), "/p".to_string(), r);
    assert!(matches!(r, Err(DetectEditorError::FreeDesktopEntryLookupFailed(_))));
}

#[test]
fn full_entry_to_command() {
    let text = "[Desktop Entry]\nExec=editor \"--title=%c\" %f %i\nIcon=ic\nName=Ed\n";
    let a = Application::from_entry("ed.desktop".to_string(), "/apps/ed.desktop".to_string(), load_entry(Ok(text.to_string())))
        .ok()
        .unwrap();
    let argv = a.launch_command("/tmp/a.rs").unwrap();
    assert_eq!(argv, vec!["editor", "--title=Ed", "/tmp/a.rs", "--icon", "ic"]);
}
