use xdg_launch::application::{
    editor_entry_id, located_entry, open_file_with, Application, DetectEditorError, EntryFields,
    EntryLoad, NamedEntry,
};
use xdg_launch::commands::{code_command, command_path, gradlew_command, replace_path_separator};
use xdg_launch::search::{entry_file_names, find_entry, DirProbe};

fn strs(v: &[&str]) -> Vec<String> {
    v.iter().map(|s| s.to_string()).collect()
}

fn fields(exec: Option<&str>) -> EntryFields {
    EntryFields { exec_command: exec.map(|s| s.to_string()), icon: None, name: None }
}

#[test]
fn mime_rust_preferred() {
    let r = editor_entry_id(Some("rust.desktop".to_string()), Some("plain.desktop".to_string()));
    assert_eq!(r.ok(), Some("rust.desktop".to_string()));
}

#[test]
fn mime_falls_back_to_plain() {
    let r = editor_entry_id(None, Some("plain.desktop".to_string()));
    assert_eq!(r.ok(), Some("plain.desktop".to_string()));
}

#[test]
fn mime_both_fail() {
    assert!(matches!(editor_entry_id(None, None), Err(DetectEditorError::NoDefaultEditorSet)));
}

#[test]
fn first_directory_wins() {
    let probes = vec![
        DirProbe::Found("/home/u/.local/share/applications/e.desktop".to_string()),
        DirProbe::Found("/usr/share/applications/e.desktop".to_string()),
    ];
    assert_eq!(
        find_entry(&probes),
        Some("/home/u/.local/share/applications/e.desktop".to_string())
    );
}

#[test]
fn unreadable_directory_is_skipped() {
    let probes = vec![
        DirProbe::Unreadable,
        DirProbe::Missing,
        DirProbe::Found("/usr/share/applications/e.desktop".to_string()),
    ];
    assert_eq!(find_entry(&probes), Some("/usr/share/applications/e.desktop".to_string()));
}

#[test]
fn nothing_found() {
    let probes = vec![DirProbe::Unreadable, DirProbe::Missing];
    let found = find_entry(&probes);
    assert_eq!(found, None);
    assert!(matches!(located_entry(found), Err(DetectEditorError::FreeDesktopEntryNotFound)));
    assert_eq!(located_entry(Some("/p".to_string())).ok(), Some("/p".to_string()));
}

#[test]
fn entry_names_with_dashes() {
    assert_eq!(entry_file_names("code.desktop"), strs(&["code.desktop"]));
    assert_eq!(entry_file_names("org-gnome-edit.desktop"), strs(&["org-gnome-edit.desktop", "org/gnome/edit.desktop"]));
}

#[test]
fn entry_errors() {
    let r = Application::from_entry("e".to_string(), "/p".to_string(), EntryLoad::LookupFailed("denied".to_string()));
    assert!(matches!(r, Err(DetectEditorError::FreeDesktopEntryLookupFailed(m)) if m == "denied"));
    let r = Application::from_entry("e".to_string(), "/p".to_string(), EntryLoad::ParseFailed("bad".to_string()));
    assert!(matches!(r, Err(DetectEditorError::FreeDesktopEntryParseError(m)) if m == "bad"));
    let r = Application::from_entry("e".to_string(), "/p".to_string(), EntryLoad::Parsed(fields(None)));
    assert!(matches!(r, Err(DetectEditorError::ExecFieldMissing)));
    let r = Application::from_entry("e".to_string(), "/p".to_string(), EntryLoad::Parsed(fields(Some("ed %f"))));
    let a = r.ok().unwrap();
    assert_eq!(a.exec_command, "ed %f");
    assert_eq!(a.xdg_entry_path, "/p");
}

#[test]
fn open_with_falls_back_to_name() {
    let r = open_file_with("gedit", "/tmp/a.rs", &vec![None, None]);
    assert_eq!(r, strs(&["gedit"]));
}

#[test]
fn open_with_uses_first_usable_entry() {
    let unusable = NamedEntry { entry_id: "a".to_string(), entry_path: "/a".to_string(), fields: fields(Some("%i")) };
    let no_exec = NamedEntry { entry_id: "b".to_string(), entry_path: "/b".to_string(), fields: fields(None) };
    let good = NamedEntry { entry_id: "c".to_string(), entry_path: "/c".to_string(), fields: fields(Some("gedit %U")) };
    let other = NamedEntry { entry_id: "d".to_string(), entry_path: "/d".to_string(), fields: fields(Some("other %f")) };
    let r = open_file_with("gedit", "/tmp/a.rs", &vec![Some(unusable), None, Some(no_exec), Some(good), Some(other)]);
    assert_eq!(r, strs(&["gedit", "/tmp/a.rs"]));
}

#[test]
fn fixed_commands() {
    assert_eq!(code_command(), strs(&["code"]));
    assert_eq!(command_path("cargo"), strs(&["sh", "-c", "command -v cargo"]));
    assert_eq!(gradlew_command("/proj"), strs(&["/proj/gradlew", "--project-dir", "/proj"]));
    assert_eq!(gradlew_command("/proj/"), strs(&["/proj/gradlew", "--project-dir", "/proj/"]));
    assert_eq!(gradlew_command(""), strs(&["gradlew", "--project-dir", ""]));
    assert_eq!(replace_path_separator("a/b".to_string()), "a/b");
}
