use ahridocs::change::ChangeKind;
use ahridocs::command::{ChangeEvent, WatchCommand};
use ahridocs::translator::{translate, RawTransition};

fn text(path: &str) -> Option<String> {
    Some(path.to_string())
}

fn change(kind: ChangeKind, path: &str, second: &str) -> Option<WatchCommand> {
    Some(WatchCommand::ChangeEvent(ChangeEvent {
        kind,
        primary_path: path.to_string(),
        secondary_path: second.to_string(),
    }))
}

#[test]
fn created_note_is_translated() {
    assert_eq!(
        translate(RawTransition::Created(text("/docs/a.md")), false),
        change(ChangeKind::FileCreated, "/docs/a.md", "")
    );
}

#[test]
fn each_file_transition_has_its_kind() {
    assert_eq!(
        translate(RawTransition::Modified(text("/docs/a.json")), false),
        change(ChangeKind::FileModified, "/docs/a.json", "")
    );
    assert_eq!(
        translate(RawTransition::Removed(text("/docs/a.md")), false),
        change(ChangeKind::FileRemoved, "/docs/a.md", "")
    );
    assert_eq!(
        translate(RawTransition::Renamed(text("/docs/a.md"), text("/docs/b.md")), false),
        change(ChangeKind::FileRenamed, "/docs/a.md", "/docs/b.md")
    );
}

#[test]
fn each_directory_transition_has_its_kind() {
    assert_eq!(
        translate(RawTransition::Created(text("/docs/sub")), true),
        change(ChangeKind::DirCreated, "/docs/sub", "")
    );
    assert_eq!(
        translate(RawTransition::Modified(text("/docs/sub")), true),
        change(ChangeKind::DirModified, "/docs/sub", "")
    );
    assert_eq!(
        translate(RawTransition::Removed(text("/docs/sub")), true),
        change(ChangeKind::DirRemoved, "/docs/sub", "")
    );
    assert_eq!(
        translate(RawTransition::Renamed(text("/docs/sub"), text("/docs/other")), true),
        change(ChangeKind::DirRenamed, "/docs/sub", "/docs/other")
    );
}

#[test]
fn untracked_files_are_dropped() {
    assert_eq!(translate(RawTransition::Created(text("/docs/a.tmp")), false), None);
    assert_eq!(translate(RawTransition::Modified(text("/docs/a")), false), None);
    assert_eq!(translate(RawTransition::Removed(text("/docs/.md")), false), None);
    assert_eq!(
        translate(RawTransition::Renamed(text("/docs/a.md"), text("/docs/a.json")), false),
        None
    );
}

#[test]
fn paths_without_text_are_dropped() {
    assert_eq!(translate(RawTransition::Created(None), false), None);
    assert_eq!(translate(RawTransition::Created(None), true), None);
    assert_eq!(translate(RawTransition::Modified(None), true), None);
    assert_eq!(translate(RawTransition::Removed(None), true), None);
    assert_eq!(translate(RawTransition::Renamed(None, text("/docs/b.md")), false), None);
    assert_eq!(translate(RawTransition::Renamed(text("/docs/a.md"), None), false), None);
    assert_eq!(translate(RawTransition::Renamed(text("/docs/a"), None), true), None);
    assert_eq!(translate(RawTransition::Renamed(None, None), true), None);
}

#[test]
fn translated_paths_keep_their_prefix() {
    assert_eq!(
        translate(RawTransition::Created(text("\\\\?\\C:\\docs\\a.md")), false),
        change(ChangeKind::FileCreated, "\\\\?\\C:\\docs\\a.md", "")
    );
}
