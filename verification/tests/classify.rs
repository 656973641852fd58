use ahridocs::change::{
    classify, is_tracked_extension, path_is_tracked, same_extension, ChangeKind, Transition,
};

fn renamed(to: &str) -> Transition {
    Transition::Renamed(to.to_string())
}

#[test]
fn created_note_is_file_created() {
    assert_eq!(classify("note.md", false, &Transition::Created), Some(ChangeKind::FileCreated));
}

#[test]
fn created_temporary_file_is_ignored() {
    assert_eq!(classify("note.tmp", false, &Transition::Created), None);
}

#[test]
fn created_directory_is_dir_created_whatever_its_name() {
    assert_eq!(classify("notes/", true, &Transition::Created), Some(ChangeKind::DirCreated));
    assert_eq!(classify("notes", true, &Transition::Created), Some(ChangeKind::DirCreated));
    assert_eq!(classify("notes.tmp", true, &Transition::Created), Some(ChangeKind::DirCreated));
    assert_eq!(classify("", true, &Transition::Created), Some(ChangeKind::DirCreated));
}

#[test]
fn directories_always_classify() {
    let paths = ["/docs", "/docs/a.md", "/docs/a.tmp", "/docs/.git", "C:\\docs\\sub"];
    for path in paths {
        assert_eq!(classify(path, true, &Transition::Created), Some(ChangeKind::DirCreated));
        assert_eq!(classify(path, true, &Transition::Modified), Some(ChangeKind::DirModified));
        assert_eq!(classify(path, true, &Transition::Removed), Some(ChangeKind::DirRemoved));
        assert_eq!(classify(path, true, &renamed("/elsewhere")), Some(ChangeKind::DirRenamed));
    }
}

#[test]
fn files_classify_exactly_with_a_tracked_extension() {
    let reported = ["/docs/a.md", "/docs/data.json", "a.b.md", "C:\\docs\\a.json", "..md"];
    for path in reported {
        assert_eq!(classify(path, false, &Transition::Created), Some(ChangeKind::FileCreated));
        assert_eq!(classify(path, false, &Transition::Modified), Some(ChangeKind::FileModified));
        assert_eq!(classify(path, false, &Transition::Removed), Some(ChangeKind::FileRemoved));
    }
    let ignored = [
        "/docs/a.txt",
        "/docs/a.ahtml",
        "/docs/a",
        "/docs/.md",
        ".json",
        "/docs/a.md/",
        "/docs.md/a",
        "/docs/a.MD",
        "/docs/a.md ",
        "/docs/a.mdx",
        "/docs/a.",
        "",
    ];
    for path in ignored {
        assert_eq!(classify(path, false, &Transition::Created), None);
        assert_eq!(classify(path, false, &Transition::Modified), None);
        assert_eq!(classify(path, false, &Transition::Removed), None);
    }
}

#[test]
fn file_rename_needs_the_same_tracked_extension_on_both_ends() {
    assert_eq!(classify("/docs/a.md", false, &renamed("/docs/b.md")), Some(ChangeKind::FileRenamed));
    assert_eq!(
        classify("/docs/a.json", false, &renamed("/docs/b.json")),
        Some(ChangeKind::FileRenamed)
    );
    assert_eq!(classify("/docs/a.md", false, &renamed("/docs/b.json")), None);
    assert_eq!(classify("/docs/a.json", false, &renamed("/docs/b.md")), None);
    assert_eq!(classify("/docs/a.md", false, &renamed("/docs/b.txt")), None);
    assert_eq!(classify("/docs/a.txt", false, &renamed("/docs/b.md")), None);
    assert_eq!(classify("/docs/a.txt", false, &renamed("/docs/b.txt")), None);
    assert_eq!(classify("/docs/a", false, &renamed("/docs/b")), None);
    assert_eq!(classify("/docs/a.md", false, &renamed("/docs/b")), None);
}

#[test]
fn directory_rename_is_not_gated_by_extension() {
    assert_eq!(classify("/docs/a.md", true, &renamed("/docs/b.txt")), Some(ChangeKind::DirRenamed));
    assert_eq!(classify("/docs/old", true, &renamed("/docs/new")), Some(ChangeKind::DirRenamed));
}

#[test]
fn classification_is_deterministic() {
    let transitions = [
        Transition::Created,
        Transition::Modified,
        Transition::Removed,
        renamed("/docs/b.md"),
    ];
    for path in ["/docs/a.md", "/docs/a.tmp", "/docs"] {
        for is_directory in [false, true] {
            for transition in &transitions {
                assert_eq!(
                    classify(path, is_directory, transition),
                    classify(path, is_directory, transition)
                );
            }
        }
    }
}

#[test]
fn tracked_extensions_are_md_and_json() {
    assert!(is_tracked_extension("md"));
    assert!(is_tracked_extension("json"));
    assert!(!is_tracked_extension("ahtml"));
    assert!(!is_tracked_extension("MD"));
    assert!(!is_tracked_extension("m"));
    assert!(!is_tracked_extension("mdd"));
    assert!(!is_tracked_extension("jsom"));
    assert!(!is_tracked_extension("jso"));
    assert!(!is_tracked_extension(""));
    assert!(!is_tracked_extension("mé"));
}

#[test]
fn tracked_paths() {
    assert!(path_is_tracked("a.md"));
    assert!(path_is_tracked("/x/y.json"));
    assert!(!path_is_tracked("/x/y.jsonl"));
    assert!(!path_is_tracked("md"));
    assert!(!path_is_tracked("/x.md/y"));
}

#[test]
fn same_extension_compares_both_ends() {
    assert!(same_extension("a.md", "b.md"));
    assert!(same_extension("a", "b"));
    assert!(same_extension("a.", "b."));
    assert!(!same_extension("a.md", "b.json"));
    assert!(!same_extension("a.md", "b"));
    assert!(!same_extension("a", "b.md"));
    assert!(!same_extension("a.", "b"));
}

#[test]
fn kind_codes() {
    assert_eq!(ChangeKind::DirCreated.code(), 1);
    assert_eq!(ChangeKind::FileCreated.code(), 2);
    assert_eq!(ChangeKind::DirModified.code(), 3);
    assert_eq!(ChangeKind::FileModified.code(), 4);
    assert_eq!(ChangeKind::DirRemoved.code(), -1);
    assert_eq!(ChangeKind::FileRemoved.code(), -2);
    assert_eq!(ChangeKind::DirRenamed.code(), 5);
    assert_eq!(ChangeKind::FileRenamed.code(), 6);
}

#[test]
fn kind_codes_round_trip() {
    let kinds = [
        ChangeKind::DirCreated,
        ChangeKind::FileCreated,
        ChangeKind::DirModified,
        ChangeKind::FileModified,
        ChangeKind::DirRemoved,
        ChangeKind::FileRemoved,
        ChangeKind::DirRenamed,
        ChangeKind::FileRenamed,
    ];
    for kind in kinds {
        assert_eq!(ChangeKind::from_code(kind.code()), Some(kind));
    }
    for code in [0i32, 7, -3, 100, -100, i32::MAX, i32::MIN] {
        assert_eq!(ChangeKind::from_code(code), None);
    }
}

#[test]
fn kind_predicates() {
    assert!(ChangeKind::DirCreated.is_directory());
    assert!(ChangeKind::DirModified.is_directory());
    assert!(ChangeKind::DirRemoved.is_directory());
    assert!(ChangeKind::DirRenamed.is_directory());
    assert!(!ChangeKind::FileCreated.is_directory());
    assert!(!ChangeKind::FileModified.is_directory());
    assert!(!ChangeKind::FileRemoved.is_directory());
    assert!(!ChangeKind::FileRenamed.is_directory());
    assert!(ChangeKind::DirRenamed.is_rename());
    assert!(ChangeKind::FileRenamed.is_rename());
    assert!(!ChangeKind::FileCreated.is_rename());
    assert!(!ChangeKind::DirRemoved.is_rename());
}
