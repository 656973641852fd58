use ahridocs::change::ChangeKind;
use ahridocs::command::ChangeEvent;
use ahridocs::entity::{
    Config, FileTree, Message, OpenFile, OpenFolder, Response, WatchRequest, FAILURE_CODE,
    FOLDER_CHOSEN, FOLDER_MISSING, MESSAGE_NOT_A_DIRECTORY, SUCCESS_CODE, TREE_DIRECTORY,
};

#[test]
fn response_codes() {
    assert_eq!(SUCCESS_CODE, 10000);
    assert_eq!(FAILURE_CODE, 50000);
}

#[test]
fn successful_response() {
    let response = Response::success(true);
    assert_eq!(response.code, 10000);
    assert_eq!(response.msg, "success");
    assert!(response.data);
    assert!(response.is_success());
}

#[test]
fn failed_response() {
    let response = Response::failure("permission denied".to_string(), false);
    assert_eq!(response.code, 50000);
    assert_eq!(response.msg, "permission denied");
    assert!(!response.data);
    assert!(!response.is_success());
}

#[test]
fn response_from_result() {
    let file = OpenFile::new("/docs/a.md".to_string(), String::new(), 12);
    let created: Response<Option<OpenFile>> = Response::from_result(Ok(Some(file.clone())), None);
    assert_eq!(created, Response { code: 10000, msg: "success".to_string(), data: Some(file) });

    let refused: Response<Option<OpenFile>> =
        Response::from_result(Err("file exists".to_string()), None);
    assert_eq!(refused, Response { code: 50000, msg: "file exists".to_string(), data: None });

    let config: Response<Config> =
        Response::from_result(Err("expected value".to_string()), Config::empty());
    assert_eq!(config.code, 50000);
    assert_eq!(config.data, Config { token: String::new(), project: String::new() });
}

#[test]
fn open_file_has_type_zero() {
    let file = OpenFile::new("/docs/a.md".to_string(), "# a".to_string(), 7);
    assert_eq!(
        file,
        OpenFile { type_: 0, path: "/docs/a.md".to_string(), content: "# a".to_string(), updated: 7 }
    );
}

#[test]
fn folder_choices() {
    assert_eq!(FOLDER_CHOSEN, 0);
    assert_eq!(FOLDER_MISSING, 1);
    assert_eq!(
        OpenFolder::from_selection(Some("/docs".to_string())),
        OpenFolder { type_: 0, path: Box::new("/docs".to_string()) }
    );
    assert_eq!(
        OpenFolder::from_selection(None),
        OpenFolder { type_: 1, path: Box::new("path not found".to_string()) }
    );
    assert_eq!(OpenFolder::chosen("/x".to_string()).type_, 0);
    assert_eq!(*OpenFolder::missing().path, "path not found");
}

#[test]
fn folder_choice_asks_for_a_watch() {
    let chosen = OpenFolder::chosen("/docs".to_string());
    assert_eq!(chosen.watch_request(true), WatchRequest::Watch("/docs".to_string()));
    assert_eq!(chosen.watch_request(false), WatchRequest::NotADirectory("/docs".to_string()));
    let closed = OpenFolder { type_: 1, path: Box::new(String::new()) };
    assert_eq!(closed.watch_request(true), WatchRequest::Stop);
    assert_eq!(closed.watch_request(false), WatchRequest::Stop);
    let other = OpenFolder { type_: -7, path: Box::new("/docs".to_string()) };
    assert_eq!(other.watch_request(true), WatchRequest::Stop);
}

#[test]
fn message_of_a_change() {
    let message = Message::from_change(ChangeEvent {
        kind: ChangeKind::FileRenamed,
        primary_path: "/docs/a.md".to_string(),
        secondary_path: "/docs/b.md".to_string(),
    });
    assert_eq!(
        message,
        Message {
            type_: 6,
            path: Box::new("/docs/a.md".to_string()),
            path2: Box::new("/docs/b.md".to_string()),
        }
    );
    let removed =
        Message::from_change(ChangeEvent::new(ChangeKind::DirRemoved, "/docs/sub".to_string()));
    assert_eq!(removed.type_, -1);
    assert_eq!(*removed.path2, "");
}

#[test]
fn message_for_a_path_that_is_no_directory() {
    assert_eq!(MESSAGE_NOT_A_DIRECTORY, 0);
    assert_eq!(
        Message::not_a_directory("\\\\?\\C:\\docs\\a.md"),
        Message {
            type_: 0,
            path: Box::new("C:\\docs\\a.md".to_string()),
            path2: Box::new(String::new()),
        }
    );
    assert_eq!(*Message::not_a_directory("/docs/a.md").path, "/docs/a.md");
}

#[test]
fn empty_config() {
    assert_eq!(Config::empty(), Config { token: String::new(), project: String::new() });
}

#[test]
fn tree_entries() {
    let note = FileTree::file(1, "a.md".to_string(), "/docs/a.md".to_string(), 3);
    assert_eq!(note.type_, 1);
    assert_eq!(note.children, None);
    let dir = FileTree::directory("docs".to_string(), "/docs".to_string(), 9, vec![note]);
    assert_eq!(dir.type_, TREE_DIRECTORY);
    assert_eq!(dir.name, "docs");
    assert_eq!(dir.path, "/docs");
    assert_eq!(dir.updated, 9);
    assert_eq!(dir.children.as_ref().map(|c| c.len()), Some(1));
}

#[test]
fn empty_config_text() {
    assert_eq!(Config::empty_text(), "{\n  \"token\": \"\",\n  \"project\": \"\"\n}");
}
