//! The records that cross the boundary to the user interface.

use vstd::prelude::*;
use crate::command::ChangeEvent;
use crate::path::{normalize_path, normalized};

verus! {

/// The code of an answer that carries what was asked for.
pub const SUCCESS_CODE: i32 = 10000;

/// The code of an answer that reports a failure.
pub const FAILURE_CODE: i32 = 50000;

/// The `type_` of a directory in a file tree.
pub const TREE_DIRECTORY: i32 = 0;

/// The `type_` of a note (extension `md`) in a file tree.
pub const TREE_NOTE: i32 = 1;

/// The `type_` of a rendered page (extension `ahtml`) in a file tree.
pub const TREE_PAGE: i32 = 2;

/// The `type_` of the message that answers a request to watch a path that is no
/// directory.
pub const MESSAGE_NOT_A_DIRECTORY: i32 = 0;

/// The `type_` of a folder choice that names a folder.
pub const FOLDER_CHOSEN: i32 = 0;

/// The `type_` of a folder choice that names none.
pub const FOLDER_MISSING: i32 = 1;

/// The answer to a request: a code, a message and the data.
#[derive(Debug, Clone, PartialEq, Eq)]
pub struct Response<T> {
    pub code: i32,
    pub msg: String,
    pub data: T,
}

/// One entry of the tree below the opened folder.
#[derive(Debug, PartialEq, Eq)]
pub struct FileTree {
    pub type_: i32,
    pub name: String,
    pub path: String,
    pub updated: i64,
    pub children: Option<Vec<FileTree>>,
}

/// A change as it is sent to the user interface: the number of its kind and its paths.
#[derive(Debug, Clone, PartialEq, Eq)]
pub struct Message {
    pub type_: i32,
    pub path: Box<String>,
    pub path2: Box<String>,
}

/// The outcome of choosing a folder.
#[derive(Debug, Clone, PartialEq, Eq)]
pub struct OpenFolder {
    pub type_: i32,
    pub path: Box<String>,
}

/// A file with its content.
#[derive(Debug, Clone, PartialEq, Eq)]
pub struct OpenFile {
    pub type_: i32,
    pub path: String,
    pub content: String,
    pub updated: i64,
}

/// The settings that are kept with a folder.
#[derive(Debug, Clone, PartialEq, Eq)]
pub struct Config {
    pub token: String,
    pub project: String,
}

/// What a folder choice asks of the watch.
#[derive(Debug, Clone, PartialEq, Eq)]
pub enum WatchRequest {
    /// Watch this folder.
    Watch(String),
    /// The choice names a path that is no directory: there is nothing to watch.
    NotADirectory(String),
    /// Watch nothing.
    Stop,
}

/// The mathematical value of a [`WatchRequest`].
pub enum WatchRequestView {
    Watch(Seq<char>),
    NotADirectory(Seq<char>),
    Stop,
}

impl View for WatchRequest {
    type V = WatchRequestView;

    open spec fn view(&self) -> WatchRequestView {
        match self {
            WatchRequest::Watch(root) => WatchRequestView::Watch(root@),
            WatchRequest::NotADirectory(path) => WatchRequestView::NotADirectory(path@),
            WatchRequest::Stop => WatchRequestView::Stop,
        }
    }
}

impl<T> Response<T> {
    /// The answer that carries `data`.
    pub fn success(data: T) -> (response: Response<T>)
        ensures
            response.code == SUCCESS_CODE,
            response.msg@ == "success"@,
            response.data == data,
    {
        Response { code: SUCCESS_CODE, msg: "success".to_owned(), data }
    }

    /// The answer that reports a failure with the words `msg`, and carries `data` in
    /// place of what was asked for.
    pub fn failure(msg: String, data: T) -> (response: Response<T>)
        ensures
            response.code == FAILURE_CODE,
            response.msg == msg,
            response.data == data,
    {
        Response { code: FAILURE_CODE, msg, data }
    }

    /// The answer for the outcome of an operation: its value on success, and
    /// `fallback` with the error's words on failure.
    pub fn from_result(result: Result<T, String>, fallback: T) -> (response: Response<T>)
        ensures
            match result {
                Ok(data) => response.code == SUCCESS_CODE && response.msg@ == "success"@
                    && response.data == data,
                Err(msg) => response.code == FAILURE_CODE && response.msg == msg && response.data
                    == fallback,
            },
    {
        match result {
            Ok(data) => Response::success(data),
            Err(msg) => Response::failure(msg, fallback),
        }
    }

    /// Whether the answer carries what was asked for.
    pub fn is_success(&self) -> (ok: bool)
        ensures
            ok == (self.code == SUCCESS_CODE),
    {
        self.code == SUCCESS_CODE
    }
}

impl FileTree {
    /// A directory with the entries below it.
    pub fn directory(name: String, path: String, updated: i64, children: Vec<FileTree>) -> (entry:
        FileTree)
        ensures
            entry.type_ == TREE_DIRECTORY,
            entry.name == name,
            entry.path == path,
            entry.updated == updated,
            entry.children == Some(children),
    {
        FileTree { type_: TREE_DIRECTORY, name, path, updated, children: Some(children) }
    }

    /// A file of the given type.
    pub fn file(type_: i32, name: String, path: String, updated: i64) -> (entry: FileTree)
        ensures
            entry.type_ == type_,
            entry.name == name,
            entry.path == path,
            entry.updated == updated,
            entry.children is None,
    {
        FileTree { type_, name, path, updated, children: None }
    }
}

impl Message {
    /// The message that tells the user interface of `event`.
    pub fn from_change(event: ChangeEvent) -> (message: Message)
        ensures
            message.type_ == event.kind.code_of(),
            *message.path == event.primary_path,
            *message.path2 == event.secondary_path,
    {
        Message {
            type_: event.kind.code(),
            path: Box::new(event.primary_path),
            path2: Box::new(event.secondary_path),
        }
    }

    /// The message that tells the user interface that `path`, which it asked to have
    /// watched, is no directory.
    pub fn not_a_directory(path: &str) -> (message: Message)
        ensures
            message.type_ == MESSAGE_NOT_A_DIRECTORY,
            message.path@ == normalized(path@),
            message.path2@ == Seq::<char>::empty(),
    {
        Message {
            type_: MESSAGE_NOT_A_DIRECTORY,
            path: Box::new(normalize_path(path)),
            path2: Box::new(String::new()),
        }
    }
}

impl OpenFolder {
    /// The choice of the folder at `path`.
    pub fn chosen(path: String) -> (choice: OpenFolder)
        ensures
            choice.type_ == FOLDER_CHOSEN,
            *choice.path == path,
    {
        OpenFolder { type_: FOLDER_CHOSEN, path: Box::new(path) }
    }

    /// The choice of no folder.
    pub fn missing() -> (choice: OpenFolder)
        ensures
            choice.type_ == FOLDER_MISSING,
            choice.path@ == "path not found"@,
    {
        OpenFolder { type_: FOLDER_MISSING, path: Box::new("path not found".to_owned()) }
    }

    /// The choice that a folder dialog ended with: a path, or nothing.
    pub fn from_selection(selection: Option<String>) -> (choice: OpenFolder)
        ensures
            match selection {
                Some(path) => choice.type_ == FOLDER_CHOSEN && *choice.path == path,
                None => choice.type_ == FOLDER_MISSING && choice.path@ == "path not found"@,
            },
    {
        match selection {
            Some(path) => OpenFolder::chosen(path),
            None => OpenFolder::missing(),
        }
    }

    /// What the choice asks of the watch.  `is_directory` says whether the chosen path
    /// is a directory now.
    pub fn watch_request(&self, is_directory: bool) -> (request: WatchRequest)
        ensures
            request@ == if self.type_ != FOLDER_CHOSEN {
                WatchRequestView::Stop
            } else if is_directory {
                WatchRequestView::Watch(self.path@)
            } else {
                WatchRequestView::NotADirectory(self.path@)
            },
    {
        if self.type_ != FOLDER_CHOSEN {
            WatchRequest::Stop
        } else if is_directory {
            WatchRequest::Watch((*self.path).clone())
        } else {
            WatchRequest::NotADirectory((*self.path).clone())
        }
    }
}

impl OpenFile {
    /// The file at `path` with its content and the age of its last change.
    pub fn new(path: String, content: String, updated: i64) -> (file: OpenFile)
        ensures
            file.type_ == 0,
            file.path == path,
            file.content == content,
            file.updated == updated,
    {
        OpenFile { type_: 0, path, content, updated }
    }
}

impl Config {
    /// The JSON text of the empty settings, as it is written into a folder.
    pub fn empty_text() -> (text: &'static str)
        ensures
            text@ == "{\n  \"token\": \"\",\n  \"project\": \"\"\n}"@,
    {
        "{\n  \"token\": \"\",\n  \"project\": \"\"\n}"
    }

    /// The settings of a folder that has none yet: both fields empty.
    pub fn empty() -> (config: Config)
        ensures
            config.token@ == Seq::<char>::empty(),
            config.project@ == Seq::<char>::empty(),
    {
        Config { token: String::new(), project: String::new() }
    }
}

} // verus!
