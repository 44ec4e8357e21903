//! Reading a file for the presentation layer: what is handed back for a
//! path, given what the disk answered. The caller joins a relative path to
//! the working directory, resolves it and reads the file; each failure is
//! reported once, with the detail that the user needs.

use vstd::prelude::*;
use vstd::string::*;
use crate::text::{concat3, text_of};

verus! {

/// A file that was read: its text, its canonical absolute path, and the
/// canonical directory that holds it (empty where the path has no parent).
pub struct FileResult {
    pub content: String,
    pub path: String,
    pub dir: String,
}

/// What a `FileResult` is.
pub struct FileModel {
    pub content: Seq<char>,
    pub path: Seq<char>,
    pub dir: Seq<char>,
}

impl View for FileResult {
    type V = FileModel;

    open spec fn view(&self) -> FileModel {
        FileModel { content: self.content@, path: self.path@, dir: self.dir@ }
    }
}

/// Why a file could not be handed back. The text is the message for the
/// user.
pub enum PathError {
    /// The path does not resolve: it does not exist, may not be entered, or
    /// the disk failed.
    Unresolvable(String),
    /// The file could not be read as UTF-8 text.
    Unreadable(String),
}

/// What a `PathError` is.
pub enum PathFailure {
    Unresolvable(Seq<char>),
    Unreadable(Seq<char>),
}

impl View for PathError {
    type V = PathFailure;

    open spec fn view(&self) -> PathFailure {
        match self {
            PathError::Unresolvable(reason) => PathFailure::Unresolvable(reason@),
            PathError::Unreadable(reason) => PathFailure::Unreadable(reason@),
        }
    }
}

/// What the disk answered for a path.
pub enum DiskAnswer {
    /// The path is relative and the working directory could not be had.
    NoWorkingDir(String),
    /// The path could not be made canonical.
    NotResolved(String),
    /// The canonical path was found and the file could not be read.
    NotRead { canonical: String, reason: String },
    /// The file was read. `parent` is the canonical path's parent, where it
    /// has one.
    Read { canonical: String, parent: Option<String>, content: String },
}

/// What a `DiskAnswer` is.
pub enum AnswerModel {
    NoWorkingDir(Seq<char>),
    NotResolved(Seq<char>),
    NotRead { canonical: Seq<char>, reason: Seq<char> },
    Read { canonical: Seq<char>, parent: Option<Seq<char>>, content: Seq<char> },
}

impl View for DiskAnswer {
    type V = AnswerModel;

    open spec fn view(&self) -> AnswerModel {
        match self {
            DiskAnswer::NoWorkingDir(reason) => AnswerModel::NoWorkingDir(reason@),
            DiskAnswer::NotResolved(reason) => AnswerModel::NotResolved(reason@),
            DiskAnswer::NotRead { canonical, reason } => AnswerModel::NotRead {
                canonical: canonical@,
                reason: reason@,
            },
            DiskAnswer::Read { canonical, parent, content } => AnswerModel::Read {
                canonical: canonical@,
                parent: match parent {
                    Some(p) => Some(p@),
                    None => None,
                },
                content: content@,
            },
        }
    }
}

/// The result of a read, both sides by their views.
pub open spec fn read_view(r: Result<FileResult, PathError>) -> Result<FileModel, PathFailure> {
    match r {
        Ok(f) => Ok(f@),
        Err(e) => Err(e@),
    }
}

/// What is handed back for `path`, given the disk's answer.
pub open spec fn read_outcome(path: Seq<char>, answer: AnswerModel) -> Result<FileModel, PathFailure> {
    match answer {
        AnswerModel::NoWorkingDir(reason) => Err(PathFailure::Unresolvable(reason)),
        AnswerModel::NotResolved(reason) => Err(
            PathFailure::Unresolvable("Cannot resolve path '"@ + path + "': "@ + reason),
        ),
        AnswerModel::NotRead { canonical, reason } => Err(
            PathFailure::Unreadable("Cannot read file '"@ + canonical + "': "@ + reason),
        ),
        AnswerModel::Read { canonical, parent, content } => Ok(
            FileModel {
                content: content,
                path: canonical,
                dir: match parent {
                    Some(p) => p,
                    None => Seq::empty(),
                },
            },
        ),
    }
}

/// A path is absolute where it begins at the root, `/`.
pub open spec fn is_absolute(path: Seq<char>) -> bool {
    path.len() > 0 && path[0] == '/'
}

/// Whether the working directory is needed to find `path`: a path that is
/// not absolute is joined to it before it is resolved.
pub fn needs_working_dir(path: &str) -> (r: bool)
    ensures
        r == !is_absolute(path@),
{
    path.is_empty() || path.get_char(0) != '/'
}

/// What is handed back for `path`, given the disk's answer: the file with
/// its canonical path and directory, or the failure with its message.
pub fn read_file(path: &str, answer: DiskAnswer) -> (r: Result<FileResult, PathError>)
    ensures
        read_view(r) == read_outcome(path@, answer@),
{
    match answer {
        DiskAnswer::NoWorkingDir(reason) => Err(PathError::Unresolvable(reason)),
        DiskAnswer::NotResolved(reason) => {
            let mut message = concat3("Cannot resolve path '", path, "': ");
            message.append(reason.as_str());
            Err(PathError::Unresolvable(message))
        },
        DiskAnswer::NotRead { canonical, reason } => {
            let mut message = concat3("Cannot read file '", canonical.as_str(), "': ");
            message.append(reason.as_str());
            Err(PathError::Unreadable(message))
        },
        DiskAnswer::Read { canonical, parent, content } => {
            let dir = match parent {
                Some(p) => p,
                None => String::new(),
            };
            Ok(FileResult { content, path: canonical, dir })
        },
    }
}

impl PathError {
    /// The message for the user.
    pub fn message(&self) -> (r: String)
        ensures
            r@ == (match self@ {
                PathFailure::Unresolvable(reason) => reason,
                PathFailure::Unreadable(reason) => reason,
            }),
    {
        match self {
            PathError::Unresolvable(reason) => reason.clone(),
            PathError::Unreadable(reason) => reason.clone(),
        }
    }
}

/// A directory above the file in question, and whether it holds a
/// repository's metadata directory.
pub struct DirProbe {
    pub dir: String,
    pub has_git: bool,
}

/// The position of the first directory that holds a repository, looking
/// from position `from` on; the number of directories where none does.
pub open spec fn first_repository(dirs: Seq<DirProbe>, from: int) -> int
    decreases dirs.len() - from,
{
    if from < 0 || from >= dirs.len() {
        dirs.len() as int
    } else if dirs[from].has_git {
        from
    } else {
        first_repository(dirs, from + 1)
    }
}

/// The root of the project that a file belongs to: the nearest directory
/// that holds a repository. `dirs` lists the directories from the file's
/// own upwards.
pub fn find_project_root(dirs: &Vec<DirProbe>) -> (r: Option<String>)
    ensures
        text_of(r) == (if first_repository(dirs@, 0) < dirs@.len() {
            Some(dirs@[first_repository(dirs@, 0)].dir@)
        } else {
            None
        }),
{
    let n: usize = dirs.len();
    let mut i: usize = 0;
    while i < n
        invariant
            i <= n,
            n == dirs@.len(),
            first_repository(dirs@, 0) == first_repository(dirs@, i as int),
        decreases n - i,
    {
        if dirs[i].has_git {
            return Some(dirs[i].dir.clone());
        }
        i += 1;
    }
    None
}

/// What revealing a file in the file manager comes to: `started` is `Ok`
/// where the file manager's launcher could be started, else the reason.
pub fn reveal_in_finder(started: Result<(), String>) -> (r: Result<(), String>)
    ensures
        r is Ok <==> started is Ok,
        r matches Err(message) ==> started matches Err(reason) && message@
            == "Failed to reveal in Finder: "@ + reason@,
{
    match started {
        Ok(_) => Ok(()),
        Err(reason) => {
            let mut message = String::from_str("Failed to reveal in Finder: ");
            message.append(reason.as_str());
            Err(message)
        },
    }
}

} // verus!
