//! The errors of the library: the filesystem error kinds with their codes,
//! the filesystem exceptions that carry a path and a message, and `Error`.
use vstd::prelude::*;

use crate::code::{Code, code_desc, code_to_u8};
use crate::path::Path;
use crate::text::{decimal, owned, push_decimal};

verus! {

/// The text `{:?}` gives for a string: quoted, with special characters escaped.
pub uninterp spec fn debug_quoted(s: Seq<char>) -> Seq<char>;

/// Formats `s` with `{:?}` (`<str as Debug>::fmt`).
#[verifier::external_body]
pub(crate) fn debug_text(s: &str) -> (r: String)
    ensures
        r@ == debug_quoted(s@),
{
    format!("{:?}", s)
}

/// A kind of filesystem failure.
#[derive(Debug, Clone, Copy, PartialEq, Eq, Structural)]
pub enum FileSystemError {
    PathDoesNotExist,
    PathIsNotSymlink,
    CreateFile,
    CreateSymlink,
    NoAncestorPath,
    OpenFile,
    AppendFile,
    NonWritablePath,
    NonReadablePath,
    NonExecutablePath,
    WriteFile,
    WriteFlush,
    SetMode,
    MoveFile,
    ReadFile,
    DeleteFile,
    DeleteDirectory,
    UnexpectedPathType,
    AbsolutePath,
    CanonicalPath,
    ReadSymlink,
    CreateDirectory,
    UnsafeFileContent,
}

/// The code of each kind of failure.
pub open spec fn fs_error_code(e: FileSystemError) -> Code {
    match e {
        FileSystemError::PathDoesNotExist => Code::ENOENT,
        FileSystemError::PathIsNotSymlink => Code::EXDEV,
        FileSystemError::CreateFile => Code::EPERM,
        FileSystemError::CreateSymlink => Code::EPERM,
        FileSystemError::NoAncestorPath => Code::EDIED,
        FileSystemError::OpenFile => Code::EPERM,
        FileSystemError::AppendFile => Code::EPERM,
        FileSystemError::NonWritablePath => Code::EPERM,
        FileSystemError::NonReadablePath => Code::EPERM,
        FileSystemError::NonExecutablePath => Code::EPERM,
        FileSystemError::WriteFile => Code::EPERM,
        FileSystemError::WriteFlush => Code::EPERM,
        FileSystemError::SetMode => Code::EPERM,
        FileSystemError::MoveFile => Code::EPERM,
        FileSystemError::ReadFile => Code::EPERM,
        FileSystemError::DeleteFile => Code::EPERM,
        FileSystemError::DeleteDirectory => Code::EPERM,
        FileSystemError::UnexpectedPathType => Code::EBADF,
        FileSystemError::AbsolutePath => Code::EPERM,
        FileSystemError::CanonicalPath => Code::EPERM,
        FileSystemError::ReadSymlink => Code::EPERM,
        FileSystemError::CreateDirectory => Code::EPERM,
        FileSystemError::UnsafeFileContent => Code::EIEIO,
    }
}

/// The name of each kind of failure.
pub open spec fn fs_error_name(e: FileSystemError) -> Seq<char> {
    match e {
        FileSystemError::PathDoesNotExist => "path-does-not-exist"@,
        FileSystemError::PathIsNotSymlink => "path-is-not-symlink"@,
        FileSystemError::CreateFile => "create-file"@,
        FileSystemError::CreateSymlink => "create-symlink"@,
        FileSystemError::NoAncestorPath => "no-ancestor-path"@,
        FileSystemError::OpenFile => "open-file"@,
        FileSystemError::AppendFile => "append-file"@,
        FileSystemError::NonWritablePath => "non-writable-path"@,
        FileSystemError::NonReadablePath => "non-readable-path"@,
        FileSystemError::NonExecutablePath => "non-executable-path"@,
        FileSystemError::WriteFile => "write-file"@,
        FileSystemError::WriteFlush => "write-flush"@,
        FileSystemError::SetMode => "set-mode"@,
        FileSystemError::MoveFile => "move-file"@,
        FileSystemError::ReadFile => "read-file"@,
        FileSystemError::DeleteFile => "delete-file"@,
        FileSystemError::DeleteDirectory => "delete-directory"@,
        FileSystemError::UnexpectedPathType => "unexpected-path-type"@,
        FileSystemError::AbsolutePath => "absolute-path"@,
        FileSystemError::CanonicalPath => "canonical-path"@,
        FileSystemError::ReadSymlink => "read-symlink"@,
        FileSystemError::CreateDirectory => "create-directory"@,
        FileSystemError::UnsafeFileContent => "unsafe-file-content"@,
    }
}

/// The description of each kind of failure.
pub open spec fn fs_error_desc(e: FileSystemError) -> Seq<char> {
    match e {
        FileSystemError::PathDoesNotExist => "file does not exist"@,
        FileSystemError::PathIsNotSymlink => "file ain't no symlink"@,
        FileSystemError::CreateFile => "creating path"@,
        FileSystemError::CreateSymlink => "creating symlink"@,
        FileSystemError::NoAncestorPath => "does not have ancestors"@,
        FileSystemError::OpenFile => "opening file"@,
        FileSystemError::AppendFile => "appending bytes to file"@,
        FileSystemError::NonWritablePath => "non-writable file"@,
        FileSystemError::NonReadablePath => "non-readable file"@,
        FileSystemError::NonExecutablePath => "non-executable file"@,
        FileSystemError::WriteFile => "writing bytes to path"@,
        FileSystemError::WriteFlush => "write flushing to file"@,
        FileSystemError::SetMode => "setting mode on file"@,
        FileSystemError::MoveFile => "moving file"@,
        FileSystemError::ReadFile => "reading file"@,
        FileSystemError::DeleteFile => "deleting file"@,
        FileSystemError::DeleteDirectory => "deleting directory"@,
        FileSystemError::UnexpectedPathType => "expecting to be a"@,
        FileSystemError::AbsolutePath => "resolving absolute path"@,
        FileSystemError::CanonicalPath => "canonicalizing path"@,
        FileSystemError::ReadSymlink => "obtaining origin of symlink"@,
        FileSystemError::CreateDirectory => "creating directories"@,
        FileSystemError::UnsafeFileContent => "unsafe file content"@,
    }
}

/// How a kind of failure is shown: its description and its number.
pub open spec fn fs_error_text(e: FileSystemError) -> Seq<char> {
    fs_error_desc(e) + " (error:"@ + decimal(code_to_u8(fs_error_code(e)) as nat) + ")"@
}

/// How a kind of failure is shown for debugging: its name and its number.
pub open spec fn fs_error_debug_text(e: FileSystemError) -> Seq<char> {
    fs_error_name(e) + ":"@ + decimal(code_to_u8(fs_error_code(e)) as nat)
}

impl FileSystemError {
    /// The number of this failure (that of its code).
    pub fn errno(self) -> (r: u8)
        ensures
            r == code_to_u8(fs_error_code(self)),
    {
        self.code().to_u8()
    }

    /// The description of the code of this failure.
    pub fn code_desc(self) -> (r: &'static str)
        ensures
            r@ == code_desc(fs_error_code(self)),
    {
        self.code().desc()
    }

    /// The code of this failure.
    pub fn code(self) -> (r: Code)
        ensures
            r == fs_error_code(self),
    {
        match self {
            FileSystemError::PathDoesNotExist => Code::ENOENT,
            FileSystemError::PathIsNotSymlink => Code::EXDEV,
            FileSystemError::CreateFile => Code::EPERM,
            FileSystemError::CreateSymlink => Code::EPERM,
            FileSystemError::NoAncestorPath => Code::EDIED,
            FileSystemError::OpenFile => Code::EPERM,
            FileSystemError::AppendFile => Code::EPERM,
            FileSystemError::NonWritablePath => Code::EPERM,
            FileSystemError::NonReadablePath => Code::EPERM,
            FileSystemError::NonExecutablePath => Code::EPERM,
            FileSystemError::WriteFile => Code::EPERM,
            FileSystemError::WriteFlush => Code::EPERM,
            FileSystemError::SetMode => Code::EPERM,
            FileSystemError::MoveFile => Code::EPERM,
            FileSystemError::ReadFile => Code::EPERM,
            FileSystemError::DeleteFile => Code::EPERM,
            FileSystemError::DeleteDirectory => Code::EPERM,
            FileSystemError::UnexpectedPathType => Code::EBADF,
            FileSystemError::AbsolutePath => Code::EPERM,
            FileSystemError::CanonicalPath => Code::EPERM,
            FileSystemError::ReadSymlink => Code::EPERM,
            FileSystemError::CreateDirectory => Code::EPERM,
            FileSystemError::UnsafeFileContent => Code::EIEIO,
        }
    }

    /// The name of this failure.
    pub fn as_str(self) -> (r: &'static str)
        ensures
            r@ == fs_error_name(self),
    {
        match self {
            FileSystemError::PathDoesNotExist => "path-does-not-exist",
            FileSystemError::PathIsNotSymlink => "path-is-not-symlink",
            FileSystemError::CreateFile => "create-file",
            FileSystemError::CreateSymlink => "create-symlink",
            FileSystemError::NoAncestorPath => "no-ancestor-path",
            FileSystemError::OpenFile => "open-file",
            FileSystemError::AppendFile => "append-file",
            FileSystemError::NonWritablePath => "non-writable-path",
            FileSystemError::NonReadablePath => "non-readable-path",
            FileSystemError::NonExecutablePath => "non-executable-path",
            FileSystemError::WriteFile => "write-file",
            FileSystemError::WriteFlush => "write-flush",
            FileSystemError::SetMode => "set-mode",
            FileSystemError::MoveFile => "move-file",
            FileSystemError::ReadFile => "read-file",
            FileSystemError::DeleteFile => "delete-file",
            FileSystemError::DeleteDirectory => "delete-directory",
            FileSystemError::UnexpectedPathType => "unexpected-path-type",
            FileSystemError::AbsolutePath => "absolute-path",
            FileSystemError::CanonicalPath => "canonical-path",
            FileSystemError::ReadSymlink => "read-symlink",
            FileSystemError::CreateDirectory => "create-directory",
            FileSystemError::UnsafeFileContent => "unsafe-file-content",
        }
    }

    /// The description of this failure.
    pub fn desc(self) -> (r: &'static str)
        ensures
            r@ == fs_error_desc(self),
    {
        match self {
            FileSystemError::PathDoesNotExist => "file does not exist",
            FileSystemError::PathIsNotSymlink => "file ain't no symlink",
            FileSystemError::CreateFile => "creating path",
            FileSystemError::CreateSymlink => "creating symlink",
            FileSystemError::NoAncestorPath => "does not have ancestors",
            FileSystemError::OpenFile => "opening file",
            FileSystemError::AppendFile => "appending bytes to file",
            FileSystemError::NonWritablePath => "non-writable file",
            FileSystemError::NonReadablePath => "non-readable file",
            FileSystemError::NonExecutablePath => "non-executable file",
            FileSystemError::WriteFile => "writing bytes to path",
            FileSystemError::WriteFlush => "write flushing to file",
            FileSystemError::SetMode => "setting mode on file",
            FileSystemError::MoveFile => "moving file",
            FileSystemError::ReadFile => "reading file",
            FileSystemError::DeleteFile => "deleting file",
            FileSystemError::DeleteDirectory => "deleting directory",
            FileSystemError::UnexpectedPathType => "expecting to be a",
            FileSystemError::AbsolutePath => "resolving absolute path",
            FileSystemError::CanonicalPath => "canonicalizing path",
            FileSystemError::ReadSymlink => "obtaining origin of symlink",
            FileSystemError::CreateDirectory => "creating directories",
            FileSystemError::UnsafeFileContent => "unsafe file content",
        }
    }

    /// This failure as it is shown: `<description> (error:<number>)`.
    pub fn to_string(self) -> (r: String)
        ensures
            r@ == fs_error_text(self),
    {
        let mut r = owned(self.desc());
        r.append(" (error:");
        push_decimal(&mut r, self.errno() as u64);
        r.append(")");
        r
    }

    /// This failure as it is shown for debugging: `<name>:<number>`.
    pub fn to_debug_string(self) -> (r: String)
        ensures
            r@ == fs_error_debug_text(self),
    {
        let mut r = owned(self.as_str());
        r.append(":");
        push_decimal(&mut r, self.errno() as u64);
        r
    }
}

/// A filesystem failure on a path, with its message.
#[derive(Debug)]
pub enum FileSystemException {
    PathDoesNotExist(Path, String),
    PathIsNotSymlink(Path, String),
    CreateFileError(Path, String),
    CreateSymlinkError(Path, String),
    NoAncestorPathError(Path, String),
    OpenFileError(Path, String),
    AppendFileError(Path, String),
    NonWritablePathError(Path, String),
    NonReadablePathError(Path, String),
    NonExecutablePathError(Path, String),
    WriteFileError(Path, String),
    WriteFlushError(Path, String),
    SetModeError(Path, String),
    MoveFileError(Path, String),
    ReadFileError(Path, String),
    DeleteFileError(Path, String),
    DeleteDirectoryError(Path, String),
    UnexpectedPathType(Path, String),
    AbsolutePathError(Path, String),
    CanonicalPathError(Path, String),
    ReadSymlinkError(Path, String),
    CreateDirectoryError(Path, String),
    UnsafeFileContentError(Path, String),
}

/// The kind of failure of each exception.
pub open spec fn exception_kind(x: FileSystemException) -> FileSystemError {
    match x {
        FileSystemException::PathDoesNotExist(_, _) => FileSystemError::PathDoesNotExist,
        FileSystemException::PathIsNotSymlink(_, _) => FileSystemError::PathIsNotSymlink,
        FileSystemException::CreateFileError(_, _) => FileSystemError::CreateFile,
        FileSystemException::CreateSymlinkError(_, _) => FileSystemError::CreateSymlink,
        FileSystemException::NoAncestorPathError(_, _) => FileSystemError::NoAncestorPath,
        FileSystemException::OpenFileError(_, _) => FileSystemError::OpenFile,
        FileSystemException::AppendFileError(_, _) => FileSystemError::AppendFile,
        FileSystemException::NonWritablePathError(_, _) => FileSystemError::NonWritablePath,
        FileSystemException::NonReadablePathError(_, _) => FileSystemError::NonReadablePath,
        FileSystemException::NonExecutablePathError(_, _) => FileSystemError::NonExecutablePath,
        FileSystemException::WriteFileError(_, _) => FileSystemError::WriteFile,
        FileSystemException::WriteFlushError(_, _) => FileSystemError::WriteFlush,
        FileSystemException::SetModeError(_, _) => FileSystemError::SetMode,
        FileSystemException::MoveFileError(_, _) => FileSystemError::MoveFile,
        FileSystemException::ReadFileError(_, _) => FileSystemError::ReadFile,
        FileSystemException::DeleteFileError(_, _) => FileSystemError::DeleteFile,
        FileSystemException::DeleteDirectoryError(_, _) => FileSystemError::DeleteDirectory,
        FileSystemException::UnexpectedPathType(_, _) => FileSystemError::UnexpectedPathType,
        FileSystemException::AbsolutePathError(_, _) => FileSystemError::AbsolutePath,
        FileSystemException::CanonicalPathError(_, _) => FileSystemError::CanonicalPath,
        FileSystemException::ReadSymlinkError(_, _) => FileSystemError::ReadSymlink,
        FileSystemException::CreateDirectoryError(_, _) => FileSystemError::CreateDirectory,
        FileSystemException::UnsafeFileContentError(_, _) => FileSystemError::UnsafeFileContent,
    }
}

/// The path of each exception.
pub open spec fn exception_path(x: FileSystemException) -> Seq<char> {
    match x {
        FileSystemException::PathDoesNotExist(p, _) => p@,
        FileSystemException::PathIsNotSymlink(p, _) => p@,
        FileSystemException::CreateFileError(p, _) => p@,
        FileSystemException::CreateSymlinkError(p, _) => p@,
        FileSystemException::NoAncestorPathError(p, _) => p@,
        FileSystemException::OpenFileError(p, _) => p@,
        FileSystemException::AppendFileError(p, _) => p@,
        FileSystemException::NonWritablePathError(p, _) => p@,
        FileSystemException::NonReadablePathError(p, _) => p@,
        FileSystemException::NonExecutablePathError(p, _) => p@,
        FileSystemException::WriteFileError(p, _) => p@,
        FileSystemException::WriteFlushError(p, _) => p@,
        FileSystemException::SetModeError(p, _) => p@,
        FileSystemException::MoveFileError(p, _) => p@,
        FileSystemException::ReadFileError(p, _) => p@,
        FileSystemException::DeleteFileError(p, _) => p@,
        FileSystemException::DeleteDirectoryError(p, _) => p@,
        FileSystemException::UnexpectedPathType(p, _) => p@,
        FileSystemException::AbsolutePathError(p, _) => p@,
        FileSystemException::CanonicalPathError(p, _) => p@,
        FileSystemException::ReadSymlinkError(p, _) => p@,
        FileSystemException::CreateDirectoryError(p, _) => p@,
        FileSystemException::UnsafeFileContentError(p, _) => p@,
    }
}

/// The message of each exception.
pub open spec fn exception_message(x: FileSystemException) -> Seq<char> {
    match x {
        FileSystemException::PathDoesNotExist(_, m) => m@,
        FileSystemException::PathIsNotSymlink(_, m) => m@,
        FileSystemException::CreateFileError(_, m) => m@,
        FileSystemException::CreateSymlinkError(_, m) => m@,
        FileSystemException::NoAncestorPathError(_, m) => m@,
        FileSystemException::OpenFileError(_, m) => m@,
        FileSystemException::AppendFileError(_, m) => m@,
        FileSystemException::NonWritablePathError(_, m) => m@,
        FileSystemException::NonReadablePathError(_, m) => m@,
        FileSystemException::NonExecutablePathError(_, m) => m@,
        FileSystemException::WriteFileError(_, m) => m@,
        FileSystemException::WriteFlushError(_, m) => m@,
        FileSystemException::SetModeError(_, m) => m@,
        FileSystemException::MoveFileError(_, m) => m@,
        FileSystemException::ReadFileError(_, m) => m@,
        FileSystemException::DeleteFileError(_, m) => m@,
        FileSystemException::DeleteDirectoryError(_, m) => m@,
        FileSystemException::UnexpectedPathType(_, m) => m@,
        FileSystemException::AbsolutePathError(_, m) => m@,
        FileSystemException::CanonicalPathError(_, m) => m@,
        FileSystemException::ReadSymlinkError(_, m) => m@,
        FileSystemException::CreateDirectoryError(_, m) => m@,
        FileSystemException::UnsafeFileContentError(_, m) => m@,
    }
}

/// The message of an exception of kind `e` on `path`, with the detail `d`
/// when there is one.
pub open spec fn exception_text(e: FileSystemError, path: Seq<char>, d: Option<Seq<char>>) -> Seq<char> {
    let head = fs_error_text(e) + " error on "@ + debug_quoted(path);
    match d {
        Some(d) => head + ": "@ + d,
        None => head,
    }
}

/// How an exception is shown: its path (quoted), its kind and its message.
pub open spec fn exception_display(x: FileSystemException) -> Seq<char> {
    debug_quoted(exception_path(x)) + ": "@ + fs_error_text(exception_kind(x)) + " "@ + exception_message(x)
}

/// The exception of kind `e` on `path` with message `m`.
fn exception_of(e: FileSystemError, path: Path, m: String) -> (r: FileSystemException)
    ensures
        exception_kind(r) == e,
        exception_path(r) == path@,
        exception_message(r) == m@,
{
    match e {
        FileSystemError::PathDoesNotExist => FileSystemException::PathDoesNotExist(path, m),
        FileSystemError::PathIsNotSymlink => FileSystemException::PathIsNotSymlink(path, m),
        FileSystemError::CreateFile => FileSystemException::CreateFileError(path, m),
        FileSystemError::CreateSymlink => FileSystemException::CreateSymlinkError(path, m),
        FileSystemError::NoAncestorPath => FileSystemException::NoAncestorPathError(path, m),
        FileSystemError::OpenFile => FileSystemException::OpenFileError(path, m),
        FileSystemError::AppendFile => FileSystemException::AppendFileError(path, m),
        FileSystemError::NonWritablePath => FileSystemException::NonWritablePathError(path, m),
        FileSystemError::NonReadablePath => FileSystemException::NonReadablePathError(path, m),
        FileSystemError::NonExecutablePath => FileSystemException::NonExecutablePathError(path, m),
        FileSystemError::WriteFile => FileSystemException::WriteFileError(path, m),
        FileSystemError::WriteFlush => FileSystemException::WriteFlushError(path, m),
        FileSystemError::SetMode => FileSystemException::SetModeError(path, m),
        FileSystemError::MoveFile => FileSystemException::MoveFileError(path, m),
        FileSystemError::ReadFile => FileSystemException::ReadFileError(path, m),
        FileSystemError::DeleteFile => FileSystemException::DeleteFileError(path, m),
        FileSystemError::DeleteDirectory => FileSystemException::DeleteDirectoryError(path, m),
        FileSystemError::UnexpectedPathType => FileSystemException::UnexpectedPathType(path, m),
        FileSystemError::AbsolutePath => FileSystemException::AbsolutePathError(path, m),
        FileSystemError::CanonicalPath => FileSystemException::CanonicalPathError(path, m),
        FileSystemError::ReadSymlink => FileSystemException::ReadSymlinkError(path, m),
        FileSystemError::CreateDirectory => FileSystemException::CreateDirectoryError(path, m),
        FileSystemError::UnsafeFileContent => FileSystemException::UnsafeFileContentError(path, m),
    }
}

impl FileSystemException {
    /// The kind of failure of this exception.
    pub fn error(&self) -> (r: FileSystemError)
        ensures
            r == exception_kind(*self),
    {
        match self {
            FileSystemException::PathDoesNotExist(_, _) => FileSystemError::PathDoesNotExist,
            FileSystemException::PathIsNotSymlink(_, _) => FileSystemError::PathIsNotSymlink,
            FileSystemException::CreateFileError(_, _) => FileSystemError::CreateFile,
            FileSystemException::CreateSymlinkError(_, _) => FileSystemError::CreateSymlink,
            FileSystemException::NoAncestorPathError(_, _) => FileSystemError::NoAncestorPath,
            FileSystemException::OpenFileError(_, _) => FileSystemError::OpenFile,
            FileSystemException::AppendFileError(_, _) => FileSystemError::AppendFile,
            FileSystemException::NonWritablePathError(_, _) => FileSystemError::NonWritablePath,
            FileSystemException::NonReadablePathError(_, _) => FileSystemError::NonReadablePath,
            FileSystemException::NonExecutablePathError(_, _) => FileSystemError::NonExecutablePath,
            FileSystemException::WriteFileError(_, _) => FileSystemError::WriteFile,
            FileSystemException::WriteFlushError(_, _) => FileSystemError::WriteFlush,
            FileSystemException::SetModeError(_, _) => FileSystemError::SetMode,
            FileSystemException::MoveFileError(_, _) => FileSystemError::MoveFile,
            FileSystemException::ReadFileError(_, _) => FileSystemError::ReadFile,
            FileSystemException::DeleteFileError(_, _) => FileSystemError::DeleteFile,
            FileSystemException::DeleteDirectoryError(_, _) => FileSystemError::DeleteDirectory,
            FileSystemException::UnexpectedPathType(_, _) => FileSystemError::UnexpectedPathType,
            FileSystemException::AbsolutePathError(_, _) => FileSystemError::AbsolutePath,
            FileSystemException::CanonicalPathError(_, _) => FileSystemError::CanonicalPath,
            FileSystemException::ReadSymlinkError(_, _) => FileSystemError::ReadSymlink,
            FileSystemException::CreateDirectoryError(_, _) => FileSystemError::CreateDirectory,
            FileSystemException::UnsafeFileContentError(_, _) => FileSystemError::UnsafeFileContent,
        }
    }

    /// The path of this exception.
    pub fn path(&self) -> (r: &Path)
        ensures
            r@ == exception_path(*self),
    {
        match self {
            FileSystemException::PathDoesNotExist(p, _) => p,
            FileSystemException::PathIsNotSymlink(p, _) => p,
            FileSystemException::CreateFileError(p, _) => p,
            FileSystemException::CreateSymlinkError(p, _) => p,
            FileSystemException::NoAncestorPathError(p, _) => p,
            FileSystemException::OpenFileError(p, _) => p,
            FileSystemException::AppendFileError(p, _) => p,
            FileSystemException::NonWritablePathError(p, _) => p,
            FileSystemException::NonReadablePathError(p, _) => p,
            FileSystemException::NonExecutablePathError(p, _) => p,
            FileSystemException::WriteFileError(p, _) => p,
            FileSystemException::WriteFlushError(p, _) => p,
            FileSystemException::SetModeError(p, _) => p,
            FileSystemException::MoveFileError(p, _) => p,
            FileSystemException::ReadFileError(p, _) => p,
            FileSystemException::DeleteFileError(p, _) => p,
            FileSystemException::DeleteDirectoryError(p, _) => p,
            FileSystemException::UnexpectedPathType(p, _) => p,
            FileSystemException::AbsolutePathError(p, _) => p,
            FileSystemException::CanonicalPathError(p, _) => p,
            FileSystemException::ReadSymlinkError(p, _) => p,
            FileSystemException::CreateDirectoryError(p, _) => p,
            FileSystemException::UnsafeFileContentError(p, _) => p,
        }
    }

    /// The message of this exception.
    pub fn message(&self) -> (r: &String)
        ensures
            r@ == exception_message(*self),
    {
        match self {
            FileSystemException::PathDoesNotExist(_, m) => m,
            FileSystemException::PathIsNotSymlink(_, m) => m,
            FileSystemException::CreateFileError(_, m) => m,
            FileSystemException::CreateSymlinkError(_, m) => m,
            FileSystemException::NoAncestorPathError(_, m) => m,
            FileSystemException::OpenFileError(_, m) => m,
            FileSystemException::AppendFileError(_, m) => m,
            FileSystemException::NonWritablePathError(_, m) => m,
            FileSystemException::NonReadablePathError(_, m) => m,
            FileSystemException::NonExecutablePathError(_, m) => m,
            FileSystemException::WriteFileError(_, m) => m,
            FileSystemException::WriteFlushError(_, m) => m,
            FileSystemException::SetModeError(_, m) => m,
            FileSystemException::MoveFileError(_, m) => m,
            FileSystemException::ReadFileError(_, m) => m,
            FileSystemException::DeleteFileError(_, m) => m,
            FileSystemException::DeleteDirectoryError(_, m) => m,
            FileSystemException::UnexpectedPathType(_, m) => m,
            FileSystemException::AbsolutePathError(_, m) => m,
            FileSystemException::CanonicalPathError(_, m) => m,
            FileSystemException::ReadSymlinkError(_, m) => m,
            FileSystemException::CreateDirectoryError(_, m) => m,
            FileSystemException::UnsafeFileContentError(_, m) => m,
        }
    }

    /// The exception of kind `error` on `path`, its message naming the kind,
    /// the path and the detail `detail`.
    pub fn with_detail(error: FileSystemError, path: Path, detail: &str) -> (r: FileSystemException)
        ensures
            exception_kind(r) == error,
            exception_path(r) == path@,
            exception_message(r) == exception_text(error, path@, Some(detail@)),
    {
        let mut m = error.to_string();
        m.append(" error on ");
        let q = debug_text(path.as_str());
        m.append(q.as_str());
        m.append(": ");
        m.append(detail);
        exception_of(error, path, m)
    }

    /// The exception of kind `error` on `path`, its message naming the kind
    /// and the path.
    pub fn without_detail(error: FileSystemError, path: Path) -> (r: FileSystemException)
        ensures
            exception_kind(r) == error,
            exception_path(r) == path@,
            exception_message(r) == exception_text(error, path@, None),
    {
        let mut m = error.to_string();
        m.append(" error on ");
        let q = debug_text(path.as_str());
        m.append(q.as_str());
        exception_of(error, path, m)
    }

    /// This exception as it is shown: its path quoted, its kind and its message.
    pub fn to_string(&self) -> (r: String)
        ensures
            r@ == exception_display(*self),
    {
        let mut r = debug_text(self.path().as_str());
        r.append(": ");
        let e = self.error().to_string();
        r.append(e.as_str());
        r.append(" ");
        r.append(self.message().as_str());
        r
    }
}

/// An error of the library, with its message.
#[derive(Debug, PartialEq, Eq)]
pub enum Error {
    IOError(String),
    FileSystemError(String),
    MalformedGlobPattern(String),
    HomePathError(String),
    ReadDirError(String),
    SafetyError(String),
    EnvironmentVarError(String),
    IOCoreException(String),
    SubprocessError(String),
    SystemError(String),
    ChannelError(String),
    PathConversionError(String),
    PathDeserializationError(String),
    UnexpectedPathType(String),
    WalkDirError(String, Path, usize),
    PathScanningError(String),
    PathDoesNotExist(String),
    MalformedFileName(String),
    ThreadGroupError(String),
    ShellCommandError(String),
    ParseError(String),
    PatternMismatch(String),
}

/// The name each error is shown with.
pub open spec fn error_name(e: Error) -> Seq<char> {
    match e {
        Error::IOError(_) => "IOError"@,
        Error::FileSystemError(_) => "FileSystemError"@,
        Error::MalformedGlobPattern(_) => "MalformedGlobPattern"@,
        Error::HomePathError(_) => "HomePathError"@,
        Error::ReadDirError(_) => "ReadDirError"@,
        Error::SafetyError(_) => "SafetyError"@,
        Error::EnvironmentVarError(_) => "EnvironmentVarError"@,
        Error::IOCoreException(_) => "IOCoreException"@,
        Error::SubprocessError(_) => "SubprocessError"@,
        Error::SystemError(_) => "SystemError"@,
        Error::ChannelError(_) => "ChannelError"@,
        Error::PathConversionError(_) => "PathConversionError"@,
        Error::PathDeserializationError(_) => "PathDeserializationError"@,
        Error::UnexpectedPathType(_) => "UnexpectedPathType"@,
        Error::WalkDirError(..) => "WalkDirError"@,
        Error::PathScanningError(_) => "PathScanningError"@,
        Error::PathDoesNotExist(_) => "PathDoesNotExist"@,
        Error::MalformedFileName(_) => "MalformedFileName"@,
        Error::ThreadGroupError(_) => "ThreadGroupError"@,
        Error::ShellCommandError(_) => "ShellCommandError"@,
        Error::ParseError(_) => "ParseError"@,
        Error::PatternMismatch(_) => "PatternMismatch"@,
    }
}

/// The message of each error.
pub open spec fn error_message(e: Error) -> Seq<char> {
    match e {
        Error::IOError(m) => m@,
        Error::FileSystemError(m) => m@,
        Error::MalformedGlobPattern(m) => m@,
        Error::HomePathError(m) => m@,
        Error::ReadDirError(m) => m@,
        Error::SafetyError(m) => m@,
        Error::EnvironmentVarError(m) => m@,
        Error::IOCoreException(m) => m@,
        Error::SubprocessError(m) => m@,
        Error::SystemError(m) => m@,
        Error::ChannelError(m) => m@,
        Error::PathConversionError(m) => m@,
        Error::PathDeserializationError(m) => m@,
        Error::UnexpectedPathType(m) => m@,
        Error::WalkDirError(m, _, _) => m@,
        Error::PathScanningError(m) => m@,
        Error::PathDoesNotExist(m) => m@,
        Error::MalformedFileName(m) => m@,
        Error::ThreadGroupError(m) => m@,
        Error::ShellCommandError(m) => m@,
        Error::ParseError(m) => m@,
        Error::PatternMismatch(m) => m@,
    }
}

/// How an error is shown: its name, a colon and its message; a walk error
/// shows its message and then the path where the walk stopped.
pub open spec fn error_text(e: Error) -> Seq<char> {
    match e {
        Error::WalkDirError(m, p, _) => error_name(e) + " "@ + m@ + ": "@ + p@,
        _ => error_name(e) + ": "@ + error_message(e),
    }
}

impl Error {
    /// The name this error is shown with.
    pub fn name(&self) -> (r: &'static str)
        ensures
            r@ == error_name(*self),
    {
        match self {
            Error::IOError(_) => "IOError",
            Error::FileSystemError(_) => "FileSystemError",
            Error::MalformedGlobPattern(_) => "MalformedGlobPattern",
            Error::HomePathError(_) => "HomePathError",
            Error::ReadDirError(_) => "ReadDirError",
            Error::SafetyError(_) => "SafetyError",
            Error::EnvironmentVarError(_) => "EnvironmentVarError",
            Error::IOCoreException(_) => "IOCoreException",
            Error::SubprocessError(_) => "SubprocessError",
            Error::SystemError(_) => "SystemError",
            Error::ChannelError(_) => "ChannelError",
            Error::PathConversionError(_) => "PathConversionError",
            Error::PathDeserializationError(_) => "PathDeserializationError",
            Error::UnexpectedPathType(_) => "UnexpectedPathType",
            Error::WalkDirError(..) => "WalkDirError",
            Error::PathScanningError(_) => "PathScanningError",
            Error::PathDoesNotExist(_) => "PathDoesNotExist",
            Error::MalformedFileName(_) => "MalformedFileName",
            Error::ThreadGroupError(_) => "ThreadGroupError",
            Error::ShellCommandError(_) => "ShellCommandError",
            Error::ParseError(_) => "ParseError",
            Error::PatternMismatch(_) => "PatternMismatch",
        }
    }

    /// The message of this error.
    pub fn message(&self) -> (r: &String)
        ensures
            r@ == error_message(*self),
    {
        match self {
            Error::IOError(m) => m,
            Error::FileSystemError(m) => m,
            Error::MalformedGlobPattern(m) => m,
            Error::HomePathError(m) => m,
            Error::ReadDirError(m) => m,
            Error::SafetyError(m) => m,
            Error::EnvironmentVarError(m) => m,
            Error::IOCoreException(m) => m,
            Error::SubprocessError(m) => m,
            Error::SystemError(m) => m,
            Error::ChannelError(m) => m,
            Error::PathConversionError(m) => m,
            Error::PathDeserializationError(m) => m,
            Error::UnexpectedPathType(m) => m,
            Error::WalkDirError(m, _, _) => m,
            Error::PathScanningError(m) => m,
            Error::PathDoesNotExist(m) => m,
            Error::MalformedFileName(m) => m,
            Error::ThreadGroupError(m) => m,
            Error::ShellCommandError(m) => m,
            Error::ParseError(m) => m,
            Error::PatternMismatch(m) => m,
        }
    }

    /// This error as it is shown: `<name>: <message>`, or for a walk error
    /// `WalkDirError <message>: <path>`.
    pub fn to_string(&self) -> (r: String)
        ensures
            r@ == error_text(*self),
    {
        let mut r = owned(self.name());
        match self {
            Error::WalkDirError(m, p, _) => {
                r.append(" ");
                r.append(m.as_str());
                r.append(": ");
                r.append(p.as_str());
            },
            _ => {
                r.append(": ");
                r.append(self.message().as_str());
            },
        }
        r
    }

    /// The error that a filesystem exception becomes: a `FileSystemError`
    /// with the exception as it is shown.
    pub fn from_exception(e: &FileSystemException) -> (r: Error)
        ensures
            r is FileSystemError,
            error_message(r) == exception_display(*e),
    {
        Error::FileSystemError(e.to_string())
    }

    /// The error for a failure of kind `error` on `path` with the detail
    /// `detail`.
    pub fn from_failure(error: FileSystemError, path: Path, detail: &str) -> (r: Error)
        ensures
            r is FileSystemError,
            error_message(r) == debug_quoted(path@) + ": "@ + fs_error_text(error) + " "@
                + exception_text(error, path@, Some(detail@)),
    {
        let x = FileSystemException::with_detail(error, path, detail);
        Error::from_exception(&x)
    }

    /// The error for a failure of kind `error` on `path`.
    pub fn from_failure_on(error: FileSystemError, path: Path) -> (r: Error)
        ensures
            r is FileSystemError,
            error_message(r) == debug_quoted(path@) + ": "@ + fs_error_text(error) + " "@
                + exception_text(error, path@, None),
    {
        let x = FileSystemException::without_detail(error, path);
        Error::from_exception(&x)
    }
}

} // verus!
