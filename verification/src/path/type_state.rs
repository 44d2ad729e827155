//! A path that says in its type from where it starts and to what it leads,
//! so that only a directory can be joined with more, only an absolute path
//! is asked for its parent, and only a file for its name.

use std::marker::PhantomData;
use std::path::PathBuf;
use vstd::prelude::*;

verus! {

/// `std::path::PathBuf`. What a path holds depends on the platform it is
/// used on, so nothing is said here of its contents: a path is told from
/// another, and that is all.
#[verifier::external_type_specification]
#[verifier::external_body]
pub struct ExPathBuf(PathBuf);

/// A path from base `B` (`Absolute` or `Relative`) to target `T`
/// (`Directory` or `File`).
pub struct Path<B, T> {
    path: PathBuf,
    base: PhantomData<B>,
    target: PhantomData<T>,
}

/// Target: the path leads to a directory.
pub struct Directory;

/// Target: the path leads to a file.
pub struct File;

/// Base: the path starts at the root.
pub struct Absolute;

/// Base: the path starts wherever it is joined to.
pub struct Relative;

/// The path that `PathBuf::join` makes of a path and one adjoined to it.
pub uninterp spec fn adjoined(base: PathBuf, path: PathBuf) -> PathBuf;

/// The path that `Path::parent` finds for a path, if it finds one.
pub uninterp spec fn parent_path(path: PathBuf) -> Option<PathBuf>;

/// The path that `Path::file_name` finds for a path, if it finds one.
pub uninterp spec fn file_name_path(path: PathBuf) -> Option<PathBuf>;

/// `PathBuf::join`: `base` with `path` adjoined. The call looks at the two
/// paths and at nothing else, so its result has a name, `adjoined`. What
/// that path is, is not claimed.
#[verifier::external_body]
fn joined(base: &PathBuf, path: &PathBuf) -> (both: PathBuf)
    ensures
        both == adjoined(*base, *path),
{
    base.join(path)
}

/// `Path::parent`: the path without its last component, if it has one. The
/// call looks at the path and at nothing else, so its result has a name,
/// `parent_path`. Which paths have a parent, and which, is not claimed.
#[verifier::external_body]
fn parent_of(path: &PathBuf) -> (parent: Option<PathBuf>)
    ensures
        parent == parent_path(*path),
{
    path.parent().map(PathBuf::from)
}

/// `Path::file_name`: the last component of the path, if it is a name. The
/// call looks at the path and at nothing else, so its result has a name,
/// `file_name_path`. Which paths end in a name, and which, is not claimed.
#[verifier::external_body]
fn file_name_of(path: &PathBuf) -> (name: Option<PathBuf>)
    ensures
        name == file_name_path(*path),
{
    path.file_name().map(PathBuf::from)
}

impl<B, T> Path<B, T> {
    /// The path itself, without what its type says of it.
    pub closed spec fn path_buf(self) -> PathBuf {
        self.path
    }

    /// Takes the caller's word for where `path` starts and to what it leads.
    pub fn new(path: PathBuf) -> (typed: Self)
        ensures
            typed.path_buf() == path,
    {
        Path { path, base: PhantomData, target: PhantomData }
    }

    /// The path itself, for what reads files and directories.
    pub fn as_path_buf(&self) -> (path: &PathBuf)
        ensures
            *path == self.path_buf(),
    {
        &self.path
    }
}

impl<B> Path<B, Directory> {
    /// The path to `path` from where this directory's path starts: what
    /// `PathBuf::join` makes of the two paths.
    pub fn join<T>(self, path: Path<Relative, T>) -> (joined: Path<B, T>)
        ensures
            joined.path_buf() == adjoined(self.path_buf(), path.path_buf()),
    {
        Path { path: joined(&self.path, &path.path), base: PhantomData, target: PhantomData }
    }
}

impl<T> Path<Absolute, T> {
    /// The directory that holds what the path leads to: what `Path::parent`
    /// finds for the path. The root has none.
    pub fn parent(self) -> (parent: Option<Path<Absolute, Directory>>)
        ensures
            (match parent_path(self.path_buf()) {
                Some(path) => parent is Some && parent->0.path_buf() == path,
                None => parent is None,
            }),
    {
        match parent_of(&self.path) {
            Some(path) => Some(Path { path, base: PhantomData, target: PhantomData }),
            None => None,
        }
    }
}

impl<B> Path<B, File> {
    /// Whether the path ends in a name: whether `Path::file_name` finds one.
    pub fn has_file_name(&self) -> (named: bool)
        ensures
            named == (file_name_path(self.path_buf()) is Some),
    {
        file_name_of(&self.path).is_some()
    }

    /// The file's name as a path of its own: what `Path::file_name` finds
    /// for the path. The path must end in a name.
    pub fn filename(self) -> (name: Path<Relative, File>)
        requires
            file_name_path(self.path_buf()) is Some,
        ensures
            name.path_buf() == file_name_path(self.path_buf())->0,
    {
        match file_name_of(&self.path) {
            Some(path) => Path { path, base: PhantomData, target: PhantomData },
            None => unreached(),
        }
    }

    /// The file's name as a path of its own, or nothing where the path does
    /// not end in a name.
    pub fn try_filename(self) -> (name: Option<Path<Relative, File>>)
        ensures
            (match file_name_path(self.path_buf()) {
                Some(path) => name is Some && name->0.path_buf() == path,
                None => name is None,
            }),
    {
        if self.has_file_name() {
            Some(self.filename())
        } else {
            None
        }
    }
}

} // verus!
