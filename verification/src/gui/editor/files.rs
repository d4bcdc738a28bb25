//! Files of the code editor, as they are held while open.
use vstd::prelude::*;

use std::path::PathBuf;

verus! {

/// `std::path::PathBuf`, a path in the file system. It is carried through
/// the editor unchanged; nothing here looks inside it.
#[verifier::external_type_specification]
#[verifier::external_body]
pub struct ExPathBuf(PathBuf);

/// A file open in the editor: its name, the path it was read from or saved
/// to, if any, its content and whether it was edited since.
#[derive(Debug, Clone)]
pub struct FileHandle {
    pub name: String,
    pub path: Option<PathBuf>,
    pub content: String,
    pub is_edited: bool,
}

impl FileHandle {
    /// A new, empty file called `name`, never saved.
    pub fn new(name: String) -> (f: Self)
        ensures
            f.name@ == name@,
            f.path is None,
            f.content@ == Seq::<char>::empty(),
            !f.is_edited,
    {
        FileHandle { name, path: None, content: String::new(), is_edited: false }
    }

    /// A file called `name` read from `path` with the text `content`.
    pub fn from_open(name: String, path: PathBuf, content: String) -> (f: Self)
        ensures
            f.name@ == name@,
            f.path == Some(path),
            f.content@ == content@,
            !f.is_edited,
    {
        FileHandle { name, path: Some(path), content, is_edited: false }
    }
}

} // verus!
