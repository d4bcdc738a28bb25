//! The code editor: its open files and which of them is shown.
pub mod files;
pub mod syntax;

use vstd::prelude::*;

use crate::gui::highlighter::highlighter::Highlighter;
use std::path::PathBuf;

verus! {

/// The name a new file gets.
pub open spec fn untitled() -> Seq<char> {
    "untitled.logo"@
}

/// A file open in the editor: its name, the path it was read from or saved
/// to, if any, its content and whether it was edited since.
#[derive(Debug, Clone)]
pub struct FileDescription {
    pub name: String,
    pub path: Option<PathBuf>,
    pub content: String,
    pub is_edited: bool,
}

impl FileDescription {
    /// A new, empty file called `name`, never saved.
    pub fn new(name: String) -> (f: Self)
        ensures
            f.name@ == name@,
            f.path is None,
            f.content@ == Seq::<char>::empty(),
            !f.is_edited,
    {
        FileDescription { name, path: None, content: String::new(), is_edited: false }
    }

    /// A file called `name` read from `path` with the text `content`.
    pub fn from_open(name: String, path: PathBuf, content: String) -> (f: Self)
        ensures
            f.name@ == name@,
            f.path == Some(path),
            f.content@ == content@,
            !f.is_edited,
    {
        FileDescription { name, path: Some(path), content, is_edited: false }
    }
}

/// The files open in the editor and the one shown.
pub struct Editor {
    pub should_highlight: bool,
    pub highlighter: Highlighter,
    pub current_file_index: Option<usize>,
    pub open_files: Vec<FileDescription>,
}

/// A file is fresh: called `untitled.logo`, empty, never saved or edited.
pub open spec fn is_untitled(f: FileDescription) -> bool {
    &&& f.name@ == untitled()
    &&& f.path is None
    &&& f.content@ == Seq::<char>::empty()
    &&& !f.is_edited
}

/// The index of the file shown after the file at `index` was closed from
/// `n` files, when `current` was shown.
pub open spec fn index_after_close(current: Option<usize>, n: nat) -> Option<usize> {
    if n == 1 {
        None
    } else {
        match current {
            Some(c) => if c > n - 2 {
                Some((n - 2) as usize)
            } else {
                Some(c)
            },
            None => None,
        }
    }
}

impl Editor {
    /// An editor showing one new file.
    pub fn new() -> (e: Self)
        ensures
            e.should_highlight,
            e.current_file_index == Some(0usize),
            e.open_files@.len() == 1,
            is_untitled(e.open_files@[0]),
    {
        let mut open_files: Vec<FileDescription> = Vec::new();
        open_files.push(FileDescription::new(String::from_str("untitled.logo")));
        Editor {
            should_highlight: true,
            highlighter: Highlighter::new(),
            current_file_index: Some(0),
            open_files,
        }
    }

    /// The file at `index`, to be changed, if there is one.
    pub fn get_file_mut(&mut self, index: usize) -> (r: Option<&mut FileDescription>)
        ensures
            final(self).current_file_index == old(self).current_file_index,
            final(self).should_highlight == old(self).should_highlight,
            match r {
                Some(f) => {
                    &&& index < old(self).open_files@.len()
                    &&& *f == old(self).open_files@[index as int]
                    &&& final(self).open_files@ == old(self).open_files@.update(index as int, *final(f))
                },
                None => index >= old(self).open_files@.len() && final(self).open_files@ == old(self).open_files@,
            },
    {
        if index < self.open_files.len() {
            Some(vstd::std_specs::vec::vec_index_mut(&mut self.open_files, index))
        } else {
            None
        }
    }

    /// The file shown, if any.
    pub fn current_file(&self) -> (r: Option<&FileDescription>)
        ensures
            match r {
                Some(f) => self.current_file_index matches Some(i) && i < self.open_files@.len()
                    && *f == self.open_files@[i as int],
                None => !(self.current_file_index matches Some(i) && i < self.open_files@.len()),
            },
    {
        match self.current_file_index {
            Some(index) => {
                if index < self.open_files.len() {
                    Some(&self.open_files[index])
                } else {
                    None
                }
            },
            None => None,
        }
    }

    /// The file shown, to be changed, if any.
    pub fn current_file_mut(&mut self) -> (r: Option<&mut FileDescription>)
        ensures
            final(self).current_file_index == old(self).current_file_index,
            final(self).should_highlight == old(self).should_highlight,
            match r {
                Some(f) => {
                    &&& old(self).current_file_index matches Some(i) && i < old(self).open_files@.len() && *f == old(self).open_files@[i as int] && final(self).open_files@ == old(self).open_files@.update(i as int, *final(f))
                },
                None => !(old(self).current_file_index matches Some(i) && i < old(self).open_files@.len()) && final(self).open_files@ == old(self).open_files@,
            },
    {
        match self.current_file_index {
            Some(index) => self.get_file_mut(index),
            None => None,
        }
    }

    /// The code of the file shown, or nothing.
    pub fn current_code(&self) -> (r: &str)
        ensures
            r@ == match self.current_file_index {
                Some(i) => if i < self.open_files@.len() {
                    self.open_files@[i as int].content@
                } else {
                    Seq::<char>::empty()
                },
                None => Seq::<char>::empty(),
            },
    {
        match self.current_file() {
            Some(file) => file.content.as_str(),
            None => {
                let r = "";
                proof {
                    reveal_strlit("");
                }
                r
            },
        }
    }

    /// Shows the file at `index`.
    pub fn select_file(&mut self, index: usize)
        ensures
            final(self).current_file_index == Some(index),
            final(self).open_files == old(self).open_files,
            final(self).should_highlight == old(self).should_highlight,
    {
        self.current_file_index = Some(index);
    }

    /// Closes the file at `index`. When no file is left none is shown;
    /// when the file shown lay past the last file, the last file is shown.
    pub fn close_file(&mut self, index: usize)
        requires
            index < old(self).open_files@.len(),
        ensures
            final(self).open_files@ == old(self).open_files@.remove(index as int),
            final(self).current_file_index == index_after_close(
                old(self).current_file_index,
                old(self).open_files@.len(),
            ),
            final(self).should_highlight == old(self).should_highlight,
    {
        self.open_files.remove(index);
        if self.open_files.len() == 0 {
            self.current_file_index = None;
            return ;
        }
        if let Some(current_index) = self.current_file_index {
            if current_index > self.open_files.len() - 1 {
                self.current_file_index = Some(self.open_files.len() - 1);
            }
        }
    }

    /// Adds `file` after the open files and shows it.
    pub fn push_file(&mut self, file: FileDescription)
        requires
            old(self).open_files@.len() < usize::MAX,
        ensures
            final(self).open_files@ == old(self).open_files@.push(file),
            final(self).current_file_index == Some(old(self).open_files@.len() as usize),
            final(self).should_highlight == old(self).should_highlight,
    {
        self.open_files.push(file);
        self.current_file_index = Some(self.open_files.len() - 1);
    }

    /// Opens a new, empty file and shows it.
    pub fn new_file(&mut self)
        requires
            old(self).open_files@.len() < usize::MAX,
        ensures
            final(self).open_files@.len() == old(self).open_files@.len() + 1,
            final(self).open_files@.drop_last() == old(self).open_files@,
            is_untitled(final(self).open_files@.last()),
            final(self).current_file_index == Some(old(self).open_files@.len() as usize),
            final(self).should_highlight == old(self).should_highlight,
    {
        let file = FileDescription::new(String::from_str("untitled.logo"));
        self.push_file(file);
        assert(self.open_files@.drop_last() =~= old(self).open_files@);
    }

    /// Records that the file shown was saved as `name` at `path`: it takes
    /// that name and path and counts as not edited. Nothing changes when no
    /// file is shown.
    pub fn mark_saved(&mut self, name: String, path: PathBuf)
        ensures
            final(self).current_file_index == old(self).current_file_index,
            final(self).should_highlight == old(self).should_highlight,
            match old(self).current_file_index {
                Some(i) => if i < old(self).open_files@.len() {
                    let f = final(self).open_files@[i as int];
                    &&& final(self).open_files@.len() == old(self).open_files@.len()
                    &&& forall|j: int|
                        0 <= j < old(self).open_files@.len() && j != i ==> final(self).open_files@[j] == old(self).open_files@[j]
                    &&& f.name@ == name@
                    &&& f.path == Some(path)
                    &&& f.content == old(self).open_files@[i as int].content
                    &&& !f.is_edited
                } else {
                    final(self).open_files@ == old(self).open_files@
                },
                None => final(self).open_files@ == old(self).open_files@,
            },
    {
        if let Some(file) = self.current_file_mut() {
            file.name = name;
            file.path = Some(path);
            file.is_edited = false;
        }
    }
}

/// Closing the file that was opened last gives back the files that were
/// open before it, and shows the file before it, if there is one.
pub proof fn law_close_undoes_push(files: Seq<FileDescription>, file: FileDescription)
    requires
        files.len() < usize::MAX,
    ensures
        files.push(file).remove(files.len() as int) == files,
        index_after_close(Some(files.len() as usize), files.len() + 1) == if files.len() == 0 {
            None
        } else {
            Some((files.len() - 1) as usize)
        },
{
    assert(files.push(file).remove(files.len() as int) =~= files);
}

/// Closing one of `n` files keeps the file index shown while it is still
/// in range, shows the new last file when it was past the end, and shows
/// nothing when no file is left or none was shown; the index shown is
/// always one of the files left.
pub proof fn law_close_keeps_shown_index(current: Option<usize>, n: nat)
    requires
        n >= 1,
    ensures
        n == 1 ==> index_after_close(current, n) is None,
        current is None ==> index_after_close(current, n) is None,
        index_after_close(current, n) matches Some(i) ==> i < n - 1,
        current is Some && current.unwrap() < n - 1 ==> index_after_close(current, n) == current,
        current is Some && current.unwrap() >= n - 1 && n >= 2 ==> index_after_close(current, n)
            == Some((n - 2) as usize),
{
}

} // verus!


