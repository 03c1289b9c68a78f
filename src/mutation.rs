//! Copy, move and delete of the current image. The filesystem work happens
//! outside; these functions say what to act on and take its outcome, and they
//! change the set only after the filesystem has done its part.

use vstd::prelude::*;

use crate::navigation::{Frame, Program};

verus! {

/// Why a copy, move or delete did not happen.
#[derive(Clone, Debug)]
pub enum MutationError {
    /// The set is empty: there is no image to act on.
    NoImage,
    /// The current image's path does not end in a file name.
    NoFileName,
    /// The filesystem operation failed, with its message.
    Filesystem(String),
}

/// A file to copy or move, and the path it goes to.
#[derive(Clone, Debug)]
pub struct Transfer {
    pub source: String,
    pub destination: String,
}

/// The last component of a path, when it is a file name.
pub uninterp spec fn file_name_of(path: Seq<char>) -> Option<Seq<char>>;

/// A directory path with one more component appended.
pub uninterp spec fn joined(dir: Seq<char>, name: Seq<char>) -> Seq<char>;

/// The view of an optional string.
pub open spec fn opt_view(o: Option<String>) -> Option<Seq<char>> {
    match o {
        Some(s) => Some(s@),
        None => None,
    }
}

/// Relies on std::path::Path::file_name: the final component of the path,
/// or none when the path ends in `..` or is a root or prefix alone.
#[verifier::external_body]
fn file_name(path: &String) -> (r: Option<String>)
    ensures
        opt_view(r) == file_name_of(path@),
{
    std::path::Path::new(path).file_name().map(|f| f.to_string_lossy().into_owned())
}

/// Relies on std::path::Path::join: `dir` with `name` appended as a further
/// component.
#[verifier::external_body]
fn join_path(dir: &String, name: &String) -> (r: String)
    ensures
        r@ == joined(dir@, name@),
{
    std::path::Path::new(dir).join(name).to_string_lossy().into_owned()
}

/// Where a file at `source` goes in `folder`, if it has a file name.
pub open spec fn destination_of(folder: Seq<char>, source: Seq<char>) -> Option<Seq<char>> {
    match file_name_of(source) {
        Some(n) => Some(joined(folder, n)),
        None => None,
    }
}

impl Program {
    /// The path of the image displayed, which copy, move and delete act on.
    pub open spec fn current_path(&self) -> Seq<char> {
        self.paths()[self.pos()]@
    }

    /// The image displayed, if there is one.
    pub fn current_image(&self) -> (r: Option<&String>)
        requires
            self.wf(),
        ensures
            r is None <==> self.paths().len() == 0,
            r matches Some(p) ==> *p == self.paths()[self.pos()],
    {
        if self.images().len() == 0 {
            None
        } else {
            Some(&self.images()[self.index()])
        }
    }

    /// The path in the destination folder for the file at `src_path`: the
    /// folder joined with the file's name.
    pub fn construct_dest_filepath(&self, src_path: &String) -> (r: Result<String, MutationError>)
        ensures
            match destination_of(self.folder(), src_path@) {
                Some(d) => r matches Ok(p) && p@ == d,
                None => r matches Err(MutationError::NoFileName),
            },
    {
        match file_name(src_path) {
            Some(name) => Ok(join_path(self.dest_folder(), &name)),
            None => Err(MutationError::NoFileName),
        }
    }

    /// What a copy or a move of the current image transfers: the image's
    /// path and its path in the destination folder.
    pub fn transfer(&self) -> (r: Result<Transfer, MutationError>)
        requires
            self.wf(),
        ensures
            self.paths().len() == 0 ==> r matches Err(MutationError::NoImage),
            self.paths().len() > 0 ==> match destination_of(self.folder(), self.current_path()) {
                Some(d) => r matches Ok(t) && t.source == self.paths()[self.pos()]
                    && t.destination@ == d,
                None => r matches Err(MutationError::NoFileName),
            },
    {
        match self.current_image() {
            None => Err(MutationError::NoImage),
            Some(source) => match self.construct_dest_filepath(source) {
                Ok(destination) => Ok(Transfer { source: source.clone(), destination }),
                Err(e) => Err(e),
            },
        }
    }

    /// Reports a copy of the current image, given how the filesystem copy
    /// went. A copy never changes the set.
    pub fn copy_image(&self, copied: Result<(), String>) -> (r: Result<(), MutationError>)
        requires
            self.wf(),
        ensures
            self.paths().len() == 0 ==> r matches Err(MutationError::NoImage),
            self.paths().len() > 0 ==> match copied {
                Ok(()) => r is Ok,
                Err(e) => r == Err::<(), MutationError>(MutationError::Filesystem(e)),
            },
    {
        if self.images().len() == 0 {
            return Err(MutationError::NoImage);
        }
        match copied {
            Ok(()) => Ok(()),
            Err(e) => Err(MutationError::Filesystem(e)),
        }
    }

    /// Drops the current image from the set once the filesystem has moved
    /// it away; the set stays as it is when the move failed.
    pub fn move_image(&mut self, moved: Result<(), String>) -> (r: Result<Frame, MutationError>)
        requires
            old(self).wf(),
        ensures
            final(self).wf(),
            final(self).folder() == old(self).folder(),
            old(self).paths().len() == 0 ==> (r matches Err(MutationError::NoImage))
                && *final(self) == *old(self),
            old(self).paths().len() > 0 ==> match moved {
                Ok(()) => final(self).paths() == old(self).paths().remove(old(self).pos())
                    && final(self).pos() == old(self).pos_after_removal(old(self).pos())
                    && r == Ok::<Frame, MutationError>(final(self).frame()),
                Err(e) => *final(self) == *old(self) && r == Err::<Frame, MutationError>(
                    MutationError::Filesystem(e),
                ),
            },
    {
        self.commit_removal(moved)
    }

    /// Drops the current image from the set once the filesystem has deleted
    /// it; the set stays as it is when the deletion failed.
    pub fn delete_image(&mut self, removed: Result<(), String>) -> (r: Result<Frame, MutationError>)
        requires
            old(self).wf(),
        ensures
            final(self).wf(),
            final(self).folder() == old(self).folder(),
            old(self).paths().len() == 0 ==> (r matches Err(MutationError::NoImage))
                && *final(self) == *old(self),
            old(self).paths().len() > 0 ==> match removed {
                Ok(()) => final(self).paths() == old(self).paths().remove(old(self).pos())
                    && final(self).pos() == old(self).pos_after_removal(old(self).pos())
                    && r == Ok::<Frame, MutationError>(final(self).frame()),
                Err(e) => *final(self) == *old(self) && r == Err::<Frame, MutationError>(
                    MutationError::Filesystem(e),
                ),
            },
    {
        self.commit_removal(removed)
    }

    /// Removes the current image when `done` reports success.
    fn commit_removal(&mut self, done: Result<(), String>) -> (r: Result<Frame, MutationError>)
        requires
            old(self).wf(),
        ensures
            final(self).wf(),
            final(self).folder() == old(self).folder(),
            old(self).paths().len() == 0 ==> (r matches Err(MutationError::NoImage))
                && *final(self) == *old(self),
            old(self).paths().len() > 0 ==> match done {
                Ok(()) => final(self).paths() == old(self).paths().remove(old(self).pos())
                    && final(self).pos() == old(self).pos_after_removal(old(self).pos())
                    && r == Ok::<Frame, MutationError>(final(self).frame()),
                Err(e) => *final(self) == *old(self) && r == Err::<Frame, MutationError>(
                    MutationError::Filesystem(e),
                ),
            },
    {
        if self.images().len() == 0 {
            return Err(MutationError::NoImage);
        }
        match done {
            Ok(()) => {
                let i = self.index();
                self.remove_image(i);
                Ok(self.render())
            },
            Err(e) => Err(MutationError::Filesystem(e)),
        }
    }
}

} // verus!
