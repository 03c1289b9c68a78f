//! The closed set of user actions and what each one does to the carousel.

use vstd::prelude::*;

use crate::navigation::{skip_size, Frame, Program};

verus! {

/// What the user asked for.
#[derive(Clone, Copy, Debug, PartialEq, Eq, Structural)]
pub enum Action {
    Quit,
    ReRender,
    Next,
    Prev,
    SkipForward,
    SkipBack,
    First,
    Last,
    Copy,
    Move,
    Delete,
    Noop,
}

/// What is left to do after an action was applied to the carousel.
#[derive(Clone, Debug)]
pub enum Effect {
    /// Leave the event loop.
    Stop,
    /// Draw this frame.
    Draw(Frame),
    /// Copy the current image to the destination folder.
    CopyFile,
    /// Move the current image to the destination folder.
    MoveFile,
    /// Delete the current image.
    DeleteFile,
    /// Nothing.
    Nothing,
}

impl Program {
    /// The index after a navigation action; other actions keep it.
    pub open spec fn pos_after(&self, action: Action) -> int {
        let skip = skip_size(self.paths().len() as int);
        match action {
            Action::Next => self.advanced(1),
            Action::Prev => self.retreated(1),
            Action::SkipForward => self.advanced(skip),
            Action::SkipBack => self.retreated(skip),
            Action::First => 0,
            Action::Last => if self.paths().len() == 0 {
                0
            } else {
                self.paths().len() - 1
            },
            _ => self.pos(),
        }
    }

    /// Applies one action: navigation moves the index and asks for the new
    /// frame; a file operation is handed back to be carried out.
    pub fn dispatch(&mut self, action: Action) -> (r: Effect)
        requires
            old(self).wf(),
        ensures
            final(self).wf(),
            final(self).paths() == old(self).paths(),
            final(self).folder() == old(self).folder(),
            final(self).pos() == old(self).pos_after(action),
            r == match action {
                Action::Quit => Effect::Stop,
                Action::Copy => Effect::CopyFile,
                Action::Move => Effect::MoveFile,
                Action::Delete => Effect::DeleteFile,
                Action::Noop => Effect::Nothing,
                _ => Effect::Draw(final(self).frame()),
            },
    {
        match action {
            Action::Quit => Effect::Stop,
            Action::ReRender => Effect::Draw(self.render()),
            Action::Next => Effect::Draw(self.increment(1)),
            Action::Prev => Effect::Draw(self.decrement(1)),
            Action::SkipForward => Effect::Draw(self.skip_forward()),
            Action::SkipBack => Effect::Draw(self.skip_backward()),
            Action::First => Effect::Draw(self.first()),
            Action::Last => Effect::Draw(self.last()),
            Action::Copy => Effect::CopyFile,
            Action::Move => Effect::MoveFile,
            Action::Delete => Effect::DeleteFile,
            Action::Noop => Effect::Nothing,
        }
    }
}

} // verus!
