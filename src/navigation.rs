//! The ordered set of images on show and the index of the one displayed.

use vstd::prelude::*;

verus! {

/// The step of a skip over a set of `n` images: about a tenth of the set, and
/// never less than one.
pub open spec fn skip_size(n: int) -> int {
    if n / 10 + 1 > 1 {
        n / 10 + 1
    } else {
        1
    }
}

/// The number of images that a skip passes over, for the given set.
pub fn compute_skip_size(images: &[String]) -> (r: usize)
    ensures
        r == skip_size(images@.len() as int),
        r >= 1,
{
    let chunks: usize = 10;
    let skip_size: usize = images.len() / chunks + 1;
    if skip_size > 1 {
        skip_size
    } else {
        1
    }
}

/// A larger set never gets a smaller skip, and every skip moves.
pub proof fn lemma_skip_size_monotonic(a: nat, b: nat)
    requires
        a <= b,
    ensures
        1 <= skip_size(a as int) <= skip_size(b as int),
{
    assert(a / 10 <= b / 10) by (nonlinear_arith)
        requires
            a <= b,
    ;
}

/// What to show: a cleared frame, or the image at the given path.
#[derive(Clone, Debug)]
pub enum Frame {
    Blank,
    Image(String),
}

/// The images in display order, the index of the one displayed, and the
/// folder that copies and moves go to.
pub struct Program {
    images: Vec<String>,
    dest_folder: String,
    index: usize,
}

impl Program {
    /// The images, in display order.
    pub closed spec fn paths(&self) -> Seq<String> {
        self.images@
    }

    /// The index of the image displayed.
    pub closed spec fn pos(&self) -> int {
        self.index as int
    }

    /// The folder that copies and moves go to.
    pub closed spec fn folder(&self) -> Seq<char> {
        self.dest_folder@
    }

    /// The index names an image, or is zero when there is none.
    pub open spec fn wf(&self) -> bool {
        if self.paths().len() == 0 {
            self.pos() == 0
        } else {
            0 <= self.pos() < self.paths().len()
        }
    }

    /// The frame that shows the current state.
    pub open spec fn frame(&self) -> Frame {
        if self.paths().len() == 0 {
            Frame::Blank
        } else {
            Frame::Image(self.paths()[self.pos()])
        }
    }

    /// The index after advancing `step` images, stopping at the last.
    pub open spec fn advanced(&self, step: int) -> int {
        if self.paths().len() <= 1 {
            self.pos()
        } else if self.pos() + step < self.paths().len() {
            self.pos() + step
        } else {
            self.paths().len() - 1
        }
    }

    /// The index after going back `step` images, stopping at the first.
    pub open spec fn retreated(&self, step: int) -> int {
        if self.pos() >= step {
            self.pos() - step
        } else {
            0
        }
    }

    /// The index after removing the image at `i`: one less when `i` was the
    /// last position and the index is not already zero.
    pub open spec fn pos_after_removal(&self, i: int) -> int {
        if i >= self.paths().len() - 1 && self.pos() != 0 {
            self.pos() - 1
        } else {
            self.pos()
        }
    }

    /// A carousel over `images` that shows the first of them.
    pub fn new(images: Vec<String>, dest_folder: String) -> (r: Program)
        ensures
            r.wf(),
            r.paths() == images@,
            r.folder() == dest_folder@,
            r.pos() == 0,
    {
        Program { images, dest_folder, index: 0 }
    }

    /// The images, in display order.
    pub fn images(&self) -> (r: &Vec<String>)
        ensures
            r@ == self.paths(),
    {
        &self.images
    }

    /// The index of the image displayed.
    pub fn index(&self) -> (r: usize)
        ensures
            r == self.pos(),
    {
        self.index
    }

    /// The folder that copies and moves go to.
    pub fn dest_folder(&self) -> (r: &String)
        ensures
            r@ == self.folder(),
    {
        &self.dest_folder
    }

    /// The frame to draw: blank when there are no images, else the path of
    /// the current image.
    pub fn render(&self) -> (r: Frame)
        requires
            self.wf(),
        ensures
            r == self.frame(),
    {
        if self.images.len() == 0 {
            return Frame::Blank;
        }
        Frame::Image(self.images[self.index].clone())
    }

    /// Advances `step` images, stopping at the last; a set of fewer than two
    /// images stays where it is.
    pub fn increment(&mut self, step: usize) -> (r: Frame)
        requires
            old(self).wf(),
        ensures
            final(self).wf(),
            final(self).paths() == old(self).paths(),
            final(self).folder() == old(self).folder(),
            final(self).pos() == old(self).advanced(step as int),
            r == final(self).frame(),
    {
        let len = self.images.len();
        if len > 1 {
            if self.index < len - 1 && step < len - self.index {
                self.index = self.index + step;
            } else {
                self.index = len - 1;
            }
        }
        self.render()
    }

    /// Goes back `step` images, stopping at the first.
    pub fn decrement(&mut self, step: usize) -> (r: Frame)
        requires
            old(self).wf(),
        ensures
            final(self).wf(),
            final(self).paths() == old(self).paths(),
            final(self).folder() == old(self).folder(),
            final(self).pos() == old(self).retreated(step as int),
            r == final(self).frame(),
    {
        if self.index >= step {
            self.index = self.index - step;
        } else {
            self.index = 0;
        }
        self.render()
    }

    /// Advances by the skip size of the set.
    pub fn skip_forward(&mut self) -> (r: Frame)
        requires
            old(self).wf(),
        ensures
            final(self).wf(),
            final(self).paths() == old(self).paths(),
            final(self).folder() == old(self).folder(),
            final(self).pos() == old(self).advanced(skip_size(old(self).paths().len() as int)),
            r == final(self).frame(),
    {
        let step = compute_skip_size(self.images.as_slice());
        self.increment(step)
    }

    /// Goes back by the skip size of the set.
    pub fn skip_backward(&mut self) -> (r: Frame)
        requires
            old(self).wf(),
        ensures
            final(self).wf(),
            final(self).paths() == old(self).paths(),
            final(self).folder() == old(self).folder(),
            final(self).pos() == old(self).retreated(skip_size(old(self).paths().len() as int)),
            r == final(self).frame(),
    {
        let step = compute_skip_size(self.images.as_slice());
        self.decrement(step)
    }

    /// Shows the first image.
    pub fn first(&mut self) -> (r: Frame)
        requires
            old(self).wf(),
        ensures
            final(self).wf(),
            final(self).paths() == old(self).paths(),
            final(self).folder() == old(self).folder(),
            final(self).pos() == 0,
            r == final(self).frame(),
    {
        self.index = 0;
        self.render()
    }

    /// Shows the last image; with no images the index is zero.
    pub fn last(&mut self) -> (r: Frame)
        requires
            old(self).wf(),
        ensures
            final(self).wf(),
            final(self).paths() == old(self).paths(),
            final(self).folder() == old(self).folder(),
            final(self).pos() == if old(self).paths().len() == 0 {
                0
            } else {
                old(self).paths().len() - 1
            },
            r == final(self).frame(),
    {
        if self.images.len() == 0 {
            self.index = 0;
        } else {
            self.index = self.images.len() - 1;
        }
        self.render()
    }

    /// Removes the current image from the set. The index then names the image
    /// that followed it, or the new last image when it was the last.
    pub fn remove_image(&mut self, index: usize)
        requires
            old(self).wf(),
            index < old(self).paths().len(),
            index == old(self).pos(),
        ensures
            final(self).wf(),
            final(self).paths() == old(self).paths().remove(index as int),
            final(self).folder() == old(self).folder(),
            final(self).pos() == old(self).pos_after_removal(index as int),
    {
        self.images.remove(index);
        if index >= self.images.len() && self.index != 0 {
            self.index = self.index - 1;
        }
    }
}

/// Stepping forward or back from a valid state, by any step, over a set of
/// at least two images, lands on an index of the set.
pub proof fn lemma_navigation_clamped(p: Program, step: nat)
    requires
        p.wf(),
        p.paths().len() >= 2,
        step >= 1,
    ensures
        0 <= p.advanced(step as int) < p.paths().len(),
        0 <= p.retreated(step as int) < p.paths().len(),
{
}

/// Removing the current image of a non-empty set leaves an index that names
/// an image of the smaller set, or zero when the set became empty.
pub proof fn lemma_removal_keeps_index_valid(p: Program, i: int)
    requires
        p.wf(),
        p.paths().len() > 0,
        i == p.pos(),
    ensures
        ({
            let n = p.paths().remove(i).len();
            &&& n > 0 ==> 0 <= p.pos_after_removal(i) < n
            &&& n == 0 ==> p.pos_after_removal(i) == 0
        }),
{
}

} // verus!
