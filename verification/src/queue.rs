//! The pool of frames that wait to be merged.

use vstd::prelude::*;
use crate::image::{Frame, Image};

verus! {

/// Width and height of the frames of a pool; `None` until its first frame
/// has come.
pub type Size = Option<(nat, nat)>;

/// Width and height of a frame.
pub open spec fn size_of(frame: Frame) -> Size {
    Some((frame.width, frame.height))
}

/// The frame is well formed and has the size of all frames before it.
pub open spec fn admits(size: Size, frame: Frame) -> bool {
    frame.wf() && (size is Some ==> size == size_of(frame))
}

/// Every frame is well formed and has the size of the pool.
pub open spec fn frames_agree(frames: Seq<Frame>, size: Size) -> bool {
    &&& frames.len() > 0 ==> size is Some
    &&& forall|k: int|
        0 <= k < frames.len() ==> (#[trigger] frames[k]).wf() && size_of(frames[k]) == size
}

/// The rasters of a sequence of frames.
pub open spec fn rasters(frames: Seq<Frame>) -> Seq<Seq<u16>> {
    Seq::new(frames.len(), |k: int| frames[k].samples)
}

/// A pool of frames of one size, taken from the end it is filled at. The pool
/// keeps the size of its first frame, also while it is empty.
pub struct MergeQueue {
    frames: Vec<Image>,
    size: Option<(usize, usize)>,
}

impl View for MergeQueue {
    type V = Seq<Frame>;

    closed spec fn view(&self) -> Seq<Frame> {
        Seq::new(self.frames@.len(), |k: int| self.frames@[k]@)
    }
}

impl MergeQueue {
    /// Width and height of the frames that the pool has held so far.
    pub closed spec fn size(&self) -> Size {
        match self.size {
            Some((width, height)) => Some((width as nat, height as nat)),
            None => None,
        }
    }

    /// All frames of the pool are well formed and of the size of the pool.
    pub open spec fn wf(&self) -> bool {
        frames_agree(self@, self.size())
    }

    /// An empty pool, which takes frames of any size.
    pub fn new() -> (q: MergeQueue)
        ensures
            q@ == Seq::<Frame>::empty(),
            q.size() is None,
            q.wf(),
    {
        let q = MergeQueue { frames: Vec::new(), size: None };
        assert(q@ =~= Seq::<Frame>::empty());
        q
    }

    /// Width and height of the frames that the pool has held so far.
    pub fn frame_size(&self) -> (res: Option<(usize, usize)>)
        ensures
            match res {
                Some((width, height)) => self.size() == Some((width as nat, height as nat)),
                None => self.size() is None,
            },
    {
        self.size
    }

    /// The number of frames in the pool.
    pub fn len(&self) -> (n: usize)
        ensures
            n == self@.len(),
    {
        self.frames.len()
    }

    /// Whether `push` may be called with the frame: it is well formed and of
    /// the size of every frame that the pool has held.
    pub fn accepts(&self, frame: &Image) -> (b: bool)
        ensures
            b == admits(self.size(), frame@),
    {
        if !frame.is_valid() {
            false
        } else {
            match self.size {
                Some((width, height)) => frame.width == width && frame.height == height,
                None => true,
            }
        }
    }

    /// Puts a frame at the end of the pool.
    pub fn push(&mut self, frame: Image)
        requires
            old(self).wf(),
            admits(old(self).size(), frame@),
        ensures
            final(self)@ == old(self)@.push(frame@),
            final(self).size() == size_of(frame@),
            final(self).wf(),
    {
        self.size = Some((frame.width, frame.height));
        self.frames.push(frame);
        assert(self@ =~= old(self)@.push(frame@));
    }

    /// Takes the last two frames out of the pool, the last one first, if it
    /// holds at least two; else leaves it as it is.
    pub fn try_take_pair(&mut self) -> (res: Option<(Image, Image)>)
        requires
            old(self).wf(),
        ensures
            final(self).wf(),
            final(self).size() == old(self).size(),
            match res {
                None => old(self)@.len() < 2 && final(self)@ == old(self)@,
                Some((first, second)) => {
                    &&& old(self)@.len() >= 2
                    &&& first@ == old(self)@[old(self)@.len() - 1]
                    &&& second@ == old(self)@[old(self)@.len() - 2]
                    &&& final(self)@ == old(self)@.take(old(self)@.len() - 2)
                },
            },
    {
        if self.frames.len() < 2 {
            return None;
        }
        let first = self.frames.pop().unwrap();
        let second = self.frames.pop().unwrap();
        assert(self@ =~= old(self)@.take(old(self)@.len() - 2));
        Some((first, second))
    }

    /// Takes the last frame out of the pool, if there is one.
    pub fn take_last(&mut self) -> (res: Option<Image>)
        requires
            old(self).wf(),
        ensures
            final(self).wf(),
            final(self).size() == old(self).size(),
            match res {
                None => old(self)@.len() == 0 && final(self)@ == old(self)@,
                Some(frame) => {
                    &&& old(self)@.len() > 0
                    &&& frame@ == old(self)@.last()
                    &&& final(self)@ == old(self)@.drop_last()
                },
            },
    {
        let res = self.frames.pop();
        assert(self@ =~= if old(self)@.len() == 0 {
            old(self)@
        } else {
            old(self)@.drop_last()
        });
        res
    }
}

} // verus!
