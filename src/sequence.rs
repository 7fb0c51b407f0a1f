use vstd::prelude::*;

use crate::schema::{AsepriteFrame, AsepriteFrames};

verus! {

/// Playback direction of a frame tag.
#[derive(Debug, Clone, Copy, PartialEq, Eq, Structural)]
pub enum AnimationDirection {
    Forward,
    Reverse,
}

/// The absolute frame indices visited, in order, by a tag covering `[from, to]`.
pub open spec fn indices(from: usize, to: usize, direction: AnimationDirection) -> Seq<usize> {
    if from > to {
        Seq::empty()
    } else {
        match direction {
            AnimationDirection::Forward => Seq::new(
                (to - from + 1) as nat,
                |k: int| (from + k) as usize,
            ),
            AnimationDirection::Reverse => Seq::new(
                (to - from + 1) as nat,
                |k: int| (to - k) as usize,
            ),
        }
    }
}

/// Forward sequencing visits `from, from + 1, ..., to`: `to - from + 1` indices,
/// strictly ascending, starting at `from`.
pub proof fn lemma_forward_indices(from: usize, to: usize)
    requires
        from <= to,
    ensures
        indices(from, to, AnimationDirection::Forward).len() == to - from + 1,
        indices(from, to, AnimationDirection::Forward)[0] == from,
        forall|i: int, j: int|
            #![trigger indices(from, to, AnimationDirection::Forward)[i], indices(from, to, AnimationDirection::Forward)[j]]
            0 <= i < j < to - from + 1 ==> indices(from, to, AnimationDirection::Forward)[i]
                < indices(from, to, AnimationDirection::Forward)[j],
{
}

/// Reverse sequencing visits `to, to - 1, ..., from`: `to - from + 1` indices,
/// strictly descending, starting at `to`.
pub proof fn lemma_reverse_indices(from: usize, to: usize)
    requires
        from <= to,
    ensures
        indices(from, to, AnimationDirection::Reverse).len() == to - from + 1,
        indices(from, to, AnimationDirection::Reverse)[0] == to,
        forall|i: int, j: int|
            #![trigger indices(from, to, AnimationDirection::Reverse)[i], indices(from, to, AnimationDirection::Reverse)[j]]
            0 <= i < j < to - from + 1 ==> indices(from, to, AnimationDirection::Reverse)[i]
                > indices(from, to, AnimationDirection::Reverse)[j],
{
}

/// A bounded, direction-aware cursor over the frame indices of a tag.
///
/// Once exhausted it stays exhausted.
pub struct FramesIter<'a> {
    pub frames: &'a AsepriteFrames,
    pub direction: AnimationDirection,
    pub from: usize,
    pub to: usize,
    pub next_i: usize,
    pub done: bool,
}

impl<'a> FramesIter<'a> {
    pub open spec fn wf(&self) -> bool {
        !self.done ==> self.from <= self.next_i <= self.to
    }

    /// The indices that are still to be produced, in order.
    pub open spec fn remaining(&self) -> Seq<usize> {
        if self.done {
            Seq::empty()
        } else {
            match self.direction {
                AnimationDirection::Forward => indices(self.next_i, self.to, self.direction),
                AnimationDirection::Reverse => indices(self.from, self.next_i, self.direction),
            }
        }
    }

    /// A fresh cursor over `[from, to]` in the given direction.
    pub fn new(frames: &'a AsepriteFrames, from: usize, to: usize, direction: AnimationDirection) -> (r: FramesIter<'a>)
        ensures
            r.frames == frames,
            r.wf(),
            r.remaining() == indices(from, to, direction),
            r.from == from,
            r.to == to,
            r.direction == direction,
    {
        let next_i = match direction {
            AnimationDirection::Forward => from,
            AnimationDirection::Reverse => to,
        };
        let r = FramesIter { frames, direction, from, to, next_i, done: from > to };
        proof {
            if from <= to {
                assert(r.remaining() =~= indices(from, to, direction));
            }
        }
        r
    }

    /// Produces the next index, or `None` once every index was produced.
    pub fn next_index(&mut self) -> (r: Option<usize>)
        requires
            old(self).wf(),
        ensures
            final(self).wf(),
            final(self).frames == old(self).frames,
            final(self).direction == old(self).direction,
            final(self).from == old(self).from,
            final(self).to == old(self).to,
            old(self).remaining().len() > 0 ==> r == Some(old(self).remaining()[0])
                && final(self).remaining() == old(self).remaining().drop_first(),
            old(self).remaining().len() == 0 ==> r is None && final(self).remaining().len()
                == 0,
    {
        if self.done {
            return None;
        }
        let old_i = self.next_i;
        let ghost before = self.remaining();
        match self.direction {
            AnimationDirection::Forward => {
                if old_i == self.to {
                    self.done = true;
                } else {
                    self.next_i = old_i + 1;
                }
            },
            AnimationDirection::Reverse => {
                if old_i == self.from {
                    self.done = true;
                } else {
                    self.next_i = old_i - 1;
                }
            },
        }
        proof {
            assert(self.remaining() =~= before.drop_first());
        }
        Some(old_i)
    }

    /// The frame at the next index, or `None` once every index was produced or
    /// when the collection has no frame there; after a `None` the cursor is
    /// exhausted for good.
    pub fn next(&mut self) -> (r: Option<&'a AsepriteFrame>)
        requires
            old(self).wf(),
        ensures
            final(self).wf(),
            final(self).frames == old(self).frames,
            final(self).direction == old(self).direction,
            final(self).from == old(self).from,
            final(self).to == old(self).to,
            old(self).remaining().len() > 0 ==> r == old(self).frames.frame_at(
                old(self).remaining()[0] as int,
            ),
            old(self).remaining().len() == 0 ==> r is None,
            r is Some ==> final(self).remaining() == old(self).remaining().drop_first(),
            r is None ==> final(self).remaining().len() == 0,
    {
        match self.next_index() {
            Some(i) => {
                let r = self.frames.get(i);
                if r.is_none() {
                    self.done = true;
                }
                r
            },
            None => None,
        }
    }
}

} // verus!
