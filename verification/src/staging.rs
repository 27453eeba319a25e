//! The staging pipeline: a ring of copy targets that decouples copying a
//! captured frame in from reading a frame out by one step.
//!
//! Every arriving frame is copied into the target at the write position;
//! from the second frame on, the target written one step earlier is read
//! back. The copy engine works on the target being written while the reader
//! works on another one, as long as the ring has two targets or more.
//!
//! This module decides positions and restarts. The copies themselves are the
//! caller's: it performs what a [`StagingStep`] says, in the order copy,
//! then read.

use vstd::prelude::*;
use vstd::arithmetic::div_mod::{lemma_fundamental_div_mod, lemma_mod_bound};
use crate::capture_error::WindowsCaptureError;

verus! {

/// What to do for one arriving frame.
#[derive(Debug, Clone, Copy, PartialEq, Eq, Structural)]
pub struct StagingStep {
    /// All targets have to be dropped and made anew at the frame's
    /// dimensions before anything is copied.
    pub reallocate: bool,
    /// Ring position of the target the frame is copied into.
    pub write_index: usize,
    /// Ring position of the target to read back after the copy was issued,
    /// if there is one to read.
    pub read_index: Option<usize>,
}

/// The staging state: ring depth, whether the targets exist, how many frames
/// were processed since the targets were made, and the dimensions they were
/// made for.
pub struct Staging {
    depth: usize,
    allocated: bool,
    frame_count: u64,
    width: u32,
    height: u32,
    /// For each ring position, the number of the frame last copied into its
    /// target, counted from the making of the targets.
    held: Ghost<Seq<Option<nat>>>,
}

/// Ring position that frame number `frame` is copied into.
pub open spec fn ring_position(frame: nat, depth: nat) -> int {
    frame as int % depth as int
}

/// No target holds anything.
pub open spec fn nothing_held(depth: nat) -> Seq<Option<nat>> {
    Seq::new(depth, |i: int| None::<nat>)
}

/// The last `depth` frames before `frame_count`, as far as there were that
/// many, are each held at their ring position.
pub open spec fn recent_frames_held(held: Seq<Option<nat>>, frame_count: nat, depth: nat) -> bool {
    forall|f: nat|
        frame_count <= f + depth && f < frame_count ==> #[trigger] held[ring_position(f, depth)]
            == Some(f)
}

/// Two frames less than `depth` apart go to different ring positions.
pub proof fn lemma_ring_positions_differ(f: nat, g: nat, depth: nat)
    requires
        depth > 0,
        f < g < f + depth,
    ensures
        ring_position(f, depth) != ring_position(g, depth),
        0 <= ring_position(f, depth) < depth,
        0 <= ring_position(g, depth) < depth,
{
    let d = depth as int;
    lemma_mod_bound(f as int, d);
    lemma_mod_bound(g as int, d);
    lemma_fundamental_div_mod(f as int, d);
    lemma_fundamental_div_mod(g as int, d);
    if ring_position(f, depth) == ring_position(g, depth) {
        let qf = f as int / d;
        let qg = g as int / d;
        assert(g - f == d * qg - d * qf);
        assert(d * qg - d * qf == d * (qg - qf)) by (nonlinear_arith);
        if qg - qf >= 1 {
            assert(d * (qg - qf) >= d) by (nonlinear_arith)
                requires
                    d > 0,
                    qg - qf >= 1,
            ;
        } else {
            assert(d * (qg - qf) <= 0) by (nonlinear_arith)
                requires
                    d > 0,
                    qg - qf <= 0,
            ;
        }
    }
}

impl Staging {
    /// Ring depth.
    pub closed spec fn spec_depth(&self) -> nat {
        self.depth as nat
    }

    /// The copy targets exist.
    pub closed spec fn spec_allocated(&self) -> bool {
        self.allocated
    }

    /// Frames processed since the targets were made.
    pub closed spec fn spec_frame_count(&self) -> nat {
        self.frame_count as nat
    }

    /// Dimensions the targets were made for.
    pub closed spec fn spec_size(&self) -> (u32, u32) {
        (self.width, self.height)
    }

    /// For each ring position, the number of the frame its target holds.
    pub closed spec fn spec_held(&self) -> Seq<Option<nat>> {
        self.held@
    }

    /// The ring has a target, every position is accounted for, targets that
    /// do not exist hold nothing, and the most recent frames are where the
    /// reader will look for them.
    pub open spec fn wf(&self) -> bool {
        &&& self.spec_depth() >= 1
        &&& self.spec_held().len() == self.spec_depth()
        &&& !self.spec_allocated() ==> self.spec_frame_count() == 0
        &&& self.spec_frame_count() == 0 ==> self.spec_held() == nothing_held(self.spec_depth())
        &&& recent_frames_held(self.spec_held(), self.spec_frame_count(), self.spec_depth())
    }

    /// A frame of `width` by `height` cannot use the targets as they are.
    pub open spec fn spec_needs_reset(&self, width: u32, height: u32) -> bool {
        !self.spec_allocated() || self.spec_size() != (width, height)
    }

    /// The number the next frame of `width` by `height` gets.
    pub open spec fn next_frame(&self, width: u32, height: u32) -> nat {
        if self.spec_needs_reset(width, height) {
            0
        } else {
            self.spec_frame_count()
        }
    }

    /// A pipeline of `depth` targets, none of which exists yet. A ring
    /// without a target is refused.
    pub fn new(depth: usize) -> (r: Result<Staging, WindowsCaptureError>)
        ensures
            depth == 0 <==> r is Err,
            r is Err ==> r->Err_0 == WindowsCaptureError::InvalidStagingDepth,
            r is Ok ==> {
                &&& r->Ok_0.wf()
                &&& r->Ok_0.spec_depth() == depth
                &&& !r->Ok_0.spec_allocated()
                &&& r->Ok_0.spec_frame_count() == 0
                &&& r->Ok_0.spec_size() == (0u32, 0u32)
            },
    {
        if depth == 0 {
            Err(WindowsCaptureError::InvalidStagingDepth)
        } else {
            Ok(Staging::with_depth(depth))
        }
    }

    /// A pipeline of `depth` targets, none of which exists yet.
    pub(crate) fn with_depth(depth: usize) -> (staging: Staging)
        requires
            depth >= 1,
        ensures
            staging.wf(),
            staging.spec_depth() == depth,
            !staging.spec_allocated(),
            staging.spec_frame_count() == 0,
            staging.spec_size() == (0u32, 0u32),
    {
        Staging {
            depth,
            allocated: false,
            frame_count: 0,
            width: 0,
            height: 0,
            held: Ghost(nothing_held(depth as nat)),
        }
    }

    /// Ring depth.
    pub fn depth(&self) -> (d: usize)
        ensures
            d == self.spec_depth(),
    {
        self.depth
    }

    /// Frames processed since the targets were made.
    pub fn frame_count(&self) -> (n: u64)
        ensures
            n == self.spec_frame_count(),
    {
        self.frame_count
    }

    /// Whether the copy targets exist.
    pub fn is_allocated(&self) -> (b: bool)
        ensures
            b == self.spec_allocated(),
    {
        self.allocated
    }

    /// Dimensions the targets were made for.
    pub fn size(&self) -> (s: (u32, u32))
        ensures
            s == self.spec_size(),
    {
        (self.width, self.height)
    }

    /// Whether a frame of `width` by `height` needs the targets made anew.
    pub fn needs_reset(&self, width: u32, height: u32) -> (b: bool)
        ensures
            b == self.spec_needs_reset(width, height),
    {
        !self.allocated || self.width != width || self.height != height
    }

    /// Forgets the targets: the next frame makes them anew and starts the
    /// count at zero. For a change of source and for a failure to make the
    /// targets.
    pub fn reset(&mut self)
        requires
            old(self).wf(),
        ensures
            final(self).wf(),
            !final(self).spec_allocated(),
            final(self).spec_frame_count() == 0,
            final(self).spec_depth() == old(self).spec_depth(),
            final(self).spec_size() == old(self).spec_size(),
            final(self).spec_held() == nothing_held(old(self).spec_depth()),
    {
        self.allocated = false;
        self.frame_count = 0;
        self.held = Ghost(nothing_held(self.depth as nat));
    }

    /// What one arriving frame of `width` by `height` does to the pipeline:
    /// `self` before, `after` after, `step` what the caller is told.
    ///
    /// The frame gets the number `k`: zero if the targets are missing or were
    /// made for other dimensions, in which case they are to be made anew and
    /// hold nothing; the count so far otherwise. The frame is copied into the
    /// target at position `k mod depth`. If `k` is at least one, the target at
    /// position `(k - 1) mod depth` is read back after the copy was issued;
    /// for `k` zero nothing is read.
    pub open spec fn advances(
        &self,
        after: &Staging,
        width: u32,
        height: u32,
        step: StagingStep,
    ) -> bool {
        let k = self.next_frame(width, height);
        let depth = self.spec_depth();
        &&& after.spec_depth() == depth
        &&& after.spec_allocated()
        &&& after.spec_size() == (width, height)
        &&& after.spec_frame_count() == k + 1
        &&& step.reallocate == self.spec_needs_reset(width, height)
        &&& step.write_index == ring_position(k, depth)
        &&& k == 0 ==> step.read_index is None
        &&& k >= 1 ==> step.read_index == Some(ring_position((k - 1) as nat, depth) as usize)
        &&& after.spec_held() == (if step.reallocate {
            nothing_held(depth)
        } else {
            self.spec_held()
        }).update(step.write_index as int, Some(k))
    }

    /// Takes one arriving frame of `width` by `height` through the pipeline
    /// and says what to copy and what to read, as [`Staging::advances`] has
    /// it. With a depth of two or more, the target that is read back is not
    /// the one the frame is copied into, and it holds the frame that arrived
    /// one step earlier.
    pub fn advance(&mut self, width: u32, height: u32) -> (step: StagingStep)
        requires
            old(self).wf(),
            old(self).next_frame(width, height) < u64::MAX,
        ensures
            final(self).wf(),
            old(self).advances(final(self), width, height, step),
            step.write_index < old(self).spec_depth(),
            step.read_index is Some ==> step.read_index->0 < old(self).spec_depth(),
            step.read_index is Some && old(self).spec_depth() >= 2 ==> step.read_index->0
                != step.write_index,
            step.read_index is Some && old(self).spec_depth() >= 2
                ==> final(self).spec_held()[step.read_index->0 as int] == Some(
                (old(self).next_frame(width, height) - 1) as nat,
            ),
    {
        let reallocate = self.needs_reset(width, height);
        if reallocate {
            self.held = Ghost(nothing_held(self.depth as nat));
            self.frame_count = 0;
            self.width = width;
            self.height = height;
            self.allocated = true;
        }
        let k = self.frame_count;
        let depth = self.depth as u64;
        let write_index = (k % depth) as usize;
        let read_index = if k >= 1 {
            Some(((k - 1) % depth) as usize)
        } else {
            None
        };
        proof {
            let d = self.depth as nat;
            let before = self.held@;
            let after = before.update(write_index as int, Some(k as nat));
            lemma_mod_bound(k as int, d as int);
            assert(recent_frames_held(before, k as nat, d));
            assert forall|f: nat| k + 1 <= f + d && f < k + 1 implies #[trigger] after[ring_position(
                f,
                d,
            )] == Some(f) by {
                if f < k {
                    lemma_ring_positions_differ(f, k as nat, d);
                    assert(before[ring_position(f, d)] == Some(f));
                }
            }
            if k >= 1 {
                lemma_mod_bound(k as int - 1, d as int);
                if d >= 2 {
                    lemma_ring_positions_differ((k - 1) as nat, k as nat, d);
                    assert(before[ring_position((k - 1) as nat, d)] == Some((k - 1) as nat));
                }
            }
        }
        self.held = Ghost(self.held@.update(write_index as int, Some(k as nat)));
        self.frame_count = k + 1;
        StagingStep { reallocate, write_index, read_index }
    }
}

} // verus!
