//! The snake body simulation: an ordered sequence of segments (front = tail,
//! back = head), the push/pull step transitions, and the collision tests the
//! round update sequences around them.

use vstd::prelude::*;
use vstd::seq_lib::*;
use std::collections::VecDeque;
use crate::direction::Direction;
use crate::config::GRID_SIZE;

verus! {

/// One grid cell of a snake's body. The facing is kept for rendering
/// orientation; the color index records how long the snake was when the
/// segment was created, so a renderer can derive a reproducible color from
/// it.
#[derive(Clone, Copy, Debug, PartialEq, Eq)]
pub struct Segment {
    pub pos: (i32, i32),
    pub facing: Direction,
    pub color_index: usize,
}

/// The cell one step from `pos` in direction `d`.
pub open spec fn spec_step(pos: (i32, i32), d: Direction) -> (i32, i32) {
    (((pos.0 + d.spec_delta().0) as i32), ((pos.1 + d.spec_delta().1) as i32))
}

/// Whether some segment of `segs` sits on `pos`.
pub open spec fn occupies(segs: Seq<Segment>, pos: (i32, i32)) -> bool {
    exists|i: int| 0 <= i < segs.len() && segs[i].pos == pos
}

/// Whether the head (the last segment) sits on some earlier segment's cell.
pub open spec fn self_collides(segs: Seq<Segment>) -> bool {
    exists|i: int| 0 <= i < segs.len() - 1 && segs[i].pos == segs.last().pos
}

/// Whether `pos` lies outside the grid: a coordinate is negative or at
/// least `GRID_SIZE`.
pub open spec fn spec_out_of_bounds(pos: (i32, i32)) -> bool {
    pos.0 < 0 || pos.0 >= GRID_SIZE || pos.1 < 0 || pos.1 >= GRID_SIZE
}

/// Whether `pos` lies on the grid.
pub open spec fn in_grid(pos: (i32, i32)) -> bool {
    !spec_out_of_bounds(pos)
}

/// Compares two positions.
pub fn same_pos(a: (i32, i32), b: (i32, i32)) -> (r: bool)
    ensures
        r == (a == b),
{
    a.0 == b.0 && a.1 == b.1
}

/// A snake: its segments in order from tail to head, with the head's
/// position and facing cached for direct access.
#[derive(Debug)]
pub struct Snake {
    pub segments: VecDeque<Segment>,
    pub head_pos: (i32, i32),
    pub head_facing: Direction,
}

impl Snake {
    /// A live snake is never empty, and the cached head fields agree with
    /// the last-pushed segment.
    pub open spec fn wf(self) -> bool {
        &&& self.segments@.len() >= 1
        &&& self.head_pos == self.segments@.last().pos
        &&& self.head_facing == self.segments@.last().facing
    }

    /// Creates a one-segment snake at `head_pos`, facing `head_facing`.
    pub fn new(head_pos: (i32, i32), head_facing: Direction) -> (s: Snake)
        ensures
            s.wf(),
            s.segments@ == seq![
                (Segment { pos: head_pos, facing: head_facing, color_index: 0 }),
            ],
            s.head_pos == head_pos,
            s.head_facing == head_facing,
    {
        let mut segments: VecDeque<Segment> = VecDeque::new();
        segments.push_back(Segment { pos: head_pos, facing: head_facing, color_index: 0 });
        proof {
            assert(segments@ =~= seq![
                (Segment { pos: head_pos, facing: head_facing, color_index: 0 }),
            ]);
        }
        Snake { segments, head_pos, head_facing }
    }

    /// Advances the head one cell in `input_direction`, appending a new head
    /// segment. No bounds or collision check happens here: this is a pure
    /// state advance, and the round update sequences the checks and the pull
    /// around it.
    pub fn push(&mut self, input_direction: Direction)
        requires
            old(self).wf(),
            i32::MIN < old(self).head_pos.0 < i32::MAX,
            i32::MIN < old(self).head_pos.1 < i32::MAX,
        ensures
            final(self).wf(),
            final(self).head_pos == spec_step(old(self).head_pos, input_direction),
            final(self).head_facing == input_direction,
            final(self).segments@ == old(self).segments@.push(
                (Segment {
                    pos: spec_step(old(self).head_pos, input_direction),
                    facing: input_direction,
                    color_index: old(self).segments@.len() as usize,
                }),
            ),
    {
        let pos_delta = input_direction.delta();
        let new_pos = (self.head_pos.0 + pos_delta.0, self.head_pos.1 + pos_delta.1);
        let color_index = self.segments.len();
        self.segments.push_back(
            Segment { pos: new_pos, facing: input_direction, color_index },
        );
        self.head_pos = new_pos;
        self.head_facing = input_direction;
    }

    /// Removes the oldest segment (the tail). Normal movement is a push
    /// followed by a pull; a push alone grows the snake, so a pull is only
    /// ever taken on a snake of at least two segments.
    pub fn pull(&mut self)
        requires
            old(self).wf(),
            old(self).segments@.len() >= 2,
        ensures
            final(self).wf(),
            final(self).segments@ == old(self).segments@.drop_first(),
            final(self).head_pos == old(self).head_pos,
            final(self).head_facing == old(self).head_facing,
    {
        self.segments.pop_front();
        proof {
            assert(self.segments@ =~= old(self).segments@.drop_first());
        }
    }

    /// Whether any segment of this snake, the head included, sits on `pos`.
    pub fn check_collision(&self, pos: (i32, i32)) -> (r: bool)
        ensures
            r == occupies(self.segments@, pos),
    {
        let n = self.segments.len();
        let mut i: usize = 0;
        while i < n
            invariant
                n == self.segments@.len(),
                0 <= i <= n,
                forall|j: int| 0 <= j < i ==> self.segments@[j].pos != pos,
            decreases n - i,
        {
            if same_pos(self.segments[i].pos, pos) {
                return true;
            }
            i = i + 1;
        }
        false
    }

    /// Whether the head sits on some segment other than the head itself:
    /// the snake has bitten its own body.
    pub fn check_self_collision(&self) -> (r: bool)
        requires
            self.wf(),
        ensures
            r == self_collides(self.segments@),
    {
        let n = self.segments.len();
        let mut i: usize = 0;
        while i < n - 1
            invariant
                n == self.segments@.len(),
                n >= 1,
                0 <= i <= n - 1,
                self.wf(),
                forall|j: int| 0 <= j < i ==> self.segments@[j].pos != self.head_pos,
            decreases n - i,
        {
            if same_pos(self.segments[i].pos, self.head_pos) {
                proof {
                    assert(self.segments@[i as int].pos == self.segments@.last().pos);
                }
                return true;
            }
            i = i + 1;
        }
        false
    }

    /// Whether `pos` lies outside the grid.
    pub fn check_out_of_bounds(pos: (i32, i32)) -> (r: bool)
        ensures
            r == spec_out_of_bounds(pos),
    {
        if pos.0 < 0 || pos.0 >= GRID_SIZE || pos.1 < 0 || pos.1 >= GRID_SIZE {
            return true;
        }
        false
    }
}

/// A push alone grows the snake by exactly one segment, and a push followed
/// by a pull preserves the segment count.
pub proof fn lemma_push_pull_length(pre: Seq<Segment>, d: Direction, head: (i32, i32))
    ensures
        pre.push(
            (Segment { pos: spec_step(head, d), facing: d, color_index: pre.len() as usize }),
        ).len() == pre.len() + 1,
        pre.push(
            (Segment { pos: spec_step(head, d), facing: d, color_index: pre.len() as usize }),
        ).drop_first().len() == pre.len(),
{
}

} // verus!
