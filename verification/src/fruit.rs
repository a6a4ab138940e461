//! Fruit placement: a single position on the grid, drawn from the shared
//! seeded generator and redrawn, when consumed, until it lands on a cell no
//! snake occupies.

use vstd::prelude::*;
use crate::config::GRID_SIZE;
use crate::rng::GridRng;
use crate::rng::grid_sample;
use crate::snake::Segment;
use crate::snake::Snake;
use crate::snake::in_grid;
use crate::snake::occupies;

verus! {

/// How many draws a single repositioning makes at most before giving up.
/// One draw pair per attempt; with any free cell on the grid the bound is
/// unreachable in practice.
pub const REPOSITION_ATTEMPTS: u64 = 0xffffffff;

/// The pair of coordinates drawn on attempt `k` by a generator seeded with
/// `seed` that had made `base` draws before the first attempt.
pub open spec fn draw_pair(seed: u64, base: nat, k: nat) -> (i32, i32) {
    ((grid_sample(seed, base + 2 * k) as i32), (grid_sample(seed, base + 2 * k + 1) as i32))
}

/// The fruit: its position, and the generator both peers draw it from.
pub struct Fruit {
    pub pos: (i32, i32),
    pub rng: GridRng,
}

/// What a completed repositioning did: the new position is the first drawn
/// pair free of both snakes, every earlier pair hit a snake, and the
/// generator advanced by exactly the draws made.
pub open spec fn repositioned(pre: Fruit, post: Fruit, a: Seq<Segment>, b: Seq<Segment>) -> bool {
    &&& post.spec_seed() == pre.spec_seed()
    &&& in_grid(post.pos)
    &&& !occupies(a, post.pos)
    &&& !occupies(b, post.pos)
    &&& exists|k: nat|
        {
            &&& k < REPOSITION_ATTEMPTS
            &&& post.pos == #[trigger] draw_pair(pre.spec_seed(), pre.spec_draws(), k)
            &&& post.spec_draws() == pre.spec_draws() + 2 * k + 2
            &&& forall|j: nat|
                j < k ==> occupies(a, #[trigger] draw_pair(pre.spec_seed(), pre.spec_draws(), j))
                    || occupies(b, draw_pair(pre.spec_seed(), pre.spec_draws(), j))
        }
}

/// What an exhausted repositioning did: every drawn pair hit a snake, and
/// the fruit was left on the last one. Unreachable unless the generator
/// hits occupied cells `REPOSITION_ATTEMPTS` times in a row.
pub open spec fn reposition_exhausted(
    pre: Fruit,
    post: Fruit,
    a: Seq<Segment>,
    b: Seq<Segment>,
) -> bool {
    &&& post.spec_seed() == pre.spec_seed()
    &&& in_grid(post.pos)
    &&& post.pos == draw_pair(
        pre.spec_seed(),
        pre.spec_draws(),
        (REPOSITION_ATTEMPTS - 1) as nat,
    )
    &&& post.spec_draws() == pre.spec_draws() + 2 * REPOSITION_ATTEMPTS
    &&& forall|j: nat|
        j < REPOSITION_ATTEMPTS ==> occupies(
            a,
            #[trigger] draw_pair(pre.spec_seed(), pre.spec_draws(), j),
        ) || occupies(b, draw_pair(pre.spec_seed(), pre.spec_draws(), j))
}

impl Fruit {
    /// The seed of the fruit's generator.
    pub closed spec fn spec_seed(self) -> u64 {
        self.rng.spec_seed()
    }

    /// How many coordinates the fruit's generator has drawn.
    pub closed spec fn spec_draws(self) -> nat {
        self.rng.spec_draws()
    }

    /// The fruit's position lies on the grid.
    pub open spec fn wf(self) -> bool {
        in_grid(self.pos)
    }

    /// Creates the fruit from the shared seed: its first position is the
    /// first two coordinates the seeded generator draws.
    pub fn new(seed: u64) -> (f: Fruit)
        ensures
            f.wf(),
            f.spec_seed() == seed,
            f.spec_draws() == 2,
            f.pos.0 == grid_sample(seed, 0),
            f.pos.1 == grid_sample(seed, 1),
    {
        let mut rng = GridRng::new(seed);
        let x = rng.next_coord();
        let y = rng.next_coord();
        Fruit { pos: (x, y), rng }
    }

    /// Repositions the fruit: draws fresh positions from the shared
    /// generator until one is free of both snakes, then commits it. Both
    /// peers run this with generators and snakes in the same state, so both
    /// commit the same cell.
    pub fn reposition(&mut self, snakes: (&Snake, &Snake))
        ensures
            repositioned(*old(self), *final(self), snakes.0.segments@, snakes.1.segments@)
                || reposition_exhausted(
                *old(self),
                *final(self),
                snakes.0.segments@,
                snakes.1.segments@,
            ),
    {
        let ghost pre = *self;
        let ghost seed = self.rng.spec_seed();
        let ghost base = self.rng.spec_draws();
        let mut attempt: u64 = 0;
        loop
            invariant_except_break
                self.rng.spec_draws() == base + 2 * attempt,
            invariant
                attempt < REPOSITION_ATTEMPTS,
                self.rng.spec_seed() == seed,
                seed == pre.spec_seed(),
                base == pre.spec_draws(),
                forall|j: nat|
                    j < attempt ==> occupies(
                        snakes.0.segments@,
                        #[trigger] draw_pair(seed, base, j),
                    ) || occupies(snakes.1.segments@, draw_pair(seed, base, j)),
            ensures
                repositioned(pre, *self, snakes.0.segments@, snakes.1.segments@)
                    || reposition_exhausted(pre, *self, snakes.0.segments@, snakes.1.segments@),
            decreases REPOSITION_ATTEMPTS - attempt,
        {
            let x = self.rng.next_coord();
            let y = self.rng.next_coord();
            self.pos = (x, y);
            proof {
                assert(self.pos == draw_pair(seed, base, attempt as nat));
            }
            let free = !snakes.0.check_collision(self.pos) && !snakes.1.check_collision(self.pos);
            if free {
                proof {
                    assert(repositioned(pre, *self, snakes.0.segments@, snakes.1.segments@)) by {
                        let k = attempt as nat;
                        assert(self.pos == draw_pair(seed, base, k));
                        assert(self.rng.spec_draws() == base + 2 * k + 2);
                    }
                }
                break;
            }
            if attempt == REPOSITION_ATTEMPTS - 1 {
                proof {
                    assert forall|j: nat| j < REPOSITION_ATTEMPTS implies occupies(
                        snakes.0.segments@,
                        #[trigger] draw_pair(seed, base, j),
                    ) || occupies(snakes.1.segments@, draw_pair(seed, base, j)) by {
                        if j == attempt {
                            assert(draw_pair(seed, base, j) == self.pos);
                        }
                    }
                }
                break;
            }
            attempt = attempt + 1;
        }
    }
}

/// Repositioning is deterministic: two fruits whose generators agree on
/// seed and draw count, repositioned against snakes occupying the same
/// cells, commit the same position and leave their generators in the same
/// state. This is the linchpin of seed-shared fruit placement.
pub proof fn lemma_reposition_deterministic(
    pre1: Fruit,
    post1: Fruit,
    pre2: Fruit,
    post2: Fruit,
    a: Seq<Segment>,
    b: Seq<Segment>,
)
    requires
        pre1.spec_seed() == pre2.spec_seed(),
        pre1.spec_draws() == pre2.spec_draws(),
        repositioned(pre1, post1, a, b) || reposition_exhausted(pre1, post1, a, b),
        repositioned(pre2, post2, a, b) || reposition_exhausted(pre2, post2, a, b),
    ensures
        post1.pos == post2.pos,
        post1.spec_seed() == post2.spec_seed(),
        post1.spec_draws() == post2.spec_draws(),
{
    let seed = pre1.spec_seed();
    let base = pre1.spec_draws();
    if repositioned(pre1, post1, a, b) {
        let k1 = choose|k: nat|
            {
                &&& k < REPOSITION_ATTEMPTS
                &&& post1.pos == #[trigger] draw_pair(seed, base, k)
                &&& post1.spec_draws() == base + 2 * k + 2
                &&& forall|j: nat|
                    j < k ==> occupies(a, #[trigger] draw_pair(seed, base, j)) || occupies(
                        b,
                        draw_pair(seed, base, j),
                    )
            };
        if repositioned(pre2, post2, a, b) {
            let k2 = choose|k: nat|
                {
                    &&& k < REPOSITION_ATTEMPTS
                    &&& post2.pos == #[trigger] draw_pair(seed, base, k)
                    &&& post2.spec_draws() == base + 2 * k + 2
                    &&& forall|j: nat|
                        j < k ==> occupies(a, #[trigger] draw_pair(seed, base, j)) || occupies(
                            b,
                            draw_pair(seed, base, j),
                        )
                };
            if k1 < k2 {
                assert(occupies(a, draw_pair(seed, base, k1)) || occupies(
                    b,
                    draw_pair(seed, base, k1),
                ));
            }
            if k2 < k1 {
                assert(occupies(a, draw_pair(seed, base, k2)) || occupies(
                    b,
                    draw_pair(seed, base, k2),
                ));
            }
            assert(k1 == k2);
        } else {
            // An exhausted run found every draw occupied, yet the first run
            // committed a free draw among them: impossible.
            assert(occupies(a, draw_pair(seed, base, k1)) || occupies(
                b,
                draw_pair(seed, base, k1),
            ));
            assert(false);
        }
    } else {
        if repositioned(pre2, post2, a, b) {
            let k2 = choose|k: nat|
                {
                    &&& k < REPOSITION_ATTEMPTS
                    &&& post2.pos == #[trigger] draw_pair(seed, base, k)
                    &&& post2.spec_draws() == base + 2 * k + 2
                    &&& forall|j: nat|
                        j < k ==> occupies(a, #[trigger] draw_pair(seed, base, j)) || occupies(
                            b,
                            draw_pair(seed, base, j),
                        )
                };
            assert(occupies(a, draw_pair(seed, base, k2)) || occupies(
                b,
                draw_pair(seed, base, k2),
            ));
            assert(false);
        }
    }
}

} // verus!
