//! The round state machine: two player states, the fruit, and the
//! Start/Play/Over phases, advanced by one deterministic simulation step per
//! tick. The synchronization rendezvous that commits both players'
//! directions for a tick happens outside; this module consumes its results
//! (the local direction byte to send, the peer's byte received) and performs
//! the state advance both peers must compute identically.

use vstd::prelude::*;
use crate::config::PlayerPreset;
use crate::config::guest_preset;
use crate::config::host_preset;
use crate::config::spec_guest_preset;
use crate::config::spec_host_preset;
use crate::direction::Direction;
use crate::fruit::Fruit;
use crate::fruit::lemma_reposition_deterministic;
use crate::fruit::reposition_exhausted;
use crate::fruit::repositioned;
use crate::protocol::ProtocolError;
use crate::rng::grid_sample;
use crate::snake::Segment;
use crate::snake::Snake;
use crate::snake::in_grid;
use crate::snake::occupies;
use crate::snake::same_pos;
use crate::snake::self_collides;
use crate::snake::spec_out_of_bounds;
use crate::snake::spec_step;

verus! {

/// The phase of a round: waiting for the local ready trigger, actively
/// simulating, or finished and waiting for a reset trigger.
#[derive(Clone, Copy, Debug, PartialEq, Eq, Structural)]
pub enum GamePhase {
    Start,
    Play,
    Over,
}

/// One player's snake together with the direction that will be applied on
/// the next tick (it may differ from the snake's current head facing until
/// applied).
pub struct PlayerState {
    pub input_direction: Direction,
    pub snake: Snake,
}

/// A full round: both players, the fruit, the phase, and the two presets
/// the players reset to. Which preset is local depends on the session role.
pub struct Round {
    pub phase: GamePhase,
    pub fruit: Fruit,
    pub my_player: PlayerState,
    pub opponent_player: PlayerState,
    pub my_preset: PlayerPreset,
    pub opponent_preset: PlayerPreset,
}

/// A player freshly placed on its preset: a one-segment snake at the preset
/// position, facing — and with pending input — the preset direction.
pub open spec fn player_at_start(p: PlayerState, preset: PlayerPreset) -> bool {
    &&& p.input_direction == preset.direction
    &&& p.snake.segments@ == seq![
        (Segment { pos: preset.position, facing: preset.direction, color_index: 0 }),
    ]
    &&& p.snake.head_pos == preset.position
    &&& p.snake.head_facing == preset.direction
}

/// The segments of `s` after one tick's push in direction `d` and the
/// conditional pull: the tail is kept (the snake grows) exactly when the
/// new head landed on the fruit.
pub open spec fn advanced_segments(s: Snake, d: Direction, fruit_pos: (i32, i32)) -> Seq<Segment> {
    let grown = s.segments@.push(
        Segment {
            pos: spec_step(s.head_pos, d),
            facing: d,
            color_index: s.segments@.len() as usize,
        },
    );
    if spec_step(s.head_pos, d) == fruit_pos {
        grown
    } else {
        grown.drop_first()
    }
}

/// The per-tick round-over test on the two advanced snakes: either head out
/// of bounds, either snake biting itself, or either head on a cell of the
/// other snake (the other's head included, so head-on collisions count).
pub open spec fn spec_collision(my: Seq<Segment>, opp: Seq<Segment>) -> bool
    recommends
        my.len() >= 1,
        opp.len() >= 1,
{
    ||| spec_out_of_bounds(my.last().pos)
    ||| spec_out_of_bounds(opp.last().pos)
    ||| self_collides(my)
    ||| occupies(my, opp.last().pos)
    ||| self_collides(opp)
    ||| occupies(opp, my.last().pos)
}

/// The full relation of one Play-phase tick, from the round before to the
/// round after. Both snakes advance by their committed directions; each
/// keeps its length unless its head landed on the fruit; a consumed fruit
/// is redrawn against the advanced snakes; then the collision test either
/// keeps the round in Play or ends it, resetting both players to their
/// presets and redrawing the fruit once more against the reset snakes.
pub open spec fn spec_tick(pre: Round, post: Round) -> bool {
    let my_dir = pre.my_player.input_direction;
    let opp_dir = pre.opponent_player.input_direction;
    let my_after = advanced_segments(pre.my_player.snake, my_dir, pre.fruit.pos);
    let opp_after = advanced_segments(pre.opponent_player.snake, opp_dir, pre.fruit.pos);
    let my_head = spec_step(pre.my_player.snake.head_pos, my_dir);
    let opp_head = spec_step(pre.opponent_player.snake.head_pos, opp_dir);
    let ate = my_head == pre.fruit.pos || opp_head == pre.fruit.pos;
    &&& post.my_preset == pre.my_preset
    &&& post.opponent_preset == pre.opponent_preset
    &&& post.fruit.spec_seed() == pre.fruit.spec_seed()
    &&& if spec_collision(my_after, opp_after) {
        &&& post.phase == GamePhase::Over
        &&& player_at_start(post.my_player, pre.my_preset)
        &&& player_at_start(post.opponent_player, pre.opponent_preset)
        &&& if ate {
            exists|mid: Fruit|
                {
                    &&& (#[trigger] repositioned(pre.fruit, mid, my_after, opp_after)
                        || reposition_exhausted(pre.fruit, mid, my_after, opp_after))
                    &&& (repositioned(
                        mid,
                        post.fruit,
                        post.my_player.snake.segments@,
                        post.opponent_player.snake.segments@,
                    ) || reposition_exhausted(
                        mid,
                        post.fruit,
                        post.my_player.snake.segments@,
                        post.opponent_player.snake.segments@,
                    ))
                }
        } else {
            repositioned(
                pre.fruit,
                post.fruit,
                post.my_player.snake.segments@,
                post.opponent_player.snake.segments@,
            ) || reposition_exhausted(
                pre.fruit,
                post.fruit,
                post.my_player.snake.segments@,
                post.opponent_player.snake.segments@,
            )
        }
    } else {
        &&& post.phase == GamePhase::Play
        &&& post.my_player.input_direction == my_dir
        &&& post.opponent_player.input_direction == opp_dir
        &&& post.my_player.snake.segments@ == my_after
        &&& post.my_player.snake.head_pos == my_head
        &&& post.my_player.snake.head_facing == my_dir
        &&& post.opponent_player.snake.segments@ == opp_after
        &&& post.opponent_player.snake.head_pos == opp_head
        &&& post.opponent_player.snake.head_facing == opp_dir
        &&& (!ate ==> post.fruit == pre.fruit)
        &&& (ate ==> repositioned(pre.fruit, post.fruit, my_after, opp_after)
            || reposition_exhausted(pre.fruit, post.fruit, my_after, opp_after))
    }
}

/// Everything of a round that the two peers must agree on: phase, both
/// players' committed directions and body cells, the fruit's position and
/// generator state, and the presets.
pub open spec fn same_state(x: Round, y: Round) -> bool {
    &&& x.phase == y.phase
    &&& x.my_player.input_direction == y.my_player.input_direction
    &&& x.my_player.snake.segments@ == y.my_player.snake.segments@
    &&& x.my_player.snake.head_pos == y.my_player.snake.head_pos
    &&& x.my_player.snake.head_facing == y.my_player.snake.head_facing
    &&& x.opponent_player.input_direction == y.opponent_player.input_direction
    &&& x.opponent_player.snake.segments@ == y.opponent_player.snake.segments@
    &&& x.opponent_player.snake.head_pos == y.opponent_player.snake.head_pos
    &&& x.opponent_player.snake.head_facing == y.opponent_player.snake.head_facing
    &&& x.fruit.pos == y.fruit.pos
    &&& x.fruit.spec_seed() == y.fruit.spec_seed()
    &&& x.fruit.spec_draws() == y.fruit.spec_draws()
    &&& x.my_preset == y.my_preset
    &&& x.opponent_preset == y.opponent_preset
}

impl Round {
    /// Both snakes are well-formed with their heads on the grid, the fruit
    /// lies on the grid, and both presets name grid cells.
    pub open spec fn wf(self) -> bool {
        &&& self.my_player.snake.wf()
        &&& self.opponent_player.snake.wf()
        &&& in_grid(self.my_player.snake.head_pos)
        &&& in_grid(self.opponent_player.snake.head_pos)
        &&& in_grid(self.my_preset.position)
        &&& in_grid(self.opponent_preset.position)
        &&& self.fruit.wf()
    }

    /// Creates a round in the Start phase from the session role and the
    /// shared seed. The server role plays the host preset; the client role
    /// plays the guest preset; each renders the other for its peer.
    pub fn new(is_server: bool, seed: u64) -> (r: Round)
        ensures
            r.wf(),
            r.phase == GamePhase::Start,
            is_server ==> r.my_preset == spec_host_preset() && r.opponent_preset
                == spec_guest_preset(),
            !is_server ==> r.my_preset == spec_guest_preset() && r.opponent_preset
                == spec_host_preset(),
            player_at_start(r.my_player, r.my_preset),
            player_at_start(r.opponent_player, r.opponent_preset),
            r.fruit.spec_seed() == seed,
            r.fruit.spec_draws() == 2,
            r.fruit.pos.0 == grid_sample(seed, 0),
            r.fruit.pos.1 == grid_sample(seed, 1),
    {
        let my_preset = if is_server {
            host_preset()
        } else {
            guest_preset()
        };
        let opponent_preset = if is_server {
            guest_preset()
        } else {
            host_preset()
        };
        let my_player = PlayerState {
            input_direction: my_preset.direction,
            snake: Snake::new(my_preset.position, my_preset.direction),
        };
        let opponent_player = PlayerState {
            input_direction: opponent_preset.direction,
            snake: Snake::new(opponent_preset.position, opponent_preset.direction),
        };
        Round {
            phase: GamePhase::Start,
            fruit: Fruit::new(seed),
            my_player,
            opponent_player,
            my_preset,
            opponent_preset,
        }
    }

    /// The local ready trigger. In Start or Over it begins play; a repeated
    /// trigger while already in Play changes nothing, so the transition to
    /// Play fires exactly once.
    pub fn ready(&mut self)
        ensures
            final(self).phase == GamePhase::Play,
            final(self).fruit == old(self).fruit,
            final(self).my_player == old(self).my_player,
            final(self).opponent_player == old(self).opponent_player,
            final(self).my_preset == old(self).my_preset,
            final(self).opponent_preset == old(self).opponent_preset,
    {
        match self.phase {
            GamePhase::Start | GamePhase::Over => {
                self.phase = GamePhase::Play;
            },
            GamePhase::Play => {},
        }
    }

    /// A turn request from local input. It is applied only when
    /// perpendicular to the snake's current head facing; parallel or
    /// reverse requests are dropped, so a committed direction is never the
    /// direct reverse of the facing it is applied to.
    pub fn request_direction(&mut self, direction: Direction)
        ensures
            direction.spec_perpendicular(old(self).my_player.snake.head_facing)
                ==> final(self).my_player.input_direction == direction,
            !direction.spec_perpendicular(old(self).my_player.snake.head_facing)
                ==> final(self).my_player.input_direction == old(self).my_player.input_direction,
            final(self).my_player.snake == old(self).my_player.snake,
            final(self).phase == old(self).phase,
            final(self).fruit == old(self).fruit,
            final(self).opponent_player == old(self).opponent_player,
            final(self).my_preset == old(self).my_preset,
            final(self).opponent_preset == old(self).opponent_preset,
    {
        if direction.perpendicular_to(self.my_player.snake.head_facing) {
            self.my_player.input_direction = direction;
        }
    }

    /// The byte to write to the peer this tick: the local committed
    /// direction's wire code.
    pub fn my_direction_byte(&self) -> (b: u8)
        ensures
            b == self.my_player.input_direction.spec_byte(),
            b <= 3,
    {
        self.my_player.input_direction.as_byte()
    }

    /// Decodes the byte read from the peer this tick and commits it as the
    /// opponent's input direction. A byte outside the four direction codes
    /// is a protocol violation: the round is left unchanged and the decode
    /// failure is surfaced, never coerced.
    pub fn receive_opponent_direction(&mut self, byte: u8) -> (r: Result<(), ProtocolError>)
        ensures
            byte <= 3 ==> {
                &&& r == Ok::<(), ProtocolError>(())
                &&& final(self).opponent_player.input_direction == Direction::spec_of_byte(byte)
                &&& final(self).opponent_player.snake == old(self).opponent_player.snake
                &&& final(self).my_player == old(self).my_player
                &&& final(self).phase == old(self).phase
                &&& final(self).fruit == old(self).fruit
                &&& final(self).my_preset == old(self).my_preset
                &&& final(self).opponent_preset == old(self).opponent_preset
            },
            byte > 3 ==> r == Err::<(), ProtocolError>(ProtocolError::InvalidInputToken)
                && *final(self) == *old(self),
    {
        match Direction::try_from(byte) {
            Ok(direction) => {
                self.opponent_player.input_direction = direction;
                Ok(())
            },
            Err(e) => Err(e),
        }
    }

    /// One simulation step while in Play, taken after the synchronization
    /// rendezvous has committed both directions. Both snakes advance; each
    /// keeps its length unless its head landed on the fruit; a consumed
    /// fruit is redrawn; and the collision test then either keeps the round
    /// in Play or ends it, resetting both players to their presets and
    /// redrawing the fruit once more against the reset snakes.
    pub fn tick(&mut self)
        requires
            old(self).wf(),
            old(self).phase == GamePhase::Play,
        ensures
            final(self).wf(),
            spec_tick(*old(self), *final(self)),
    {
        let my_dir = self.my_player.input_direction;
        let opp_dir = self.opponent_player.input_direction;
        self.my_player.snake.push(my_dir);
        self.opponent_player.snake.push(opp_dir);

        if !same_pos(self.my_player.snake.head_pos, self.fruit.pos) {
            self.my_player.snake.pull();
        }
        if !same_pos(self.opponent_player.snake.head_pos, self.fruit.pos) {
            self.opponent_player.snake.pull();
        }

        let ate = same_pos(self.my_player.snake.head_pos, self.fruit.pos) || same_pos(
            self.opponent_player.snake.head_pos,
            self.fruit.pos,
        );
        if ate {
            self.fruit.reposition((&self.my_player.snake, &self.opponent_player.snake));
        }
        let ghost fruit_mid = self.fruit;

        let collided = Snake::check_out_of_bounds(self.my_player.snake.head_pos)
            || Snake::check_out_of_bounds(self.opponent_player.snake.head_pos)
            || self.my_player.snake.check_self_collision()
            || self.my_player.snake.check_collision(self.opponent_player.snake.head_pos)
            || self.opponent_player.snake.check_self_collision()
            || self.opponent_player.snake.check_collision(self.my_player.snake.head_pos);

        if collided {
            self.phase = GamePhase::Over;

            self.my_player.input_direction = self.my_preset.direction;
            self.my_player.snake = Snake::new(self.my_preset.position, self.my_preset.direction);

            self.opponent_player.input_direction = self.opponent_preset.direction;
            self.opponent_player.snake = Snake::new(
                self.opponent_preset.position,
                self.opponent_preset.direction,
            );

            self.fruit.reposition((&self.my_player.snake, &self.opponent_player.snake));

            proof {
                if ate {
                    let pre = *old(self);
                    let my_after = advanced_segments(
                        pre.my_player.snake,
                        pre.my_player.input_direction,
                        pre.fruit.pos,
                    );
                    let opp_after = advanced_segments(
                        pre.opponent_player.snake,
                        pre.opponent_player.input_direction,
                        pre.fruit.pos,
                    );
                    assert(repositioned(pre.fruit, fruit_mid, my_after, opp_after)
                        || reposition_exhausted(pre.fruit, fruit_mid, my_after, opp_after));
                    assert(exists|mid: Fruit|
                        {
                            &&& (#[trigger] repositioned(pre.fruit, mid, my_after, opp_after)
                                || reposition_exhausted(pre.fruit, mid, my_after, opp_after))
                            &&& (repositioned(
                                mid,
                                self.fruit,
                                self.my_player.snake.segments@,
                                self.opponent_player.snake.segments@,
                            ) || reposition_exhausted(
                                mid,
                                self.fruit,
                                self.my_player.snake.segments@,
                                self.opponent_player.snake.segments@,
                            ))
                        });
                }
            }
        }
    }
}

/// Two heads landing on one cell always end the round: the head cell of
/// one advanced snake is a segment of the other, so the collision test
/// holds whatever else the snakes look like.
pub proof fn lemma_head_on_collision(my: Seq<Segment>, opp: Seq<Segment>)
    requires
        my.len() >= 1,
        opp.len() >= 1,
        my.last().pos == opp.last().pos,
    ensures
        spec_collision(my, opp),
{
    assert(opp[opp.len() - 1].pos == my.last().pos);
    assert(occupies(opp, my.last().pos));
}

/// Lockstep determinism: two rounds that agree on everything the peers
/// must share, advanced by one tick each, agree again afterwards. With the
/// committed directions exchanged each tick and the fruit drawn from the
/// shared seed, the two independently-run simulations cannot diverge.
pub proof fn lemma_tick_deterministic(pre1: Round, post1: Round, pre2: Round, post2: Round)
    requires
        same_state(pre1, pre2),
        spec_tick(pre1, post1),
        spec_tick(pre2, post2),
    ensures
        same_state(post1, post2),
{
    let my_dir = pre1.my_player.input_direction;
    let opp_dir = pre1.opponent_player.input_direction;
    let my_after = advanced_segments(pre1.my_player.snake, my_dir, pre1.fruit.pos);
    let opp_after = advanced_segments(pre1.opponent_player.snake, opp_dir, pre1.fruit.pos);
    let my_head = spec_step(pre1.my_player.snake.head_pos, my_dir);
    let opp_head = spec_step(pre1.opponent_player.snake.head_pos, opp_dir);
    let ate = my_head == pre1.fruit.pos || opp_head == pre1.fruit.pos;

    // The advanced bodies are functions of the cells, heads and inputs,
    // which the two rounds share.
    assert(advanced_segments(
        pre2.my_player.snake,
        pre2.my_player.input_direction,
        pre2.fruit.pos,
    ) == my_after);
    assert(advanced_segments(
        pre2.opponent_player.snake,
        pre2.opponent_player.input_direction,
        pre2.fruit.pos,
    ) == opp_after);

    if spec_collision(my_after, opp_after) {
        if ate {
            let mid1 = choose|mid: Fruit|
                {
                    &&& (#[trigger] repositioned(pre1.fruit, mid, my_after, opp_after)
                        || reposition_exhausted(pre1.fruit, mid, my_after, opp_after))
                    &&& (repositioned(
                        mid,
                        post1.fruit,
                        post1.my_player.snake.segments@,
                        post1.opponent_player.snake.segments@,
                    ) || reposition_exhausted(
                        mid,
                        post1.fruit,
                        post1.my_player.snake.segments@,
                        post1.opponent_player.snake.segments@,
                    ))
                };
            let mid2 = choose|mid: Fruit|
                {
                    &&& (#[trigger] repositioned(pre2.fruit, mid, my_after, opp_after)
                        || reposition_exhausted(pre2.fruit, mid, my_after, opp_after))
                    &&& (repositioned(
                        mid,
                        post2.fruit,
                        post2.my_player.snake.segments@,
                        post2.opponent_player.snake.segments@,
                    ) || reposition_exhausted(
                        mid,
                        post2.fruit,
                        post2.my_player.snake.segments@,
                        post2.opponent_player.snake.segments@,
                    ))
                };
            lemma_reposition_deterministic(pre1.fruit, mid1, pre2.fruit, mid2, my_after, opp_after);
            lemma_reposition_deterministic(
                mid1,
                post1.fruit,
                mid2,
                post2.fruit,
                post1.my_player.snake.segments@,
                post1.opponent_player.snake.segments@,
            );
        } else {
            lemma_reposition_deterministic(
                pre1.fruit,
                post1.fruit,
                pre2.fruit,
                post2.fruit,
                post1.my_player.snake.segments@,
                post1.opponent_player.snake.segments@,
            );
        }
    } else {
        if ate {
            lemma_reposition_deterministic(
                pre1.fruit,
                post1.fruit,
                pre2.fruit,
                post2.fruit,
                my_after,
                opp_after,
            );
        }
    }
}

} // verus!
