//! The simulation state machine: one snake on the bounded arena, a single
//! food cell, a score and the tick scheduler, advanced by plain methods in a
//! fixed order per tick — movement, eating, growth, game-over check — with a
//! food respawn at the end of any tick that consumed the food.

use vstd::prelude::*;
use crate::direction::{arbitrate_spec, Direction};
use crate::grid::{contains_position, in_bounds, in_bounds_spec, step, step_spec, Position, ARENA_HEIGHT, ARENA_WIDTH};
use crate::rng::random_below;
use crate::timer::{interval_for_score, interval_for_score_spec, MoveTimer, MOVE_TIMER_INITIAL_MS};

verus! {

/// The x coordinate the head starts on in a fresh game.
pub const START_X: i32 = 5;

/// The y coordinate the head starts on in a fresh game.
pub const START_Y: i32 = 5;

/// The snake's body cells in order: index 0 is the head, the last index the
/// tail.
#[derive(Debug)]
pub struct SnakeSegments(pub Vec<Position>);

/// The head's state beyond its cell: the direction it faces.
#[derive(Clone, Copy, Debug, PartialEq, Eq, Structural)]
pub struct SnakeHead {
    pub direction: Direction,
}

/// The cell the tail vacated on the most recent movement step; consumed by
/// growth in the tick after a food was eaten, stale otherwise.
#[derive(Clone, Copy, Debug, PartialEq, Eq, Structural)]
pub struct LastTailPosition(pub Option<Position>);

/// Foods eaten since the game started.
#[derive(Clone, Copy, Debug, PartialEq, Eq, Structural)]
pub struct Score(pub u32);

/// Every cell of the sequence lies inside the arena.
pub open spec fn positions_in_bounds(s: Seq<Position>) -> bool {
    forall|i: int| 0 <= i < s.len() ==> in_bounds_spec(#[trigger] s[i])
}

/// No two indices of the sequence hold the same cell.
pub open spec fn positions_distinct(s: Seq<Position>) -> bool {
    forall|i: int, j: int| 0 <= i < j < s.len() ==> s[i] != s[j]
}

/// A cell the food may be placed on: inside the arena, on no segment, and
/// not on the existing food.
pub open spec fn free_cell(segments: Seq<Position>, food: Option<Position>, p: Position) -> bool {
    &&& in_bounds_spec(p)
    &&& !segments.contains(p)
    &&& (food matches Some(g) ==> p != g)
}

/// The whole simulation: segment cells, facing direction, food slot, score,
/// tick timer, the vacated tail cell, and the queued growth signal.
#[derive(Debug)]
pub struct GameState {
    pub segments: SnakeSegments,
    pub head: SnakeHead,
    pub food: Option<Position>,
    pub last_tail_position: LastTailPosition,
    pub score: Score,
    pub move_timer: MoveTimer,
    /// A food was eaten on the most recent tick; the tick after it appends a
    /// tail segment and clears this.
    pub growth_pending: bool,
}

impl GameState {
    /// Well-formedness, held at every tick boundary: at least the two starting
    /// segments, all inside the arena and pairwise distinct; the food, when
    /// present, inside the arena and on no segment; the timer at or above its
    /// floor.
    pub open spec fn wf(self) -> bool {
        &&& self.segments.0@.len() >= 2
        &&& positions_in_bounds(self.segments.0@)
        &&& positions_distinct(self.segments.0@)
        &&& (self.food matches Some(f) ==> in_bounds_spec(f) && !self.segments.0@.contains(f))
        &&& self.move_timer.wf()
    }

    /// The head's cell: the segment at index 0.
    pub open spec fn head_position(self) -> Position {
        self.segments.0@[0]
    }

    /// The cell the head moves onto on the next movement step.
    pub open spec fn next_head(self) -> Position {
        step_spec(self.head_position(), self.head.direction)
    }

    /// The next movement step leaves the arena.
    pub open spec fn hits_wall(self) -> bool {
        !in_bounds_spec(self.next_head())
    }

    /// The next movement step lands on a cell some segment occupies before
    /// the move (the pre-move snapshot, old head cell included).
    pub open spec fn hits_body(self) -> bool {
        self.segments.0@.contains(self.next_head())
    }

    /// The next movement step ends the game: it leaves the arena or lands on
    /// the pre-move snapshot of the body.
    pub open spec fn collides(self) -> bool {
        self.hits_wall() || self.hits_body()
    }

    /// The next movement step lands on the food.
    pub open spec fn eats(self) -> bool {
        self.food matches Some(f) && self.next_head() == f
    }

    /// The state a fresh game is in: head at the start cell facing Up, one
    /// body segment one cell below it, score zero, the initial tick interval,
    /// no growth queued, and a food placed on a free cell.
    pub open spec fn fresh_game(self) -> bool {
        &&& self.segments.0@.len() == 2
        &&& self.segments.0@[0] == (Position { x: START_X, y: START_Y })
        &&& self.segments.0@[1] == (Position { x: START_X, y: (START_Y - 1) as i32 })
        &&& self.head.direction == Direction::Up
        &&& self.score.0 == 0
        &&& self.move_timer.interval_ms == MOVE_TIMER_INITIAL_MS
        &&& !self.growth_pending
        &&& self.food matches Some(f) && in_bounds_spec(f) && !self.segments.0@.contains(f)
    }

    /// One movement step: the head advances one cell along the facing
    /// direction, every other segment takes the cell its predecessor held
    /// before the move, and the cell the tail vacated is recorded. The
    /// returned flag reports a game-over condition — the new head cell left
    /// the arena or equals a cell of the pre-move snapshot — evaluated on the
    /// snapshot, but the shift is performed either way; the caller resets the
    /// game when the flag is set.
    pub fn snake_movement(&mut self) -> (collided: bool)
        requires
            old(self).wf(),
        ensures
            collided == old(self).collides(),
            final(self).segments.0@ == seq![old(self).next_head()]
                + old(self).segments.0@.drop_last(),
            final(self).last_tail_position.0 == Some(old(self).segments.0@.last()),
            final(self).head == old(self).head,
            final(self).food == old(self).food,
            final(self).score == old(self).score,
            final(self).move_timer == old(self).move_timer,
            final(self).growth_pending == old(self).growth_pending,
    {
        let n = self.segments.0.len();
        let head_pos = self.segments.0[0];
        let new_head = step(head_pos, self.head.direction);
        let hit_wall = !in_bounds(new_head);
        let hit_body = contains_position(&self.segments.0, new_head);
        let mut shifted: Vec<Position> = Vec::new();
        shifted.push(new_head);
        let mut i: usize = 1;
        while i < n
            invariant
                1 <= i <= n,
                n == old(self).segments.0@.len(),
                self == old(self),
                shifted@.len() == i,
                shifted@[0] == old(self).next_head(),
                forall|j: int| 1 <= j < i ==> shifted@[j] == old(self).segments.0@[j - 1],
            decreases n - i,
        {
            let follow = self.segments.0[i - 1];
            shifted.push(follow);
            i += 1;
        }
        let tail = self.segments.0[n - 1];
        self.segments.0 = shifted;
        self.last_tail_position = LastTailPosition(Some(tail));
        proof {
            let target = seq![old(self).next_head()] + old(self).segments.0@.drop_last();
            assert forall|j: int| 0 <= j < target.len() implies self.segments.0@[j] == target[j] by {
                if j >= 1 {
                    assert(self.segments.0@[j] == old(self).segments.0@[j - 1]);
                }
            }
            assert(self.segments.0@ =~= target);
        }
        hit_wall || hit_body
    }

    /// The consumption check, run right after movement: when the head stands
    /// on the food, the food is removed, the score rises by one, a growth is
    /// queued for the next tick, and the tick interval is recomputed from the
    /// new score and clamped to its floor. At most one consumption happens
    /// per tick.
    pub fn snake_eating(&mut self) -> (ate: bool)
        requires
            old(self).segments.0@.len() >= 1,
            old(self).score.0 < u32::MAX,
        ensures
            ate == (old(self).food matches Some(f) && old(self).segments.0@[0] == f),
            ate ==> {
                &&& final(self).food is None
                &&& final(self).score.0 == old(self).score.0 + 1
                &&& final(self).growth_pending
                &&& final(self).move_timer.interval_ms == interval_for_score_spec(
                    (old(self).score.0 + 1) as u32,
                )
                &&& final(self).move_timer.accumulated_ms == old(self).move_timer.accumulated_ms
            },
            !ate ==> *final(self) == *old(self),
            final(self).segments == old(self).segments,
            final(self).head == old(self).head,
            final(self).last_tail_position == old(self).last_tail_position,
    {
        match self.food {
            Some(food_pos) => {
                let head_pos = self.segments.0[0];
                if head_pos == food_pos {
                    self.food = None;
                    self.score.0 = self.score.0 + 1;
                    self.growth_pending = true;
                    let interval = interval_for_score(self.score.0);
                    self.move_timer.set_interval(interval);
                    true
                } else {
                    false
                }
            },
            None => false,
        }
    }

    /// The growth step: when a cell vacated by the tail is recorded, one new
    /// segment is appended there, as the new tail. Without a recorded cell
    /// the step does nothing.
    pub fn snake_growth(&mut self)
        ensures
            old(self).last_tail_position.0 matches Some(p)
                ==> final(self).segments.0@ == old(self).segments.0@.push(p),
            old(self).last_tail_position.0 is None ==> final(self).segments == old(self).segments,
            final(self).head == old(self).head,
            final(self).food == old(self).food,
            final(self).last_tail_position == old(self).last_tail_position,
            final(self).score == old(self).score,
            final(self).move_timer == old(self).move_timer,
            final(self).growth_pending == old(self).growth_pending,
    {
        match self.last_tail_position.0 {
            Some(p) => {
                self.segments.0.push(p);
            },
            None => {},
        }
    }

    /// The food placement search: every arena cell on no segment and not on
    /// the existing food is collected, and one of them is drawn at random to
    /// hold the food — so the food is never placed on an occupied cell, and a
    /// food is owed whenever any free cell exists. When the arena has no free
    /// cell (out of scope for this arena size) the slot is left as it was.
    /// The previous food, if any, is replaced.
    pub fn spawn_food(&mut self)
        ensures
            (exists|p: Position|
                free_cell(old(self).segments.0@, old(self).food, p)) ==> {
                &&& final(self).food matches Some(f)
                &&& free_cell(old(self).segments.0@, old(self).food, f)
            },
            !(exists|p: Position| free_cell(old(self).segments.0@, old(self).food, p))
                ==> final(self).food == old(self).food,
            final(self).segments == old(self).segments,
            final(self).head == old(self).head,
            final(self).last_tail_position == old(self).last_tail_position,
            final(self).score == old(self).score,
            final(self).move_timer == old(self).move_timer,
            final(self).growth_pending == old(self).growth_pending,
    {
        let mut free: Vec<Position> = Vec::new();
        let mut x: i32 = 0;
        while x < ARENA_WIDTH
            invariant
                0 <= x <= ARENA_WIDTH,
                self == old(self),
                free@.len() <= x * ARENA_HEIGHT,
                forall|k: int|
                    0 <= k < free@.len() ==> free_cell(
                        old(self).segments.0@,
                        old(self).food,
                        #[trigger] free@[k],
                    ),
                forall|p: Position|
                    free_cell(old(self).segments.0@, old(self).food, p) && p.x < x
                        ==> free@.contains(p),
            decreases ARENA_WIDTH - x,
        {
            let mut y: i32 = 0;
            while y < ARENA_HEIGHT
                invariant
                    0 <= x < ARENA_WIDTH,
                    0 <= y <= ARENA_HEIGHT,
                    self == old(self),
                    free@.len() <= x * ARENA_HEIGHT + y,
                    forall|k: int|
                        0 <= k < free@.len() ==> free_cell(
                            old(self).segments.0@,
                            old(self).food,
                            #[trigger] free@[k],
                        ),
                    forall|p: Position|
                        free_cell(old(self).segments.0@, old(self).food, p) && (p.x < x || (p.x
                            == x && p.y < y)) ==> free@.contains(p),
                decreases ARENA_HEIGHT - y,
            {
                let ghost free_before = free@;
                let candidate = Position { x, y };
                let on_segment = contains_position(&self.segments.0, candidate);
                let on_food = match self.food {
                    Some(g) => candidate == g,
                    None => false,
                };
                if !on_segment && !on_food {
                    free.push(candidate);
                }
                proof {
                    assert forall|p: Position|
                        free_cell(old(self).segments.0@, old(self).food, p) && (p.x < x || (p.x
                            == x && p.y < y + 1)) implies free@.contains(p) by {
                        if p.x == x && p.y == y {
                            assert(p == candidate);
                            assert(free@[free@.len() - 1] == p);
                        } else {
                            assert(free_before.contains(p));
                            let k = choose|k: int|
                                0 <= k < free_before.len() && free_before[k] == p;
                            assert(free@[k] == p);
                        }
                    }
                }
                y += 1;
            }
            x += 1;
        }
        if free.len() > 0 {
            let idx = random_below(free.len() as u32);
            let chosen = free[idx as usize];
            self.food = Some(chosen);
        } else {
            proof {
                assert forall|p: Position|
                    !free_cell(old(self).segments.0@, old(self).food, p) by {
                    if free_cell(old(self).segments.0@, old(self).food, p) {
                        assert(free@.contains(p));
                    }
                }
            }
        }
    }

    /// Starts a fresh game on the state: score zero, the initial tick
    /// interval, the two starting segments — head at the start cell facing
    /// Up, body one cell below — and a food placed on a free cell. The
    /// timer's accumulated time and the recorded vacated-tail cell are left
    /// as they were.
    pub fn new_game(&mut self)
        ensures
            final(self).wf(),
            final(self).fresh_game(),
            final(self).move_timer.accumulated_ms == old(self).move_timer.accumulated_ms,
            final(self).last_tail_position == old(self).last_tail_position,
    {
        self.score = Score(0);
        self.move_timer.set_interval(MOVE_TIMER_INITIAL_MS);
        self.growth_pending = false;
        self.head = SnakeHead { direction: Direction::Up };
        let mut segs: Vec<Position> = Vec::new();
        segs.push(Position { x: START_X, y: START_Y });
        segs.push(Position { x: START_X, y: START_Y - 1 });
        self.segments = SnakeSegments(segs);
        self.food = None;
        proof {
            let corner = Position { x: 0, y: 0 };
            assert forall|k: int|
                0 <= k < self.segments.0@.len() implies self.segments.0@[k] != corner by {
                assert(self.segments.0@[0].x == START_X);
                assert(self.segments.0@[1].x == START_X);
            }
            assert(!self.segments.0@.contains(corner));
            assert(free_cell(self.segments.0@, self.food, corner));
        }
        self.spawn_food();
    }

    /// The game-over edge: all segments and the food are destroyed, then a
    /// fresh game starts at once — score back to zero, no pause state.
    pub fn game_over(&mut self)
        ensures
            final(self).wf(),
            final(self).fresh_game(),
            final(self).move_timer.accumulated_ms == old(self).move_timer.accumulated_ms,
            final(self).last_tail_position == old(self).last_tail_position,
    {
        self.food = None;
        self.segments = SnakeSegments(Vec::new());
        self.new_game();
    }

    /// A simulation holding a fresh game, with nothing accumulated on the
    /// timer.
    pub fn new() -> (s: GameState)
        ensures
            s.wf(),
            s.fresh_game(),
            s.move_timer.accumulated_ms == 0,
    {
        let mut s = GameState {
            segments: SnakeSegments(Vec::new()),
            head: SnakeHead { direction: Direction::Up },
            food: None,
            last_tail_position: LastTailPosition(None),
            score: Score(0),
            move_timer: MoveTimer::new(),
            growth_pending: false,
        };
        s.new_game();
        s
    }

    /// The ordered segment cells the renderer reads, head first.
    pub fn segment_positions(&self) -> (r: &Vec<Position>)
        ensures
            r@ == self.segments.0@,
    {
        &self.segments.0
    }

    /// The food's cell, when one is present.
    pub fn food_position(&self) -> (r: Option<Position>)
        ensures
            r == self.food,
    {
        self.food
    }

    /// Foods eaten since the game started.
    pub fn current_score(&self) -> (r: u32)
        ensures
            r == self.score.0,
    {
        self.score.0
    }

    /// One round of input arbitration, run once per rendered frame: a
    /// requested direction is stored unless it is the exact opposite of the
    /// current one, which is rejected silently; no request keeps the current
    /// direction. Nothing else changes.
    pub fn apply_direction_input(&mut self, intent: Option<Direction>)
        ensures
            final(self).head.direction == arbitrate_spec(old(self).head.direction, intent),
            final(self).segments == old(self).segments,
            final(self).food == old(self).food,
            final(self).last_tail_position == old(self).last_tail_position,
            final(self).score == old(self).score,
            final(self).move_timer == old(self).move_timer,
            final(self).growth_pending == old(self).growth_pending,
    {
        match intent {
            Some(d) => {
                let opp = self.head.direction.opposite();
                if d != opp {
                    self.head = SnakeHead { direction: d };
                }
            },
            None => {},
        }
    }
}

/// What one fired tick does, as a relation between the state before (after
/// input arbitration) and the state after. On a collision the game resets to
/// a fresh one; otherwise the head advances one cell, the body follows, the
/// vacated tail cell is recorded, a queued growth appends one segment, a
/// consumed food raises the score, shrinks the interval, queues a growth for
/// the next tick and is respawned on a free cell when one exists.
pub open spec fn tick_rel(pre: GameState, post: GameState) -> bool {
    let nh = pre.next_head();
    if pre.collides() {
        &&& post.fresh_game()
        &&& post.move_timer.accumulated_ms == pre.move_timer.accumulated_ms
        &&& post.last_tail_position.0 == Some(pre.segments.0@.last())
    } else {
        &&& post.segments.0@ == if pre.growth_pending {
            seq![nh] + pre.segments.0@
        } else {
            seq![nh] + pre.segments.0@.drop_last()
        }
        &&& post.head.direction == pre.head.direction
        &&& post.last_tail_position.0 == Some(pre.segments.0@.last())
        &&& post.move_timer.accumulated_ms == pre.move_timer.accumulated_ms
        &&& post.growth_pending == pre.eats()
        &&& pre.eats() ==> {
            &&& post.score.0 == pre.score.0 + 1
            &&& post.move_timer.interval_ms == interval_for_score_spec((pre.score.0 + 1) as u32)
            &&& ((exists|p: Position| free_cell(post.segments.0@, None, p))
                ==> post.food.is_some())
            &&& (post.food matches Some(f) ==> free_cell(post.segments.0@, None, f))
        }
        &&& !pre.eats() ==> {
            &&& post.score == pre.score
            &&& post.move_timer.interval_ms == pre.move_timer.interval_ms
            &&& post.food == pre.food
        }
    }
}

impl GameState {
    /// One fired simulation tick, in the fixed order: movement and collision
    /// detection, then the consumption check, then growth of a queued
    /// segment at the cell the tail just vacated, then — on a collision —
    /// the reset, and last the respawn of a consumed food.
    pub fn tick(&mut self)
        requires
            old(self).wf(),
            old(self).score.0 < u32::MAX,
        ensures
            final(self).wf(),
            tick_rel(*old(self), *final(self)),
    {
        let grow_now = self.growth_pending;
        self.growth_pending = false;
        let collided = self.snake_movement();
        if collided {
            self.game_over();
        } else {
            let ate = self.snake_eating();
            if grow_now {
                self.snake_growth();
            }
            proof {
                let pre = *old(self);
                let nh = pre.next_head();
                let body = self.segments.0@;
                assert(body == if pre.growth_pending {
                    seq![nh] + pre.segments.0@
                } else {
                    seq![nh] + pre.segments.0@.drop_last()
                }) by {
                    if pre.growth_pending {
                        assert((seq![nh] + pre.segments.0@.drop_last()).push(
                            pre.segments.0@.last(),
                        ) =~= seq![nh] + pre.segments.0@);
                    }
                }
                assert forall|i: int, j: int|
                    0 <= i < j < body.len() implies body[i] != body[j] by {
                    lemma_shifted_body_distinct(pre, body, i, j);
                }
                assert(positions_in_bounds(body)) by {
                    assert forall|i: int|
                        0 <= i < body.len() implies in_bounds_spec(#[trigger] body[i]) by {
                        if i > 0 {
                            assert(body[i] == pre.segments.0@[i - 1]);
                        }
                    }
                }
                if !pre.eats() {
                    match pre.food {
                        Some(f) => {
                            assert forall|k: int| 0 <= k < body.len() implies body[k] != f by {
                                if k == 0 {
                                    assert(body[0] == nh);
                                } else {
                                    assert(body[k] == pre.segments.0@[k - 1]);
                                    if pre.segments.0@[k - 1] == f {
                                        assert(pre.segments.0@.contains(f));
                                    }
                                }
                            }
                            assert(!body.contains(f));
                        },
                        None => {},
                    }
                }
                crate::timer::lemma_interval_clamped_at_minimum((pre.score.0 + 1) as u32);
            }
            if ate {
                self.spawn_food();
            }
        }
    }
}

impl GameState {
    /// The same state with the facing direction replaced.
    pub open spec fn with_direction(self, d: Direction) -> GameState {
        GameState {
            segments: self.segments,
            head: SnakeHead { direction: d },
            food: self.food,
            last_tail_position: self.last_tail_position,
            score: self.score,
            move_timer: self.move_timer,
            growth_pending: self.growth_pending,
        }
    }

    /// The same state with the timer's accumulated time replaced.
    pub open spec fn with_accumulated(self, acc: u32) -> GameState {
        GameState {
            segments: self.segments,
            head: self.head,
            food: self.food,
            last_tail_position: self.last_tail_position,
            score: self.score,
            move_timer: MoveTimer {
                accumulated_ms: acc,
                interval_ms: self.move_timer.interval_ms,
            },
            growth_pending: self.growth_pending,
        }
    }

    /// One rendered frame: the directional intent — possibly none — goes
    /// through arbitration, the elapsed wall-clock time feeds the tick
    /// scheduler, and when the scheduler fires, exactly one tick runs on the
    /// arbitrated state. Returns whether a tick fired.
    pub fn frame(&mut self, elapsed_ms: u32, intent: Option<Direction>) -> (ticked: bool)
        requires
            old(self).wf(),
            old(self).score.0 < u32::MAX,
        ensures
            final(self).wf(),
            ticked == (old(self).move_timer.accumulated_ms + elapsed_ms
                >= old(self).move_timer.interval_ms),
            !ticked ==> *final(self) == old(self).with_direction(
                arbitrate_spec(old(self).head.direction, intent),
            ).with_accumulated((old(self).move_timer.accumulated_ms + elapsed_ms) as u32),
            ticked ==> tick_rel(
                old(self).with_direction(arbitrate_spec(old(self).head.direction, intent))
                    .with_accumulated(0),
                *final(self),
            ),
    {
        self.apply_direction_input(intent);
        let fired = self.move_timer.advance(elapsed_ms);
        if fired {
            proof {
                assert(*self == old(self).with_direction(
                    arbitrate_spec(old(self).head.direction, intent),
                ).with_accumulated(0));
            }
            self.tick();
        }
        fired
    }
}

/// The number of segments never falls on a tick without a collision: it
/// rises by exactly one when a growth was queued — that is, when the
/// previous tick consumed a food — and stays the same otherwise.
pub proof fn lemma_segment_count_after_tick(pre: GameState, post: GameState)
    requires
        pre.wf(),
        tick_rel(pre, post),
        !pre.collides(),
    ensures
        post.segments.0@.len() >= pre.segments.0@.len(),
        pre.growth_pending ==> post.segments.0@.len() == pre.segments.0@.len() + 1,
        !pre.growth_pending ==> post.segments.0@.len() == pre.segments.0@.len(),
{
}

/// Across two consecutive collision-free ticks, the number of segments
/// rises by exactly one on the tick immediately following a
/// food-consumption tick, and by zero otherwise.
pub proof fn lemma_growth_follows_consumption(s0: GameState, s1: GameState, s2: GameState)
    requires
        s0.wf(),
        s1.wf(),
        tick_rel(s0, s1),
        tick_rel(s1, s2),
        !s0.collides(),
        !s1.collides(),
    ensures
        s0.eats() ==> s2.segments.0@.len() == s1.segments.0@.len() + 1,
        !s0.eats() ==> s2.segments.0@.len() == s1.segments.0@.len(),
{
    lemma_segment_count_after_tick(s1, s2);
}

/// On a tick without a collision the new head cell differs from the old one
/// by exactly one unit on exactly one axis, the axis and sign given by the
/// facing direction.
pub proof fn lemma_head_moves_one_cell(pre: GameState, post: GameState)
    requires
        pre.wf(),
        tick_rel(pre, post),
        !pre.collides(),
    ensures
        ({
            let h0 = pre.head_position();
            let h1 = post.head_position();
            match pre.head.direction {
                Direction::Up => h1.x == h0.x && h1.y == h0.y + 1,
                Direction::Down => h1.x == h0.x && h1.y == h0.y - 1,
                Direction::Left => h1.x == h0.x - 1 && h1.y == h0.y,
                Direction::Right => h1.x == h0.x + 1 && h1.y == h0.y,
            }
        }),
{
    assert(post.head_position() == pre.next_head());
}

/// In every well-formed state the food, when present, sits inside the arena
/// and on no cell any segment occupies.
pub proof fn lemma_food_never_on_snake(s: GameState)
    requires
        s.wf(),
        s.food is Some,
    ensures
        in_bounds_spec(s.food->Some_0),
        !s.segments.0@.contains(s.food->Some_0),
{
}

/// In the body a movement step leaves behind — the new head cell followed by
/// every pre-move cell except possibly the last — no cell repeats, given a
/// well-formed pre-state whose step caused no collision.
proof fn lemma_shifted_body_distinct(pre: GameState, body: Seq<Position>, i: int, j: int)
    requires
        pre.wf(),
        !pre.collides(),
        body == seq![pre.next_head()] + pre.segments.0@ || body == seq![pre.next_head()]
            + pre.segments.0@.drop_last(),
        0 <= i < j < body.len(),
    ensures
        body[i] != body[j],
{
    let nh = pre.next_head();
    if i == 0 {
        assert(body[j] == pre.segments.0@[j - 1]);
        if body[j] == nh {
            assert(pre.segments.0@.contains(nh));
        }
    } else {
        assert(body[i] == pre.segments.0@[i - 1]);
        assert(body[j] == pre.segments.0@[j - 1]);
    }
}

} // verus!
