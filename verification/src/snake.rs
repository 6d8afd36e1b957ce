//! The snake entity and its per-tick movement, growth and collision
//! algorithm, together with the two-slot input-buffering policy.

use vstd::prelude::*;
use std::collections::VecDeque;
use crate::direction::Direction;
use crate::food::Food;
use crate::grid::GridPosition;

verus! {

/// One cell of the snake's body: a named wrapper around a position.
#[derive(Clone, Copy, Debug, PartialEq, Eq, Structural)]
pub struct Segment {
    pub pos: GridPosition,
}

impl Segment {
    /// Wraps a position as a body segment.
    pub fn new(pos: GridPosition) -> (r: Self)
        ensures
            r.pos == pos,
    {
        Segment { pos }
    }
}

/// What the snake swallowed on the most recently completed tick: a piece of
/// food, or a cell of its own body.
#[derive(Clone, Copy, Debug, PartialEq, Eq, Structural)]
pub enum Ate {
    Itself,
    Food,
}

/// The mathematical state of a snake: head position, ordered body positions
/// (front = most recently vacated head cell, back = oldest tail cell), the
/// direction staged for the next tick, the direction applied on the last
/// completed tick, the single buffered direction request, and the outcome of
/// the last tick.
#[verifier::ext_equal]
pub ghost struct SnakeModel {
    pub head: GridPosition,
    pub body: Seq<GridPosition>,
    pub dir: Direction,
    pub last_update_dir: Direction,
    pub next_dir: Option<Direction>,
    pub ate: Option<Ate>,
}

impl SnakeModel {
    /// Every cell of the snake lies on the grid, and the body holds at least
    /// the one initial tail segment.
    pub open spec fn wf(self) -> bool {
        &&& self.head.in_bounds()
        &&& (forall|i: int| 0 <= i < self.body.len() ==> (#[trigger] self.body[i]).in_bounds())
        &&& self.body.len() >= 1
    }

    /// A buffered direction is promoted at the start of a tick once the
    /// previously staged direction has taken effect.
    pub open spec fn promotes(self) -> bool {
        self.last_update_dir == self.dir && self.next_dir.is_some()
    }

    /// The direction the coming tick actually moves in: the buffered request
    /// if it is promoted, the staged direction otherwise.
    pub open spec fn effective_dir(self) -> Direction {
        if self.promotes() {
            self.next_dir.unwrap()
        } else {
            self.dir
        }
    }

    /// The input-handling policy, applied once per key press strictly
    /// between ticks. A request is buffered when a direction change is
    /// already pending and the request does not reverse that pending
    /// direction; it is staged directly when it does not reverse the
    /// direction last applied; otherwise it is silently discarded.
    pub open spec fn steer(self, d: Direction) -> SnakeModel {
        if self.dir != self.last_update_dir && d.inverse_spec() != self.dir {
            SnakeModel { next_dir: Some(d), ..self }
        } else if d.inverse_spec() != self.last_update_dir {
            SnakeModel { dir: d, ..self }
        } else {
            self
        }
    }

    /// One tick of the update algorithm, given the current food position:
    /// promote a buffered direction if due, move the head one cell, push the
    /// vacated head cell onto the front of the body, determine the outcome
    /// (self-collision before food, food before nothing), and pop the tail
    /// only when nothing was eaten.
    pub open spec fn step(self, food: GridPosition) -> SnakeModel {
        let d = self.effective_dir();
        let new_head = GridPosition::moved_spec(self.head, d);
        let pushed = seq![self.head] + self.body;
        let ate = if pushed.contains(new_head) {
            Some(Ate::Itself)
        } else if new_head == food {
            Some(Ate::Food)
        } else {
            None
        };
        SnakeModel {
            head: new_head,
            body: if ate.is_some() {
                pushed
            } else {
                pushed.drop_last()
            },
            dir: d,
            last_update_dir: d,
            next_dir: if self.promotes() {
                None
            } else {
                self.next_dir
            },
            ate: ate,
        }
    }

    /// The state after running one tick per entry of `foods`, where entry
    /// `i` is the food position current during tick `i`.
    pub open spec fn run(self, foods: Seq<GridPosition>) -> SnakeModel
        decreases foods.len(),
    {
        if foods.len() == 0 {
            self
        } else {
            self.step(foods[0]).run(foods.drop_first())
        }
    }

    /// How many of the ticks of `run(foods)` end in a food consumption.
    pub open spec fn food_eaten(self, foods: Seq<GridPosition>) -> nat
        decreases foods.len(),
    {
        if foods.len() == 0 {
            0nat
        } else {
            let next = self.step(foods[0]);
            (if next.ate == Some(Ate::Food) {
                1nat
            } else {
                0nat
            }) + next.food_eaten(foods.drop_first())
        }
    }

    /// No tick of `run(foods)` ends in a self-collision.
    pub open spec fn never_hits_itself(self, foods: Seq<GridPosition>) -> bool
        decreases foods.len(),
    {
        if foods.len() == 0 {
            true
        } else {
            let next = self.step(foods[0]);
            next.ate != Some(Ate::Itself) && next.never_hits_itself(foods.drop_first())
        }
    }
}

/// The snake: head segment, ordered body segments, staged and last-applied
/// directions, the buffered direction request, and the last tick's outcome.
pub struct Snake {
    pub head: Segment,
    pub dir: Direction,
    pub body: VecDeque<Segment>,
    pub ate: Option<Ate>,
    pub last_update_dir: Direction,
    pub next_dir: Option<Direction>,
}

impl View for Snake {
    type V = SnakeModel;

    open spec fn view(&self) -> SnakeModel {
        SnakeModel {
            head: self.head.pos,
            body: self.body@.map_values(|s: Segment| s.pos),
            dir: self.dir,
            last_update_dir: self.last_update_dir,
            next_dir: self.next_dir,
            ate: self.ate,
        }
    }
}

impl Snake {
    /// The state a fresh snake starts in: moving right, one tail segment in
    /// the cell left of the head, nothing buffered and nothing eaten.
    pub open spec fn initial_model(pos: GridPosition) -> SnakeModel {
        SnakeModel {
            head: pos,
            body: seq![GridPosition::moved_spec(pos, Direction::Left)],
            dir: Direction::Right,
            last_update_dir: Direction::Right,
            next_dir: None,
            ate: None,
        }
    }

    /// Builds a snake headed at `pos`, with its single tail segment one cell
    /// to the left (wrapping around the grid's edge).
    pub fn new(pos: GridPosition) -> (r: Self)
        requires
            pos.in_bounds(),
        ensures
            r@ == Self::initial_model(pos),
            r@.wf(),
    {
        let mut body: VecDeque<Segment> = VecDeque::new();
        body.push_back(Segment::new(GridPosition::new_from_move(pos, Direction::Left)));
        let r = Snake {
            head: Segment::new(pos),
            dir: Direction::Right,
            last_update_dir: Direction::Right,
            body,
            ate: None,
            next_dir: None,
        };
        proof {
            assert(r@ =~= Self::initial_model(pos));
        }
        r
    }

    /// The head stands on the food.
    pub fn eats(&self, food: &Food) -> (r: bool)
        ensures
            r == (self@.head == food.pos),
    {
        self.head.pos == food.pos
    }

    /// The head stands on one of the body's cells.
    pub fn eats_self(&self) -> (r: bool)
        ensures
            r == self@.body.contains(self@.head),
    {
        let n = self.body.len();
        let mut i: usize = 0;
        while i < n
            invariant
                n == self.body@.len(),
                0 <= i <= n,
                forall|j: int| 0 <= j < i ==> self.body@[j].pos != self.head.pos,
            decreases n - i,
        {
            if self.head.pos == self.body[i].pos {
                proof {
                    assert(self@.body[i as int] == self@.head);
                }
                return true;
            }
            i = i + 1;
        }
        proof {
            assert(forall|k: int| 0 <= k < self@.body.len()
                ==> self@.body[k] == self.body@[k].pos);
        }
        false
    }

    /// Applies a key press to the snake's staged and buffered directions,
    /// per the input-handling policy.
    pub fn steer(&mut self, d: Direction)
        ensures
            final(self)@ == old(self)@.steer(d),
    {
        if self.dir != self.last_update_dir && d.inverse() != self.dir {
            self.next_dir = Some(d);
        } else if d.inverse() != self.last_update_dir {
            self.dir = d;
        }
        proof {
            assert(self@ =~= old(self)@.steer(d));
        }
    }

    /// One tick of the movement algorithm against the current food position.
    pub fn update(&mut self, food: &Food)
        requires
            old(self)@.wf(),
        ensures
            final(self)@ == old(self)@.step(food.pos),
            final(self)@.wf(),
    {
        let ghost pre = self@;
        if self.last_update_dir == self.dir && self.next_dir.is_some() {
            self.dir = self.next_dir.unwrap();
            self.next_dir = None;
        }
        proof {
            assert(self.dir == pre.effective_dir());
        }
        let new_head_pos = GridPosition::new_from_move(self.head.pos, self.dir);
        let new_head = Segment::new(new_head_pos);
        self.body.push_front(self.head);
        self.head = new_head;
        proof {
            assert(self@.body =~= seq![pre.head] + pre.body);
        }
        if self.eats_self() {
            self.ate = Some(Ate::Itself);
        } else if self.eats(food) {
            self.ate = Some(Ate::Food);
        } else {
            self.ate = None;
        }
        if self.ate.is_none() {
            self.body.pop_back();
            proof {
                assert(self@.body =~= (seq![pre.head] + pre.body).drop_last());
            }
        }
        self.last_update_dir = self.dir;
        proof {
            assert(self@ =~= pre.step(food.pos));
            assert forall|i: int| 0 <= i < self@.body.len()
                implies (#[trigger] self@.body[i]).in_bounds() by {
                let pushed = seq![pre.head] + pre.body;
                assert(self@.body[i] == pushed[i]);
                if i > 0 {
                    assert(pushed[i] == pre.body[i - 1]);
                }
            }
        }
    }
}

/// Law (growth invariant): over any run of ticks in which no tick ends in a
/// self-collision, the body grows by exactly one segment per tick that ends
/// in a food consumption, and is otherwise unchanged. Starting from a fresh
/// snake, whose body holds one segment, the body therefore holds `1 + K`
/// segments after exactly `K` food consumptions.
pub proof fn lemma_growth_invariant(m: SnakeModel, foods: Seq<GridPosition>)
    requires
        m.never_hits_itself(foods),
    ensures
        m.run(foods).body.len() == m.body.len() + m.food_eaten(foods),
    decreases foods.len(),
{
    if foods.len() > 0 {
        let next = m.step(foods[0]);
        assert(next.body.len() == m.body.len() + (if next.ate.is_some() {
            1int
        } else {
            0int
        }));
        lemma_growth_invariant(next, foods.drop_first());
    }
}

/// Law (growth invariant, from the start): a fresh snake that runs any
/// number of ticks with exactly `K` food consumptions and no self-collision
/// ends with `1 + K` body segments: the initial tail segment plus one per
/// food eaten.
pub proof fn lemma_growth_from_start(pos: GridPosition, foods: Seq<GridPosition>)
    requires
        Snake::initial_model(pos).never_hits_itself(foods),
    ensures
        Snake::initial_model(pos).run(foods).body.len()
            == 1 + Snake::initial_model(pos).food_eaten(foods),
{
    lemma_growth_invariant(Snake::initial_model(pos), foods);
}

/// Law (no illegal reversal): when no direction change is pending (the
/// staged direction equals the one last applied), a request for the inverse
/// of the last applied direction is discarded outright — the staged
/// direction is untouched and nothing is buffered — whatever the previously
/// buffered request was. In particular, a snake whose last applied direction
/// is `Right` discards an input of `Left`.
pub proof fn lemma_no_illegal_reversal(m: SnakeModel, d: Direction)
    requires
        m.dir == m.last_update_dir,
        d == m.last_update_dir.inverse_spec(),
    ensures
        m.steer(d) == m,
{
    assert(d.inverse_spec() == m.last_update_dir);
}

/// Law (self-collision precedence): when the freshly moved head lands at
/// once on a cell of the body (the vacated head cell included) and on the
/// food, the tick's outcome is `Itself`, never `Food`.
pub proof fn lemma_self_collision_precedence(m: SnakeModel, food: GridPosition)
    requires
        (seq![m.head] + m.body).contains(
            GridPosition::moved_spec(m.head, m.effective_dir())),
        GridPosition::moved_spec(m.head, m.effective_dir()) == food,
    ensures
        m.step(food).ate == Some(Ate::Itself),
{
}

} // verus!
