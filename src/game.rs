//! The simulation: a snake, an optional food cell and a game-over flag,
//! advanced one tick at a time.
use rand::Rng;
use vstd::prelude::*;
use crate::grid::{in_bounds, Cell, Direction, HEIGHT, WIDTH};
use crate::snake::{grown, hits_itself, moved, Snake};

verus! {

/// What a game holds, as plain values.
pub struct GameView {
    pub body: Seq<Cell>,
    pub dir: Direction,
    pub food: Option<Cell>,
    pub game_over: bool,
}

/// The state in which a game starts: one cell at the grid centre, heading right, no food.
pub open spec fn initial() -> GameView {
    GameView {
        body: seq![Cell { x: (WIDTH / 2) as i32, y: (HEIGHT / 2) as i32 }],
        dir: Direction::Right,
        food: None,
        game_over: false,
    }
}

/// The move of a tick ends the run: the new head leaves the grid or lands on the body.
pub open spec fn crashes(v: GameView) -> bool {
    let body = moved(v.body, v.dir);
    !in_bounds(body[0]) || hits_itself(body)
}

/// The move of a tick reaches the food.
pub open spec fn eats(v: GameView) -> bool {
    !v.game_over && !crashes(v) && v.food == Some(moved(v.body, v.dir)[0])
}

/// A tick up to, and not including, the placing of new food.
pub open spec fn advanced(v: GameView) -> GameView {
    if v.game_over {
        v
    } else if crashes(v) {
        GameView { body: moved(v.body, v.dir), game_over: true, ..v }
    } else if eats(v) {
        GameView { body: grown(moved(v.body, v.dir)), food: None, ..v }
    } else {
        GameView { body: moved(v.body, v.dir), ..v }
    }
}

/// A running game without food gets food at `c`; any other state stays as it is.
pub open spec fn respawned(v: GameView, c: Cell) -> GameView {
    if !v.game_over && v.food is None {
        GameView { food: Some(c), ..v }
    } else {
        v
    }
}

/// A whole tick, with `c` as the cell drawn for food should food be needed.
pub open spec fn ticked(v: GameView, c: Cell) -> GameView {
    respawned(advanced(v), c)
}

/// A run of the game.
pub struct Game {
    pub snake: Snake,
    /// The food cell, if one is placed.
    pub food: Option<Cell>,
    /// Set once the run has ended; never cleared.
    pub game_over: bool,
}

impl View for Game {
    type V = GameView;

    open spec fn view(&self) -> GameView {
        GameView {
            body: self.snake.body@,
            dir: self.snake.dir,
            food: self.food,
            game_over: self.game_over,
        }
    }
}

/// The state is one that a game can be in: the body is not empty, the head of
/// a running game and the food lie on the grid.
pub open spec fn valid(v: GameView) -> bool {
    &&& v.body.len() >= 1
    &&& !v.game_over ==> in_bounds(v.body[0])
    &&& v.food matches Some(f) ==> in_bounds(f)
}

/// Relies on rand's `Rng::gen_range` over the thread-local generator: a value
/// of the half-open range `0..bound`, which must not be empty.
#[verifier::external_body]
fn random_below(bound: i32) -> (r: i32)
    requires
        bound > 0,
    ensures
        0 <= r < bound,
{
    rand::thread_rng().gen_range(0..bound)
}

/// A cell drawn at random from the grid.
fn random_cell() -> (r: Cell)
    ensures
        in_bounds(r),
{
    let x = random_below(WIDTH);
    let y = random_below(HEIGHT);
    Cell { x, y }
}

impl Game {
    /// The game is in a state that ticks accept; see [`valid`].
    pub open spec fn wf(&self) -> bool {
        valid(self@)
    }

    /// A fresh game.
    pub fn new() -> (r: Game)
        ensures
            r@ == initial(),
            r.wf(),
    {
        Game {
            snake: Snake::new(Cell { x: WIDTH / 2, y: HEIGHT / 2 }, Direction::Right),
            food: None,
            game_over: false,
        }
    }

    /// The run has ended.
    pub fn is_game_over(&self) -> (r: bool)
        ensures
            r == self.game_over,
    {
        self.game_over
    }

    /// Sets the heading that the next tick moves in; nothing else changes.
    pub fn set_direction(&mut self, d: Direction)
        requires
            old(self).wf(),
        ensures
            final(self)@ == (GameView { dir: d, ..old(self)@ }),
            final(self).wf(),
    {
        self.snake.dir = d;
    }

    /// Places food at `c`, replacing any food there was.
    pub fn set_food(&mut self, c: Cell)
        requires
            old(self).wf(),
            in_bounds(c),
        ensures
            final(self)@ == (GameView { food: Some(c), ..old(self)@ }),
            final(self).wf(),
    {
        self.food = Some(c);
    }

    /// Moves the snake, ends the run on a crash, and eats and grows on food.
    /// Returns whether the game now runs without food.
    pub fn advance(&mut self) -> (needs_food: bool)
        requires
            old(self).wf(),
        ensures
            final(self)@ == advanced(old(self)@),
            final(self).wf(),
            needs_food == (!final(self).game_over && final(self).food is None),
    {
        if self.game_over {
            return false;
        }
        self.snake.move_forward();
        let head = self.snake.head();
        if !head.is_in_bounds() {
            self.game_over = true;
            return false;
        }
        if self.snake.bites_itself() {
            self.game_over = true;
            return false;
        }
        match self.food {
            Some(f) => {
                if head == f {
                    self.snake.grow();
                    self.food = None;
                }
            },
            None => {},
        }
        self.food.is_none()
    }

    /// Places food at `c` if the game runs without food; otherwise does nothing.
    pub fn respawn_food(&mut self, c: Cell)
        requires
            old(self).wf(),
            in_bounds(c),
        ensures
            final(self)@ == respawned(old(self)@, c),
            final(self).wf(),
    {
        if !self.game_over && self.food.is_none() {
            self.food = Some(c);
        }
    }

    /// One tick, taking `spawn` as the new food cell if food is needed.
    pub fn update_with(&mut self, spawn: Cell)
        requires
            old(self).wf(),
            in_bounds(spawn),
        ensures
            final(self)@ == ticked(old(self)@, spawn),
            final(self).wf(),
    {
        self.advance();
        self.respawn_food(spawn);
    }

    /// One tick; new food, when needed, is drawn uniformly from the grid.
    pub fn update(&mut self)
        requires
            old(self).wf(),
        ensures
            exists|c: Cell| in_bounds(c) && final(self)@ == ticked(old(self)@, c),
            final(self).wf(),
            !final(self).game_over ==> final(self).food is Some,
    {
        if self.advance() {
            let c = random_cell();
            self.respawn_food(c);
            assert(in_bounds(c) && self@ == ticked(old(self)@, c));
        } else {
            assert(in_bounds(Cell { x: 0, y: 0 }) && self@ == ticked(old(self)@, Cell { x: 0, y: 0 }));
        }
    }
}

} // verus!
