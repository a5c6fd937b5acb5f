//! Facts about whole ticks, stated over the model of a game.
use vstd::prelude::*;
use crate::game::{eats, ticked, valid, GameView};
use crate::grid::{in_bounds, reverse, Cell, Direction, WIDTH};
use crate::snake::{hits_itself, moved};

verus! {

/// While the game runs, a tick keeps the length of the body, or adds one cell
/// when the snake eats.
pub proof fn lemma_tick_length(v: GameView, c: Cell)
    requires
        valid(v),
        !v.game_over,
    ensures
        ticked(v, c).body.len() == v.body.len() + if eats(v) { 1int } else { 0int },
{
}

/// A snake of three or more cells that turns back on the heading it just
/// moved in ends the run by running into itself: either the first tick already
/// ends it, or the reversed move lands the head on the body.
pub proof fn lemma_reversal_collides(v: GameView, c1: Cell, c2: Cell)
    requires
        valid(v),
        !v.game_over,
        v.body.len() >= 3,
    ensures
        ({
            let w = ticked(v, c1);
            let u = GameView { dir: reverse(v.dir), ..w };
            w.game_over || (hits_itself(moved(u.body, u.dir)) && ticked(u, c2).game_over)
        }),
{
    let w = ticked(v, c1);
    let u = GameView { dir: reverse(v.dir), ..w };
    if !w.game_over {
        let m = moved(u.body, u.dir);
        assert(w.body[1] == v.body[0]);
        assert(m[0] == v.body[0]);
        assert(m[2] == v.body[0]);
        assert(hits_itself(m));
    }
}

/// Food stays where it is across a tick unless that tick eats it, which
/// happens only where the moved head lands on it.
pub proof fn lemma_food_stays(v: GameView, c: Cell, f: Cell)
    requires
        valid(v),
        v.food == Some(f),
    ensures
        !eats(v) ==> ticked(v, c).food == Some(f),
        eats(v) ==> moved(v.body, v.dir)[0] == f,
{
}

/// A tick never leaves a running game without food: food that is eaten is
/// replaced by the cell drawn within the same tick.
pub proof fn lemma_food_respawned(v: GameView, c: Cell)
    requires
        valid(v),
    ensures
        !ticked(v, c).game_over ==> ticked(v, c).food is Some,
        eats(v) ==> ticked(v, c).food == Some(c),
{
}

/// A snake whose head is in the last column and that heads right ends the
/// run on the next tick; the body is the moved one, off-grid head included,
/// and nothing else changes.
pub proof fn lemma_right_wall_ends_run(v: GameView, c: Cell)
    requires
        valid(v),
        !v.game_over,
        v.body[0].x == WIDTH - 1,
        v.dir == Direction::Right,
    ensures
        ticked(v, c) == (GameView { body: moved(v.body, v.dir), game_over: true, ..v }),
        !in_bounds(ticked(v, c).body[0]),
{
}

/// Once the run has ended, ticks change nothing.
pub proof fn lemma_game_over_is_final(v: GameView, c: Cell)
    requires
        v.game_over,
    ensures
        ticked(v, c) == v,
{
}

} // verus!
