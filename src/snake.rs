//! The snake: an ordered run of cells, head first, and a heading.
use vstd::prelude::*;
use crate::grid::{step, steppable, Cell, Direction};

verus! {

/// The body after one step in heading `d`: a new head in front, the tail cell dropped.
pub open spec fn moved(body: Seq<Cell>, d: Direction) -> Seq<Cell>
    recommends
        body.len() >= 1,
{
    seq![step(body[0], d)] + body.drop_last()
}

/// The body with its tail cell doubled.
pub open spec fn grown(body: Seq<Cell>) -> Seq<Cell>
    recommends
        body.len() >= 1,
{
    body.push(body.last())
}

/// The head lies on another cell of the body.
pub open spec fn hits_itself(body: Seq<Cell>) -> bool {
    exists|i: int| 1 <= i < body.len() && #[trigger] body[i] == body[0]
}

/// A snake on the grid.
pub struct Snake {
    /// Occupied cells; index 0 is the head, the last index the tail.
    pub body: Vec<Cell>,
    /// Heading applied by the next move.
    pub dir: Direction,
}

impl Snake {
    /// The body is never empty.
    pub open spec fn wf(&self) -> bool {
        self.body@.len() >= 1
    }

    /// A snake of one cell.
    pub fn new(head: Cell, dir: Direction) -> (r: Snake)
        ensures
            r.body@ == seq![head],
            r.dir == dir,
            r.wf(),
    {
        Snake { body: vec![head], dir }
    }

    /// The first cell of the body.
    pub fn head(&self) -> (r: Cell)
        requires
            self.wf(),
        ensures
            r == self.body@[0],
    {
        self.body[0]
    }

    /// Moves one cell in the current heading, keeping the length.
    pub fn move_forward(&mut self)
        requires
            old(self).wf(),
            steppable(old(self).body@[0]),
        ensures
            final(self).body@ == moved(old(self).body@, old(self).dir),
            final(self).dir == old(self).dir,
            final(self).wf(),
    {
        let new_head = self.head().stepped(self.dir);
        self.body.insert(0, new_head);
        self.body.pop();
        assert(self.body@ =~= moved(old(self).body@, old(self).dir));
    }

    /// Doubles the tail cell; the extra cell is dragged along by the next move.
    pub fn grow(&mut self)
        requires
            old(self).wf(),
        ensures
            final(self).body@ == grown(old(self).body@),
            final(self).dir == old(self).dir,
            final(self).wf(),
    {
        let tail = self.body[self.body.len() - 1];
        self.body.push(tail);
    }

    /// The head lies on another cell of the body.
    pub fn bites_itself(&self) -> (r: bool)
        requires
            self.wf(),
        ensures
            r == hits_itself(self.body@),
    {
        let head = self.body[0];
        let mut i: usize = 1;
        while i < self.body.len()
            invariant
                1 <= i <= self.body@.len(),
                head == self.body@[0],
                forall|k: int| 1 <= k < i ==> self.body@[k] != head,
            decreases self.body@.len() - i,
        {
            if self.body[i] == head {
                return true;
            }
            i = i + 1;
        }
        false
    }
}

} // verus!
