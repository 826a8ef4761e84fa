//! Destination walker support: the bounded history of recent positions used
//! to detect oscillation and to backtrack, the blind axis-by-axis walk used
//! when path finding fails, and the decisions of bridge building.
use vstd::prelude::*;
use crate::world::{Coord, Direction};

verus! {

/// How many recent positions are remembered.
pub const RECENT_CAPACITY: usize = 9;

/// The last positions the agent occupied, oldest first.
pub struct RecentPositions {
    coords: Vec<Coord>,
}

/// Whether `c` occurs in `v`.
pub fn contains_coord(v: &Vec<Coord>, c: Coord) -> (r: bool)
    ensures
        r == v@.contains(c),
{
    let mut i: usize = 0;
    while i < v.len()
        invariant
            i <= v@.len(),
            forall|k: int| 0 <= k < i ==> v@[k] != c,
        decreases v@.len() - i,
    {
        let x = v[i];
        if x.0 == c.0 && x.1 == c.1 {
            assert(v@[i as int] == c);
            return true;
        }
        i = i + 1;
    }
    false
}

/// The history after recording a move to `c`: the oldest entry leaves when
/// the history is full.
pub open spec fn recorded(s: Seq<Coord>, c: Coord) -> Seq<Coord> {
    if s.len() >= RECENT_CAPACITY {
        s.drop_first().push(c)
    } else {
        s.push(c)
    }
}

/// The history after a blind walk ending at `c`: the last two entries are
/// forgotten, so that the agent may retrace its steps once, and `c` is added.
pub open spec fn after_blind(s: Seq<Coord>, c: Coord) -> Seq<Coord> {
    let n = s.len();
    let kept = if n >= 2 { s.take(n - 2) } else { Seq::empty() };
    kept.push(c)
}

impl RecentPositions {
    pub closed spec fn view(&self) -> Seq<Coord> {
        self.coords@
    }

    /// Never more positions than the capacity.
    pub closed spec fn wf(&self) -> bool {
        self.coords@.len() <= RECENT_CAPACITY
    }

    /// An empty history.
    pub fn new() -> (r: RecentPositions)
        ensures
            r.wf(),
            r.view() == Seq::<Coord>::empty(),
    {
        RecentPositions { coords: Vec::new() }
    }

    pub fn len(&self) -> (r: usize)
        ensures
            r == self.view().len(),
    {
        self.coords.len()
    }

    /// Whether `c` was visited recently.
    pub fn contains(&self, c: Coord) -> (r: bool)
        ensures
            r == self.view().contains(c),
    {
        contains_coord(&self.coords, c)
    }

    /// Records a move to `c`, evicting the oldest position when full.
    pub fn record(&mut self, c: Coord)
        requires
            old(self).wf(),
        ensures
            final(self).wf(),
            final(self).view() == recorded(old(self).view(), c),
    {
        if self.coords.len() >= RECENT_CAPACITY {
            self.coords.remove(0);
        }
        self.coords.push(c);
    }

    /// Forgets the whole history but the current position `current`, and
    /// returns the oldest recorded position to go back to, if any.
    pub fn backtrack(&mut self, current: Coord) -> (r: Option<Coord>)
        requires
            old(self).wf(),
        ensures
            final(self).wf(),
            old(self).view().len() == 0 ==> r is None && final(self).view() == old(self).view(),
            old(self).view().len() > 0 ==> r == Some(old(self).view()[0]) && final(self).view() == seq![current],
    {
        if self.coords.len() == 0 {
            None
        } else {
            let oldest = self.coords[0];
            self.coords.clear();
            self.coords.push(current);
            assert(self.coords@ =~= seq![current]);
            Some(oldest)
        }
    }

    /// Updates the history after a blind walk that ended at `current`.
    pub fn after_blind_walk(&mut self, current: Coord)
        requires
            old(self).wf(),
        ensures
            final(self).wf(),
            final(self).view() == after_blind(old(self).view(), current),
    {
        self.coords.pop();
        self.coords.pop();
        self.coords.push(current);
        proof {
            let s = old(self).view();
            if s.len() >= 2 {
                assert(self.coords@ =~= s.take(s.len() - 2).push(current));
            } else {
                assert(self.coords@ =~= Seq::<Coord>::empty().push(current));
            }
        }
    }
}

/// No operation on the history ever lets it grow past its capacity.
pub proof fn lemma_history_bounded(s: Seq<Coord>, c: Coord)
    requires
        s.len() <= RECENT_CAPACITY,
    ensures
        recorded(s, c).len() <= RECENT_CAPACITY,
        after_blind(s, c).len() <= RECENT_CAPACITY,
        seq![c].len() <= RECENT_CAPACITY,
{
}

/// The step along one axis that brings `from` closer to `to`: towards
/// larger values with `more`, smaller ones with `less`.
pub open spec fn axis_step(from: usize, to: usize, more: Direction, less: Direction) -> Option<Direction> {
    if from < to {
        Some(more)
    } else if from > to {
        Some(less)
    } else {
        None
    }
}

/// A blind walk towards a destination, one row step then one column step at
/// a time, giving up an axis once a step along it failed.
pub struct BlindWalk {
    pub dest: Coord,
    pub steps_left: u8,
    pub stuck_row: bool,
    pub stuck_col: bool,
}

impl BlindWalk {
    /// Starts a walk towards `dest` of one to four rounds, as the draw
    /// `roll` says.
    pub fn new(dest: Coord, roll: u8) -> (r: BlindWalk)
        ensures
            r.dest == dest,
            r.steps_left == roll % 4 + 1,
            !r.stuck_row,
            !r.stuck_col,
    {
        BlindWalk { dest, steps_left: roll % 4 + 1, stuck_row: false, stuck_col: false }
    }

    /// The row step to try from `pos`, unless the row axis is stuck.
    pub fn row_step(&self, pos: Coord) -> (r: Option<Direction>)
        ensures
            self.stuck_row ==> r is None,
            !self.stuck_row ==> r == axis_step(pos.0, self.dest.0, Direction::Down, Direction::Up),
    {
        if self.stuck_row {
            None
        } else if pos.0 < self.dest.0 {
            Some(Direction::Down)
        } else if pos.0 > self.dest.0 {
            Some(Direction::Up)
        } else {
            None
        }
    }

    /// The column step to try from `pos`, unless the column axis is stuck.
    pub fn col_step(&self, pos: Coord) -> (r: Option<Direction>)
        ensures
            self.stuck_col ==> r is None,
            !self.stuck_col ==> r == axis_step(pos.1, self.dest.1, Direction::Right, Direction::Left),
    {
        if self.stuck_col {
            None
        } else if pos.1 < self.dest.1 {
            Some(Direction::Right)
        } else if pos.1 > self.dest.1 {
            Some(Direction::Left)
        } else {
            None
        }
    }

    /// Records whether the row step succeeded.
    pub fn row_moved(&mut self, ok: bool)
        ensures
            final(self).stuck_row == (old(self).stuck_row || !ok),
            final(self).stuck_col == old(self).stuck_col,
            final(self).dest == old(self).dest,
            final(self).steps_left == old(self).steps_left,
    {
        if !ok {
            self.stuck_row = true;
        }
    }

    /// Records whether the column step succeeded.
    pub fn col_moved(&mut self, ok: bool)
        ensures
            final(self).stuck_col == (old(self).stuck_col || !ok),
            final(self).stuck_row == old(self).stuck_row,
            final(self).dest == old(self).dest,
            final(self).steps_left == old(self).steps_left,
    {
        if !ok {
            self.stuck_col = true;
        }
    }

    /// Ends a round; returns whether another round follows: none once both
    /// axes are stuck or the rounds are used up.
    pub fn end_round(&mut self) -> (more: bool)
        ensures
            final(self).dest == old(self).dest,
            final(self).stuck_row == old(self).stuck_row,
            final(self).stuck_col == old(self).stuck_col,
            old(self).steps_left > 0 ==> final(self).steps_left == old(self).steps_left - 1,
            old(self).steps_left == 0 ==> final(self).steps_left == 0,
            more == (!(old(self).stuck_row && old(self).stuck_col) && final(self).steps_left > 0),
    {
        if self.steps_left > 0 {
            self.steps_left = self.steps_left - 1;
        }
        !(self.stuck_row && self.stuck_col) && self.steps_left > 0
    }
}

/// What came of trying to place `n` rocks to bridge a gap.
#[derive(Clone, Copy, Debug, PartialEq, Eq, Structural)]
pub enum PutOutcome {
    Placed,
    /// The tile holds content that has to go first; the flag tells whether
    /// destroying it succeeded.
    MustDestroyFirst(bool),
    NotEnoughContent,
    NotEnoughEnergy,
    Failed,
}

/// What bridge building does next.
#[derive(Clone, Copy, Debug, PartialEq, Eq, Structural)]
pub enum BridgeStep {
    /// Try again placing this many rocks.
    Retry(usize),
    /// The bridge stands.
    Built,
    /// Give up and decide anew.
    Abandon,
    /// Not enough rocks: go and gather some.
    NeedRocks,
    /// Not enough energy: charge first.
    NeedEnergy,
    /// Placing failed otherwise: drop every plan.
    GiveUp,
}

/// The next move of bridge building after trying with `n` rocks, holding
/// `rocks`.
pub open spec fn bridge_next(n: usize, outcome: PutOutcome, rocks: usize) -> BridgeStep {
    match outcome {
        PutOutcome::Placed => BridgeStep::Built,
        PutOutcome::MustDestroyFirst(destroyed) => if destroyed { BridgeStep::Retry(n) } else { BridgeStep::Abandon },
        PutOutcome::NotEnoughContent => if rocks < n { BridgeStep::NeedRocks } else { BridgeStep::Retry((n + 1) as usize) },
        PutOutcome::NotEnoughEnergy => BridgeStep::NeedEnergy,
        PutOutcome::Failed => BridgeStep::GiveUp,
    }
}

/// Decides the next move of bridge building: as few rocks as will do, one
/// more each time the last try fell short.
pub fn bridge_step(n: usize, outcome: PutOutcome, rocks: usize) -> (r: BridgeStep)
    requires
        n < usize::MAX,
    ensures
        r == bridge_next(n, outcome, rocks),
{
    match outcome {
        PutOutcome::Placed => BridgeStep::Built,
        PutOutcome::MustDestroyFirst(destroyed) => if destroyed { BridgeStep::Retry(n) } else { BridgeStep::Abandon },
        PutOutcome::NotEnoughContent => if rocks < n { BridgeStep::NeedRocks } else { BridgeStep::Retry(n + 1) },
        PutOutcome::NotEnoughEnergy => BridgeStep::NeedEnergy,
        PutOutcome::Failed => BridgeStep::GiveUp,
    }
}

} // verus!
