//! Local scanner: finds the first tile of the agent's 3x3 view that matches
//! a predicate and tells which way the agent faces it, stepping once first
//! when the tile is not next to it along an axis.
use vstd::prelude::*;
use crate::world::Direction;

verus! {

/// Which single steps from the agent's tile would succeed.
#[derive(Clone, Copy, Debug, PartialEq, Eq, Structural)]
pub struct Moves {
    pub up: bool,
    pub down: bool,
    pub left: bool,
    pub right: bool,
}

impl Moves {
    pub open spec fn allows(self, d: Direction) -> bool {
        match d {
            Direction::Up => self.up,
            Direction::Down => self.down,
            Direction::Left => self.left,
            Direction::Right => self.right,
        }
    }
}

/// The outcome of a scan: an optional step to take first, then the
/// direction in which the target lies.
#[derive(Clone, Copy, Debug, PartialEq, Eq, Structural)]
pub struct Facing {
    pub step: Option<Direction>,
    pub toward: Direction,
}

pub open spec fn faced(step: Option<Direction>, toward: Direction) -> Option<Facing> {
    Some(Facing { step, toward })
}

/// The first of the candidate (step, toward) pairs whose step is allowed.
pub open spec fn first_allowed(m: Moves, c: Seq<(Direction, Direction)>) -> Option<Facing>
    decreases c.len(),
{
    if c.len() == 0 {
        None
    } else if m.allows(c[0].0) {
        faced(Some(c[0].0), c[0].1)
    } else {
        first_allowed(m, c.drop_first())
    }
}

/// The steps that turn a diagonal or central cell of the view into a
/// neighbour along an axis, in order of preference, each with the direction
/// in which the cell then lies.
pub open spec fn reorientations(i: int, j: int) -> Seq<(Direction, Direction)> {
    if i == 0 && j == 0 {
        seq![(Direction::Left, Direction::Up), (Direction::Up, Direction::Left)]
    } else if i == 0 && j == 2 {
        seq![(Direction::Right, Direction::Up), (Direction::Up, Direction::Right)]
    } else if i == 1 && j == 1 {
        seq![
            (Direction::Down, Direction::Up),
            (Direction::Up, Direction::Down),
            (Direction::Left, Direction::Right),
            (Direction::Right, Direction::Left),
        ]
    } else if i == 2 && j == 0 {
        seq![(Direction::Left, Direction::Down), (Direction::Down, Direction::Left)]
    } else if i == 2 && j == 2 {
        seq![(Direction::Right, Direction::Down), (Direction::Down, Direction::Right)]
    } else {
        seq![]
    }
}

/// How the agent comes to face a matching cell at row `i`, column `j` of
/// its view, if it can.
pub open spec fn cell_facing(i: int, j: int, move_allowed: bool, m: Moves) -> Option<Facing> {
    if i == 0 && j == 1 {
        faced(None, Direction::Up)
    } else if i == 1 && j == 0 {
        faced(None, Direction::Left)
    } else if i == 1 && j == 2 {
        faced(None, Direction::Right)
    } else if i == 2 && j == 1 {
        faced(None, Direction::Down)
    } else if move_allowed {
        first_allowed(m, reorientations(i, j))
    } else {
        None
    }
}

/// Scanning row `i` of the view from column `j` on.
pub open spec fn scan_row(row: Seq<bool>, i: int, j: int, move_allowed: bool, m: Moves) -> Option<Facing>
    decreases row.len() - j,
{
    if j < 0 || j >= row.len() {
        None
    } else if row[j] && cell_facing(i, j, move_allowed, m) is Some {
        cell_facing(i, j, move_allowed, m)
    } else {
        scan_row(row, i, j + 1, move_allowed, m)
    }
}

/// Scanning the view row by row from row `i` on.
pub open spec fn scan_view(w: Seq<Seq<bool>>, i: int, move_allowed: bool, m: Moves) -> Option<Facing>
    decreases w.len() - i,
{
    if i < 0 || i >= w.len() {
        None
    } else if scan_row(w[i], i, 0, move_allowed, m) is Some {
        scan_row(w[i], i, 0, move_allowed, m)
    } else {
        scan_view(w, i + 1, move_allowed, m)
    }
}

pub open spec fn view_of(w: &Vec<Vec<bool>>) -> Seq<Seq<bool>> {
    Seq::new(w@.len(), |i: int| w@[i]@)
}

fn pick(m: Moves, a: (Direction, Direction), b: (Direction, Direction)) -> (r: Option<Facing>)
    ensures
        r == first_allowed(m, seq![a, b]),
{
    proof {
        reveal_with_fuel(first_allowed, 3);
        assert(seq![a, b].drop_first() =~= seq![b]);
        assert(seq![b].drop_first() =~= Seq::<(Direction, Direction)>::empty());
    }
    if allows(m, a.0) {
        Some(Facing { step: Some(a.0), toward: a.1 })
    } else if allows(m, b.0) {
        Some(Facing { step: Some(b.0), toward: b.1 })
    } else {
        None
    }
}

fn allows(m: Moves, d: Direction) -> (r: bool)
    ensures
        r == m.allows(d),
{
    match d {
        Direction::Up => m.up,
        Direction::Down => m.down,
        Direction::Left => m.left,
        Direction::Right => m.right,
    }
}

/// How the agent faces a matching cell at (`i`, `j`) of its view.
pub fn face_cell(i: usize, j: usize, move_allowed: bool, m: Moves) -> (r: Option<Facing>)
    ensures
        r == cell_facing(i as int, j as int, move_allowed, m),
{
    if i == 0 && j == 1 {
        Some(Facing { step: None, toward: Direction::Up })
    } else if i == 1 && j == 0 {
        Some(Facing { step: None, toward: Direction::Left })
    } else if i == 1 && j == 2 {
        Some(Facing { step: None, toward: Direction::Right })
    } else if i == 2 && j == 1 {
        Some(Facing { step: None, toward: Direction::Down })
    } else if !move_allowed {
        None
    } else if i == 0 && j == 0 {
        pick(m, (Direction::Left, Direction::Up), (Direction::Up, Direction::Left))
    } else if i == 0 && j == 2 {
        pick(m, (Direction::Right, Direction::Up), (Direction::Up, Direction::Right))
    } else if i == 2 && j == 0 {
        pick(m, (Direction::Left, Direction::Down), (Direction::Down, Direction::Left))
    } else if i == 2 && j == 2 {
        pick(m, (Direction::Right, Direction::Down), (Direction::Down, Direction::Right))
    } else if i == 1 && j == 1 {
        let ghost c = reorientations(1, 1);
        proof {
            reveal_with_fuel(first_allowed, 5);
            assert(c.drop_first() =~= seq![c[1], c[2], c[3]]);
            assert(c.drop_first().drop_first() =~= seq![c[2], c[3]]);
            assert(c.drop_first().drop_first().drop_first() =~= seq![c[3]]);
            assert(c.drop_first().drop_first().drop_first().drop_first() =~= Seq::<(Direction, Direction)>::empty());
        }
        if m.down {
            Some(Facing { step: Some(Direction::Down), toward: Direction::Up })
        } else if m.up {
            Some(Facing { step: Some(Direction::Up), toward: Direction::Down })
        } else if m.left {
            Some(Facing { step: Some(Direction::Left), toward: Direction::Right })
        } else if m.right {
            Some(Facing { step: Some(Direction::Right), toward: Direction::Left })
        } else {
            None
        }
    } else {
        proof {
            assert(reorientations(i as int, j as int).len() == 0);
        }
        None
    }
}

/// Scans the view `matches` (which cells hold what is looked for) row by
/// row and returns how the agent comes to face the first matching cell that
/// it can face; a step is only proposed when `move_allowed`.
pub fn face_target(matches: &Vec<Vec<bool>>, move_allowed: bool, m: Moves) -> (r: Option<Facing>)
    ensures
        r == scan_view(view_of(matches), 0, move_allowed, m),
{
    let ghost w = view_of(matches);
    let mut i: usize = 0;
    while i < matches.len()
        invariant
            w == view_of(matches),
            i <= matches@.len(),
            scan_view(w, 0, move_allowed, m) == scan_view(w, i as int, move_allowed, m),
        decreases matches@.len() - i,
    {
        let row = &matches[i];
        assert(row@ == w[i as int]);
        let mut j: usize = 0;
        while j < row.len()
            invariant
                w == view_of(matches),
                i < matches@.len(),
                row@ == w[i as int],
                j <= row@.len(),
                scan_view(w, 0, move_allowed, m) == scan_view(w, i as int, move_allowed, m),
                scan_row(row@, i as int, 0, move_allowed, m) == scan_row(row@, i as int, j as int, move_allowed, m),
            decreases row@.len() - j,
        {
            if row[j] {
                let f = face_cell(i, j, move_allowed, m);
                if f.is_some() {
                    return f;
                }
            }
            j = j + 1;
        }
        i = i + 1;
    }
    None
}

} // verus!
