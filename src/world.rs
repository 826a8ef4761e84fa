//! Plain models of what the agent reads from the world: directions, tile
//! contents, time of day, weather, coordinates and the backpack.
use vstd::prelude::*;

verus! {

/// One of the four cardinal directions.
#[derive(Clone, Copy, Debug, PartialEq, Eq, Structural)]
pub enum Direction {
    Up,
    Down,
    Left,
    Right,
}

/// The kind of content a tile or a backpack slot holds.
#[derive(Clone, Copy, Debug, PartialEq, Eq, Structural)]
pub enum Content {
    Rock,
    Tree,
    Fish,
    Coin,
    Market,
    Bank,
    Building,
    Tent,
    Other,
    Empty,
}

/// The phases of the day cycle.
#[derive(Clone, Copy, Debug, PartialEq, Eq, Structural)]
pub enum DayTime {
    Morning,
    Afternoon,
    Night,
}

/// The weather conditions of the world.
#[derive(Clone, Copy, Debug, PartialEq, Eq, Structural)]
pub enum Weather {
    Sunny,
    Rainy,
    Foggy,
    TrentinoSnow,
    TropicalMonsoon,
}

/// A map coordinate as (row, column).
pub type Coord = (usize, usize);

pub open spec fn is_storm(w: Weather) -> bool {
    w == Weather::TrentinoSnow || w == Weather::TropicalMonsoon
}

/// Whether the weather is hazardous (snow or monsoon).
pub fn weather_is_storm(w: Weather) -> (r: bool)
    ensures
        r == is_storm(w),
{
    match w {
        Weather::TrentinoSnow | Weather::TropicalMonsoon => true,
        _ => false,
    }
}

/// Swaps the two components of a coordinate: the resource index reports
/// (column, row) while the rest of the world uses (row, column).
pub fn swap_coordinates(c: Coord) -> (r: Coord)
    ensures
        r == (c.1, c.0),
{
    (c.1, c.0)
}

/// The neighbouring tile of `pos` in direction `d` on a square map of side
/// `dim`, if it lies inside the map.
pub open spec fn ahead(pos: Coord, dim: usize, d: Direction) -> Option<Coord> {
    let (row, col) = pos;
    match d {
        Direction::Up => if row > 0 { Some(((row - 1) as usize, col)) } else { None },
        Direction::Down => if row + 1 < dim { Some(((row + 1) as usize, col)) } else { None },
        Direction::Left => if col > 0 { Some((row, (col - 1) as usize)) } else { None },
        Direction::Right => if col + 1 < dim { Some((row, (col + 1) as usize)) } else { None },
    }
}

/// Returns the coordinate of the tile next to `pos` in direction `d`.
pub fn look_ahead(pos: Coord, dim: usize, d: Direction) -> (r: Option<Coord>)
    ensures
        r == ahead(pos, dim, d),
{
    let (row, col) = pos;
    match d {
        Direction::Up => if row > 0 { Some((row - 1, col)) } else { None },
        Direction::Down => if row < dim && row + 1 < dim { Some((row + 1, col)) } else { None },
        Direction::Left => if col > 0 { Some((row, col - 1)) } else { None },
        Direction::Right => if col < dim && col + 1 < dim { Some((row, col + 1)) } else { None },
    }
}

/// How many items of each kind the agent carries, and how many it can carry.
#[derive(Clone, Copy, Debug, PartialEq, Eq, Structural)]
pub struct Backpack {
    pub size: usize,
    pub rock: usize,
    pub tree: usize,
    pub fish: usize,
    pub coin: usize,
    pub tent: usize,
    pub other: usize,
}

impl Backpack {
    pub open spec fn total_spec(&self) -> int {
        self.rock + self.tree + self.fish + self.coin + self.tent + self.other
    }

    /// The backpack never holds more than it can carry.
    pub open spec fn wf(&self) -> bool {
        self.total_spec() <= self.size
    }

    pub open spec fn count_spec(&self, c: Content) -> usize {
        match c {
            Content::Rock => self.rock,
            Content::Tree => self.tree,
            Content::Fish => self.fish,
            Content::Coin => self.coin,
            Content::Tent => self.tent,
            Content::Other => self.other,
            _ => 0,
        }
    }

    /// An empty backpack of the given capacity.
    pub fn new(size: usize) -> (r: Backpack)
        ensures
            r.wf(),
            r.size == size,
            r.total_spec() == 0,
    {
        Backpack { size, rock: 0, tree: 0, fish: 0, coin: 0, tent: 0, other: 0 }
    }

    /// How many items of kind `c` the backpack holds.
    pub fn count(&self, c: Content) -> (r: usize)
        ensures
            r == self.count_spec(c),
    {
        match c {
            Content::Rock => self.rock,
            Content::Tree => self.tree,
            Content::Fish => self.fish,
            Content::Coin => self.coin,
            Content::Tent => self.tent,
            Content::Other => self.other,
            _ => 0,
        }
    }

    /// The number of items held, over all kinds.
    pub fn total(&self) -> (r: usize)
        requires
            self.wf(),
        ensures
            r == self.total_spec(),
    {
        self.rock + self.tree + self.fish + self.coin + self.tent + self.other
    }
}

} // verus!
