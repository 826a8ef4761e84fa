//! The objective state machine. Each tick the host reads the world, hands
//! the readings to the agent, carries out what the agent asked for and hands
//! back what came of it; the agent keeps the current and the queued
//! objective, the destination it asked for, the pinned and the depleted
//! locations and the recent positions.
use vstd::prelude::*;
use crate::objective::Objective;
use crate::valuation::{content_to_sell, gather_choice, get_content_to_sell, content_to_gather};
use crate::walker::{after_blind, bridge_next, bridge_step, recorded, BridgeStep, PutOutcome, RecentPositions, contains_coord};
use crate::world::{is_storm, weather_is_storm, Backpack, Content, Coord, DayTime, Weather};

verus! {

/// Energy below which the agent goes charging.
pub const LOW_ENERGY: usize = 150;

/// The level the agent charges to after running low.
pub const RECOVERY_LEVEL: usize = 250;

/// The level the agent charges to when building a bridge exhausted it.
pub const BRIDGE_LEVEL: usize = 300;

/// The state of the agent's decision core.
pub struct PioneerBot {
    objective: Objective,
    next: Objective,
    destination: Option<Coord>,
    pins: Vec<Coord>,
    bankrupt: Vec<Coord>,
    recent: RecentPositions,
    running: bool,
    gui: bool,
    audio: bool,
}

/// The objectives after the global overrides of a tick: night sends the
/// agent to sleep unless it rests or heads to sleep already; low energy
/// sends it charging, queuing what it did, unless it or its queued
/// objective rests.
pub open spec fn overridden(o: Objective, n: Objective, night: bool, energy: usize) -> (Objective, Objective) {
    if night {
        if o is Sleeping || o is Waiting || n is Sleeping {
            (o, n)
        } else {
            (Objective::Sleeping, n)
        }
    } else if energy < LOW_ENERGY {
        if o.is_resting() || n.is_resting() {
            (o, n)
        } else {
            (Objective::Charging(RECOVERY_LEVEL), o)
        }
    } else {
        (o, n)
    }
}

/// The backpack is at least four fifths full.
pub open spec fn nearly_full(bp: Backpack) -> bool {
    bp.total_spec() >= (bp.size as int * 4) / 5
}

/// The backpack is at most three fifths full.
pub open spec fn running_low(bp: Backpack) -> bool {
    bp.total_spec() <= (bp.size as int * 3) / 5
}

/// Whether the backpack is at least four fifths full.
pub fn is_nearly_full(bp: &Backpack) -> (r: bool)
    requires
        bp.wf(),
    ensures
        r == nearly_full(*bp),
{
    (bp.total() as u128) >= (bp.size as u128) * 4 / 5
}

/// Whether the backpack is at most three fifths full.
pub fn is_running_low(bp: &Backpack) -> (r: bool)
    requires
        bp.wf(),
    ensures
        r == running_low(*bp),
{
    (bp.total() as u128) <= (bp.size as u128) * 3 / 5
}

/// What the planner decided, and so what the host looks up next.
#[derive(Clone, Copy, Debug, PartialEq, Eq, Structural)]
pub enum Plan {
    /// The remote operator's choice was adopted.
    Adopted,
    /// Sleep now.
    Sleep,
    /// Look for shelter from the coming storm: the host looks up the closest
    /// building, market, bank and tree.
    Shelter,
    /// Go and trade: the host looks up where this content (a market or a
    /// bank) is.
    Trade(Content),
    /// Go and gather this content: the host looks up where it is.
    Gather(Content),
    /// Explore.
    Explore,
}

/// Where the agent trades: a bank when its coins outnumber the units of the
/// best sellable resource, a market otherwise.
pub open spec fn trade_target(bp: Backpack) -> Content {
    if bp.coin > bp.count_spec(content_to_sell(bp)) {
        Content::Bank
    } else {
        Content::Market
    }
}

/// The objective queued for a trade.
pub open spec fn trade_objective(bp: Backpack) -> Objective {
    if trade_target(bp) == Content::Bank {
        Objective::Depositing
    } else {
        Objective::Selling(content_to_sell(bp))
    }
}

/// The autonomous planner's decision, in priority order: a storm now, a
/// storm tomorrow, a nearly full backpack, a backpack running low, else
/// exploring. An unknown forecast counts as fair weather.
pub open spec fn plan_of(weather: Weather, forecast: Option<Weather>, bp: Backpack, roll: usize) -> Plan {
    if is_storm(weather) {
        Plan::Sleep
    } else if forecast is Some && is_storm(forecast->0) {
        Plan::Shelter
    } else if nearly_full(bp) {
        Plan::Trade(trade_target(bp))
    } else if running_low(bp) {
        Plan::Gather(gather_choice(bp, roll))
    } else {
        Plan::Explore
    }
}

/// What deciding does to the agent `before`, leaving it as `after` with
/// `plan`: the operator's choice, when it names an objective, is adopted
/// with nothing queued; otherwise the planner's plan sets the objectives it
/// can before the host's lookups. The destination is dropped either way.
pub open spec fn decided(
    before: PioneerBot,
    after: PioneerBot,
    plan: Plan,
    pilot_choice: Option<u8>,
    weather: Weather,
    forecast: Option<Weather>,
    bp: Backpack,
    roll: usize,
) -> bool {
    let chosen = match pilot_choice {
        Some(b) => crate::objective::objective_of_byte(b),
        None => Objective::Idle,
    };
    &&& after.dest() is None
    &&& after.same_records(&before)
    &&& if chosen != Objective::Idle {
        &&& plan == Plan::Adopted
        &&& after.current() == chosen
        &&& after.queued() == Objective::Idle
    } else {
        &&& plan == plan_of(weather, forecast, bp, roll)
        &&& after.current() == match plan {
            Plan::Sleep => Objective::Sleeping,
            Plan::Explore => Objective::Exploring,
            _ => before.current(),
        }
        &&& after.queued() == match plan {
            Plan::Shelter => Objective::Waiting(DayTime::Night),
            Plan::Trade(_) => trade_objective(bp),
            Plan::Gather(c) => Objective::Gathering(c),
            _ => before.queued(),
        }
    }
}

/// Where to go for content: with sunshine forecast the most loaded place;
/// otherwise the closest one, or the most loaded when the closest is
/// depleted. A place known to be depleted is never chosen.
pub open spec fn best_destination(
    forecast: Option<Weather>,
    most_loaded: Option<Coord>,
    closest: Option<Coord>,
    bankrupt: Set<Coord>,
) -> Option<Coord> {
    let loaded = match most_loaded {
        Some(c) => if !bankrupt.contains(c) { Some(c) } else { None },
        None => None,
    };
    if forecast == Some(Weather::Sunny) {
        loaded
    } else {
        match closest {
            Some(c) => if !bankrupt.contains(c) { Some(c) } else { loaded },
            None => None,
        }
    }
}

/// Where to shelter from a storm: a building, a market or a bank (pinned on
/// arrival), else a tree to craft a tent from.
pub open spec fn shelter_of(
    building: Option<Coord>,
    market: Option<Coord>,
    bank: Option<Coord>,
    tree: Option<Coord>,
) -> Option<(Coord, bool)> {
    if building is Some {
        Some((building->0, true))
    } else if market is Some {
        Some((market->0, true))
    } else if bank is Some {
        Some((bank->0, true))
    } else if tree is Some {
        Some((tree->0, false))
    } else {
        None
    }
}

fn forecast_is_sunny(forecast: Option<Weather>) -> (r: bool)
    ensures
        r == (forecast == Some(Weather::Sunny)),
{
    match forecast {
        Some(Weather::Sunny) => true,
        _ => false,
    }
}

fn insert_coord(v: &mut Vec<Coord>, c: Coord)
    ensures
        forall|x: Coord| #[trigger] final(v)@.contains(x) <==> (old(v)@.contains(x) || x == c),
{
    if !contains_coord(v, c) {
        v.push(c);
        proof {
            assert forall|x: Coord| #[trigger] v@.contains(x) <==> (old(v)@.contains(x) || x == c) by {
                if old(v)@.contains(x) {
                    let k = choose|k: int| 0 <= k < old(v)@.len() && old(v)@[k] == x;
                    assert(v@[k] == x);
                }
                if v@.contains(x) && x != c {
                    let k = choose|k: int| 0 <= k < v@.len() && v@[k] == x;
                    assert(k < old(v)@.len());
                    assert(old(v)@[k] == x);
                }
                if x == c {
                    assert(v@[v@.len() - 1] == c);
                }
            }
        }
    }
}

impl PioneerBot {
    /// The objective being pursued.
    pub closed spec fn current(&self) -> Objective {
        self.objective
    }

    /// The objective to resume once the current one is done.
    pub closed spec fn queued(&self) -> Objective {
        self.next
    }

    /// The destination last handed to the path finder.
    pub closed spec fn dest(&self) -> Option<Coord> {
        self.destination
    }

    /// Locations already used to satisfy a new-location goal.
    pub closed spec fn pins(&self) -> Set<Coord> {
        Set::new(|x: Coord| self.pins@.contains(x))
    }

    /// Locations of markets and banks found depleted.
    pub closed spec fn bankrupt(&self) -> Set<Coord> {
        Set::new(|x: Coord| self.bankrupt@.contains(x))
    }

    /// The recent positions, oldest first.
    pub closed spec fn recent(&self) -> Seq<Coord> {
        self.recent.view()
    }

    /// Whether the host should keep ticking.
    pub closed spec fn running(&self) -> bool {
        self.running
    }

    /// Whether the host shows the world.
    pub closed spec fn shows_world(&self) -> bool {
        self.gui
    }

    /// Whether the host plays sounds.
    pub closed spec fn plays_sound(&self) -> bool {
        self.audio
    }

    pub closed spec fn wf(&self) -> bool {
        self.recent.wf()
    }

    /// The records that a change of objective leaves alone.
    pub open spec fn same_records(&self, other: &PioneerBot) -> bool {
        &&& self.pins() == other.pins()
        &&& self.bankrupt() == other.bankrupt()
        &&& self.recent() == other.recent()
        &&& self.running() == other.running()
        &&& self.wf() == other.wf()
    }

    /// A fresh agent, idle, remembering nothing; the flags tell whether the
    /// host shows the world and plays sounds.
    pub fn new(gui_start: bool, audio_start: bool) -> (r: PioneerBot)
        ensures
            r.wf(),
            r.current() == Objective::Idle,
            r.queued() == Objective::Idle,
            r.dest() is None,
            r.pins() == Set::<Coord>::empty(),
            r.bankrupt() == Set::<Coord>::empty(),
            r.recent() == Seq::<Coord>::empty(),
            r.running(),
            r.shows_world() == gui_start,
            r.plays_sound() == audio_start,
    {
        let r = PioneerBot {
            objective: Objective::Idle,
            next: Objective::Idle,
            destination: None,
            pins: Vec::new(),
            bankrupt: Vec::new(),
            recent: RecentPositions::new(),
            running: true,
            gui: gui_start,
            audio: audio_start,
        };
        assert(r.pins() =~= Set::<Coord>::empty());
        assert(r.bankrupt() =~= Set::<Coord>::empty());
        r
    }

    pub fn uses_gui(&self) -> (r: bool)
        ensures
            r == self.shows_world(),
    {
        self.gui
    }

    pub fn uses_audio(&self) -> (r: bool)
        ensures
            r == self.plays_sound(),
    {
        self.audio
    }

    pub fn objective(&self) -> (r: Objective)
        ensures
            r == self.current(),
    {
        self.objective
    }

    pub fn next(&self) -> (r: Objective)
        ensures
            r == self.queued(),
    {
        self.next
    }

    pub fn destination(&self) -> (r: Option<Coord>)
        ensures
            r == self.dest(),
    {
        self.destination
    }

    pub fn is_running(&self) -> (r: bool)
        ensures
            r == self.running(),
    {
        self.running
    }

    /// Whether `c` is pinned.
    pub fn is_pinned(&self, c: Coord) -> (r: bool)
        ensures
            r == self.pins().contains(c),
    {
        contains_coord(&self.pins, c)
    }

    /// Whether `c` is known to be depleted.
    pub fn is_bankrupt(&self, c: Coord) -> (r: bool)
        ensures
            r == self.bankrupt().contains(c),
    {
        contains_coord(&self.bankrupt, c)
    }

    /// Whether the agent stood on `c` recently.
    pub fn was_recently_at(&self, c: Coord) -> (r: bool)
        ensures
            r == self.recent().contains(c),
    {
        self.recent.contains(c)
    }

    /// Replaces the current objective.
    pub fn set_objective(&mut self, o: Objective)
        ensures
            final(self).current() == o,
            final(self).queued() == old(self).queued(),
            final(self).dest() == old(self).dest(),
            final(self).same_records(old(self)),
    {
        self.objective = o;
    }

    /// Replaces the queued objective.
    pub fn set_next(&mut self, o: Objective)
        ensures
            final(self).current() == old(self).current(),
            final(self).queued() == o,
            final(self).dest() == old(self).dest(),
            final(self).same_records(old(self)),
    {
        self.next = o;
    }

    /// Resumes the queued objective, leaving nothing queued.
    pub fn next_objective(&mut self)
        ensures
            final(self).current() == old(self).queued(),
            final(self).queued() == Objective::Idle,
            final(self).dest() == old(self).dest(),
            final(self).same_records(old(self)),
    {
        self.objective = self.next;
        self.next = Objective::Idle;
    }

    /// Asks for a new destination.
    pub fn set_destination(&mut self, c: Coord)
        ensures
            final(self).dest() == Some(c),
            final(self).current() == old(self).current(),
            final(self).queued() == old(self).queued(),
            final(self).same_records(old(self)),
    {
        self.destination = Some(c);
    }

    /// Drops the destination.
    pub fn clear_destination(&mut self)
        ensures
            final(self).dest() is None,
            final(self).current() == old(self).current(),
            final(self).queued() == old(self).queued(),
            final(self).same_records(old(self)),
    {
        self.destination = None;
    }

    /// Applies the global overrides of a tick: night, then low energy.
    pub fn apply_overrides(&mut self, night: bool, energy: usize)
        ensures
            (final(self).current(), final(self).queued()) == overridden(old(self).current(), old(self).queued(), night, energy),
            final(self).dest() == old(self).dest(),
            final(self).same_records(old(self)),
    {
        if night {
            match (self.objective, self.next) {
                (Objective::Sleeping, _) | (Objective::Waiting(_), _) | (_, Objective::Sleeping) => {},
                _ => {
                    self.objective = Objective::Sleeping;
                },
            }
        } else if energy < LOW_ENERGY {
            match (self.objective, self.next) {
                (Objective::Waiting(_), _) | (Objective::Charging(_), _) | (Objective::Sleeping, _)
                | (_, Objective::Waiting(_)) | (_, Objective::Charging(_)) | (_, Objective::Sleeping) => {},
                _ => {
                    self.next = self.objective;
                    self.objective = Objective::Charging(RECOVERY_LEVEL);
                },
            }
        }
    }

    /// Decides what to do next. The remote operator's choice, when one is
    /// given and names an objective, is adopted with nothing queued;
    /// otherwise the planner decides from the weather now and tomorrow and
    /// from the backpack, `roll` breaking ties among resources to gather.
    /// The destination is dropped either way.
    pub fn decide(
        &mut self,
        pilot_choice: Option<u8>,
        weather: Weather,
        forecast: Option<Weather>,
        bp: &Backpack,
        roll: usize,
    ) -> (plan: Plan)
        requires
            bp.wf(),
        ensures
            decided(*old(self), *final(self), plan, pilot_choice, weather, forecast, *bp, roll),
    {
        self.destination = None;
        let chosen = match pilot_choice {
            Some(b) => Objective::from(b),
            None => Objective::Idle,
        };
        if chosen != Objective::Idle {
            self.next = Objective::Idle;
            self.objective = chosen;
            return Plan::Adopted;
        }
        if weather_is_storm(weather) {
            self.objective = Objective::Sleeping;
            Plan::Sleep
        } else if match forecast {
            Some(w) => weather_is_storm(w),
            None => false,
        } {
            self.next = Objective::Waiting(DayTime::Night);
            Plan::Shelter
        } else if is_nearly_full(bp) {
            let sellable = get_content_to_sell(bp);
            if bp.coin > bp.count(sellable) {
                self.next = Objective::Depositing;
                Plan::Trade(Content::Bank)
            } else {
                self.next = Objective::Selling(sellable);
                Plan::Trade(Content::Market)
            }
        } else if is_running_low(bp) {
            let c = content_to_gather(bp, roll);
            self.next = Objective::Gathering(c);
            Plan::Gather(c)
        } else {
            self.objective = Objective::Exploring;
            Plan::Explore
        }
    }

    /// Adopts the remote operator's choice `choice` when it names an
    /// objective, with nothing queued, and returns whether it did; the
    /// destination is dropped either way.
    pub fn adopt_pilot_choice(&mut self, choice: u8) -> (adopted: bool)
        ensures
            adopted == (crate::objective::objective_of_byte(choice) != Objective::Idle),
            final(self).dest() is None,
            final(self).same_records(old(self)),
            adopted ==> final(self).current() == crate::objective::objective_of_byte(choice)
                && final(self).queued() == Objective::Idle,
            !adopted ==> final(self).current() == old(self).current() && final(self).queued() == old(self).queued(),
    {
        self.destination = None;
        let chosen = Objective::from(choice);
        if chosen != Objective::Idle {
            self.next = Objective::Idle;
            self.objective = chosen;
            true
        } else {
            false
        }
    }

    /// As `decide`, drawing the tie-breaking roll at random.
    pub fn decide_at_random(
        &mut self,
        pilot_choice: Option<u8>,
        weather: Weather,
        forecast: Option<Weather>,
        bp: &Backpack,
    ) -> (plan: Plan)
        requires
            bp.wf(),
        ensures
            final(self).dest() is None,
            final(self).same_records(old(self)),
            exists|roll: usize| #[trigger] decided(*old(self), *final(self), plan, pilot_choice, weather, forecast, *bp, roll),
    {
        let roll = rand::random::<usize>();
        self.decide(pilot_choice, weather, forecast, bp, roll)
    }

    /// Heads for shelter from tomorrow's storm, then waits there for the
    /// night; explores when no shelter is known.
    pub fn seek_shelter(
        &mut self,
        building: Option<Coord>,
        market: Option<Coord>,
        bank: Option<Coord>,
        tree: Option<Coord>,
    )
        ensures
            final(self).queued() == Objective::Waiting(DayTime::Night),
            final(self).same_records(old(self)),
            match shelter_of(building, market, bank, tree) {
                Some((c, pin)) => final(self).dest() == Some(c) && final(self).current() == Objective::Moving(pin),
                None => final(self).dest() == old(self).dest() && final(self).current() == Objective::Exploring,
            },
    {
        if let Some(c) = building {
            self.destination = Some(c);
            self.objective = Objective::Moving(true);
        } else if let Some(c) = market {
            self.destination = Some(c);
            self.objective = Objective::Moving(true);
        } else if let Some(c) = bank {
            self.destination = Some(c);
            self.objective = Objective::Moving(true);
        } else if let Some(c) = tree {
            self.destination = Some(c);
            self.objective = Objective::Moving(false);
        } else {
            self.objective = Objective::Exploring;
        }
        self.next = Objective::Waiting(DayTime::Night);
    }

    /// Sets out for the best place holding some content, given where the
    /// most of it and the closest of it are; explores when neither serves.
    pub fn set_best_destination(
        &mut self,
        forecast: Option<Weather>,
        most_loaded: Option<Coord>,
        closest: Option<Coord>,
        discover_new: bool,
    )
        ensures
            final(self).queued() == old(self).queued(),
            final(self).same_records(old(self)),
            match best_destination(forecast, most_loaded, closest, old(self).bankrupt()) {
                Some(c) => final(self).dest() == Some(c) && final(self).current() == Objective::Moving(discover_new),
                None => final(self).dest() == old(self).dest() && final(self).current() == Objective::Exploring,
            },
    {
        let loaded = match most_loaded {
            Some(c) => if !contains_coord(&self.bankrupt, c) { Some(c) } else { None },
            None => None,
        };
        let mut found: Option<Coord> = None;
        if forecast_is_sunny(forecast) {
            found = loaded;
        } else if let Some(c) = closest {
            if !contains_coord(&self.bankrupt, c) {
                found = Some(c);
            } else {
                found = loaded;
            }
        }
        match found {
            Some(c) => {
                self.destination = Some(c);
                self.objective = Objective::Moving(discover_new);
            },
            None => {
                self.objective = Objective::Exploring;
            },
        }
    }
}

/// Why the path finder gave no step.
#[derive(Clone, Copy, Debug, PartialEq, Eq, Structural)]
pub enum MoveError {
    NoDestination,
    NoContent,
    NoTileType,
    InvalidCurrPosition,
    InvalidDestCoordinate,
    NoAvailableMove,
    AlreadyAtDestination,
    NotImplemented,
}

/// What came of trying to bed down for the night.
#[derive(Clone, Copy, Debug)]
pub enum TentAttempt {
    /// No tent was held and none could be crafted.
    CraftFailed,
    /// A free tile was next to the agent; the flag tells whether the tent
    /// was put there.
    Put(bool),
    /// No free tile was next to the agent; a scan of the surroundings found
    /// this place for the tent, if any.
    Scanned(Option<Coord>),
    /// The scan ended without result.
    ScanUnfinished,
}

/// How the night's rest is settled.
#[derive(Clone, Copy, Debug)]
pub enum TentOutcome {
    /// The agent sleeps where it is.
    Settled,
    /// Nothing worked this tick; try again.
    Failed,
    /// Walk to this place to put the tent there.
    Spot(Coord),
}

pub open spec fn tent_result(a: TentAttempt) -> TentOutcome {
    match a {
        TentAttempt::CraftFailed => TentOutcome::Settled,
        TentAttempt::Put(ok) => if ok { TentOutcome::Settled } else { TentOutcome::Failed },
        TentAttempt::Scanned(spot) => match spot {
            Some(c) => TentOutcome::Spot(c),
            None => TentOutcome::Failed,
        },
        TentAttempt::ScanUnfinished => TentOutcome::Settled,
    }
}

/// Settles the night from the attempt to place the tent: without a tent to
/// place, or with a scan that ended without result, the agent sleeps where
/// it is.
pub fn tent_outcome(a: TentAttempt) -> (r: TentOutcome)
    ensures
        r == tent_result(a),
{
    match a {
        TentAttempt::CraftFailed => TentOutcome::Settled,
        TentAttempt::Put(ok) => if ok { TentOutcome::Settled } else { TentOutcome::Failed },
        TentAttempt::Scanned(spot) => match spot {
            Some(c) => TentOutcome::Spot(c),
            None => TentOutcome::Failed,
        },
        TentAttempt::ScanUnfinished => TentOutcome::Settled,
    }
}

/// The first scanned tile that truly suits (a scan may report tiles that
/// do not).
pub open spec fn first_passing(tiles: Seq<(bool, Coord)>) -> Option<Coord>
    decreases tiles.len(),
{
    if tiles.len() == 0 {
        None
    } else if tiles[0].0 {
        Some(tiles[0].1)
    } else {
        first_passing(tiles.drop_first())
    }
}

/// Returns the first tile of `tiles` whose flag says it suits.
pub fn first_suitable(tiles: &Vec<(bool, Coord)>) -> (r: Option<Coord>)
    ensures
        r == first_passing(tiles@),
{
    let mut i: usize = 0;
    assert(tiles@.skip(0) =~= tiles@);
    while i < tiles.len()
        invariant
            i <= tiles@.len(),
            first_passing(tiles@) == first_passing(tiles@.skip(i as int)),
        decreases tiles@.len() - i,
    {
        assert(tiles@.skip(i as int).drop_first() =~= tiles@.skip(i + 1));
        if tiles[i].0 {
            return Some(tiles[i].1);
        }
        i = i + 1;
    }
    assert(tiles@.skip(i as int).len() == 0);
    None
}

/// How many items of `content` a sweep of the surroundings may collect:
/// the space left, unless the content is fish or the backpack is nearly
/// full.
pub open spec fn collect_allowance(bp: Backpack, content: Content) -> Option<int> {
    if content != Content::Fish && !nearly_full(bp) {
        Some(bp.size - bp.total_spec())
    } else {
        None
    }
}

pub fn collect_budget(bp: &Backpack, content: Content) -> (r: Option<usize>)
    requires
        bp.wf(),
    ensures
        r matches Some(n) ==> collect_allowance(*bp, content) == Some(n as int),
        r is None ==> collect_allowance(*bp, content) is None,
{
    if content != Content::Fish && !is_nearly_full(bp) {
        Some(bp.size - bp.total())
    } else {
        None
    }
}

/// Whether to pick up a resource passed by while moving: one time in four,
/// as the draw `roll` says, and only with room in the backpack.
pub fn should_pick_up(roll: usize, bp: &Backpack) -> (r: bool)
    requires
        bp.wf(),
    ensures
        r == (roll % 4 == 0 && bp.total_spec() < bp.size),
{
    roll % 4 == 0 && bp.total() < bp.size
}

/// What a market or a bank visit came to.
#[derive(Clone, Copy, Debug)]
pub enum TradeOutcome {
    /// No usable market or bank next to the agent; the most loaded one known
    /// is given, if any.
    NoneNearby(Option<Coord>),
    /// This many items were taken; then the tile traded with, if inside the
    /// map, and the most loaded place of the kind known.
    Traded(usize, Option<Coord>, Option<Coord>),
    /// The coins earned would not fit in the backpack.
    NoSpace,
    /// Not enough energy to trade.
    NoEnergy,
    /// Trading failed otherwise.
    Failed,
}

/// The coordinate, or the origin when there is none.
pub open spec fn or_origin(a: Option<Coord>) -> Coord {
    match a {
        Some(c) => c,
        None => (0, 0),
    }
}

pub open spec fn inserted(s: Set<Coord>, a: Option<Coord>) -> Set<Coord> {
    match a {
        Some(c) => s.insert(c),
        None => s,
    }
}

/// What the exploration scan stops at.
#[derive(Clone, Copy, Debug, PartialEq, Eq, Structural)]
pub enum ExploreGoal {
    /// Tiles holding this content, needed by the queued gathering.
    Resource(Content),
    /// Banks, markets and buildings not pinned yet.
    Landmarks,
}

pub open spec fn is_landmark(c: Content) -> bool {
    c == Content::Bank || c == Content::Market || c == Content::Building
}

/// What the exploration scan looks for while `queued` is queued.
pub open spec fn goal_of(queued: Objective) -> ExploreGoal {
    match queued {
        Objective::Gathering(c) => ExploreGoal::Resource(c),
        _ => ExploreGoal::Landmarks,
    }
}

/// Whether a find of `kind` at `c` counts as a hit for `goal`.
pub open spec fn is_hit(goal: ExploreGoal, kind: Content, c: Coord, pins: Set<Coord>) -> bool {
    match goal {
        ExploreGoal::Resource(k) => kind == k,
        ExploreGoal::Landmarks => !pins.contains(c) && is_landmark(kind),
    }
}

/// The first find of an exploration scan that counts as a hit: a tile of
/// the resource looked for, or a landmark that is not pinned.
pub open spec fn discovery(found: Seq<(Content, Coord)>, goal: ExploreGoal, pins: Set<Coord>) -> Option<Coord>
    decreases found.len(),
{
    if found.len() == 0 {
        None
    } else if is_hit(goal, found[0].0, found[0].1, pins) {
        Some(found[0].1)
    } else {
        discovery(found.drop_first(), goal, pins)
    }
}

/// Whether some place of `s` is not depleted.
pub open spec fn has_active(s: Seq<Coord>, bankrupt: Set<Coord>) -> bool {
    exists|i: int| 0 <= i < s.len() && !bankrupt.contains(#[trigger] s[i])
}

/// The map is mostly revealed: more than three quarters of it.
pub open spec fn mostly_revealed(revealed: u128, dim: usize) -> bool {
    revealed > (dim * dim * 3) / 4
}

impl PioneerBot {
    fn pin(&mut self, c: Coord)
        ensures
            final(self).pins() == old(self).pins().insert(c),
            final(self).bankrupt() == old(self).bankrupt(),
            final(self).recent() == old(self).recent(),
            final(self).running() == old(self).running(),
            final(self).wf() == old(self).wf(),
            final(self).current() == old(self).current(),
            final(self).queued() == old(self).queued(),
            final(self).dest() == old(self).dest(),
    {
        insert_coord(&mut self.pins, c);
        assert(self.pins() =~= old(self).pins().insert(c));
    }

    fn mark_bankrupt(&mut self, a: Option<Coord>)
        ensures
            final(self).bankrupt() == inserted(old(self).bankrupt(), a),
            final(self).pins() == old(self).pins(),
            final(self).recent() == old(self).recent(),
            final(self).running() == old(self).running(),
            final(self).wf() == old(self).wf(),
            final(self).current() == old(self).current(),
            final(self).queued() == old(self).queued(),
            final(self).dest() == old(self).dest(),
    {
        if let Some(c) = a {
            insert_coord(&mut self.bankrupt, c);
            assert(self.bankrupt() =~= old(self).bankrupt().insert(c));
        }
    }

    /// While waiting for time `t`: once the time has come, resumes the
    /// queued objective. Returns whether the tent has to be taken back
    /// first, which is when none is held.
    pub fn wait_step(&mut self, now: DayTime, tents: usize) -> (retrieve: bool)
        ensures
            final(self).dest() == old(self).dest(),
            final(self).same_records(old(self)),
            old(self).current() == Objective::Waiting(now) ==> {
                &&& final(self).current() == old(self).queued()
                &&& final(self).queued() == Objective::Idle
                &&& retrieve == (tents == 0)
            },
            old(self).current() != Objective::Waiting(now) ==> {
                &&& final(self).current() == old(self).current()
                &&& final(self).queued() == old(self).queued()
                &&& !retrieve
            },
    {
        if self.objective == Objective::Waiting(now) {
            self.next_objective();
            tents == 0
        } else {
            false
        }
    }

    /// While charging: once energy reaches the target level, resumes the
    /// queued objective.
    pub fn charge_step(&mut self, energy: usize)
        ensures
            final(self).dest() == old(self).dest(),
            final(self).same_records(old(self)),
            (old(self).current() matches Objective::Charging(level) && energy >= level) ==> {
                &&& final(self).current() == old(self).queued()
                &&& final(self).queued() == Objective::Idle
            },
            !(old(self).current() matches Objective::Charging(level) && energy >= level) ==> {
                &&& final(self).current() == old(self).current()
                &&& final(self).queued() == old(self).queued()
            },
    {
        if let Objective::Charging(level) = self.objective {
            if energy >= level {
                self.next_objective();
            }
        }
    }

    /// While sleeping: once the night is settled, waits for the other half
    /// of the day cycle and decides anew afterwards; with a place for the
    /// tent found, walks there first.
    pub fn sleep_step(&mut self, outcome: TentOutcome, now: DayTime)
        ensures
            final(self).same_records(old(self)),
            outcome == TentOutcome::Settled ==> {
                &&& final(self).current() == Objective::Waiting(
                    if now == DayTime::Morning { DayTime::Night } else { DayTime::Morning },
                )
                &&& final(self).queued() == Objective::Praying
                &&& final(self).dest() == old(self).dest()
            },
            outcome == TentOutcome::Failed ==> {
                &&& final(self).current() == old(self).current()
                &&& final(self).queued() == old(self).queued()
                &&& final(self).dest() == old(self).dest()
            },
            outcome matches TentOutcome::Spot(c) ==> {
                &&& final(self).current() == Objective::Moving(false)
                &&& final(self).queued() == Objective::Sleeping
                &&& final(self).dest() == Some(c)
            },
    {
        match outcome {
            TentOutcome::Settled => {
                self.next = Objective::Praying;
                self.objective = Objective::Waiting(
                    if now == DayTime::Morning {
                        DayTime::Night
                    } else {
                        DayTime::Morning
                    },
                );
            },
            TentOutcome::Failed => {},
            TentOutcome::Spot(c) => {
                self.destination = Some(c);
                self.next = Objective::Sleeping;
                self.objective = Objective::Moving(false);
            },
        }
    }

    /// After gathering `content` (the backpack now `bp`): with room left
    /// and no storm forecast (or an operator assisting), heads for the
    /// closest place holding more of it, or explores, and gathers again
    /// afterwards; with the backpack nearly full, or a storm coming, goes
    /// selling the most valuable resource. An unknown forecast counts as
    /// fair weather.
    pub fn gather_step(
        &mut self,
        content: Content,
        bp: &Backpack,
        assisted: bool,
        forecast: Option<Weather>,
        closest: Option<Coord>,
    )
        requires
            bp.wf(),
        ensures
            final(self).same_records(old(self)),
            (nearly_full(*bp) || (!assisted && forecast is Some && is_storm(forecast->0))) ==> {
                &&& final(self).current() == Objective::Selling(content_to_sell(*bp))
                &&& final(self).queued() == Objective::Idle
                &&& final(self).dest() == old(self).dest()
            },
            (!nearly_full(*bp) && (assisted || !(forecast is Some && is_storm(forecast->0)))) ==> {
                &&& final(self).queued() == Objective::Gathering(content)
                &&& match closest {
                    Some(c) => final(self).dest() == Some(c) && final(self).current() == Objective::Moving(false),
                    None => final(self).dest() == old(self).dest() && final(self).current() == Objective::Exploring,
                }
            },
    {
        let storm = match forecast {
            Some(w) => weather_is_storm(w),
            None => false,
        };
        if !is_nearly_full(bp) && (assisted || !storm) {
            match closest {
                Some(c) => {
                    self.destination = Some(c);
                    self.objective = Objective::Moving(false);
                },
                None => {
                    self.objective = Objective::Exploring;
                },
            }
            self.next = Objective::Gathering(content);
        } else {
            self.objective = Objective::Selling(get_content_to_sell(bp));
            self.next = Objective::Idle;
        }
    }

    /// After a visit to a market to sell `held` units of `content`.
    pub fn sell_step(&mut self, content: Content, held: usize, outcome: TradeOutcome)
        ensures
            final(self).pins() == old(self).pins(),
            final(self).recent() == old(self).recent(),
            final(self).running() == old(self).running(),
            final(self).wf() == old(self).wf(),
            match outcome {
                TradeOutcome::NoneNearby(l) => {
                    &&& final(self).bankrupt() == old(self).bankrupt()
                    &&& if l is Some && !old(self).bankrupt().contains(l->0) {
                        &&& final(self).dest() == l
                        &&& final(self).current() == Objective::Moving(true)
                        &&& final(self).queued() == Objective::Selling(content)
                    } else {
                        &&& final(self).dest() is None
                        &&& final(self).current() == Objective::Exploring
                        &&& final(self).queued() == old(self).queued()
                    }
                },
                TradeOutcome::Traded(amount, ahead, loaded) => if amount == held {
                    &&& final(self).bankrupt() == old(self).bankrupt()
                    &&& final(self).dest() == old(self).dest()
                    &&& final(self).current() == old(self).queued()
                    &&& final(self).queued() == Objective::Idle
                } else {
                    &&& final(self).bankrupt() == inserted(old(self).bankrupt(), ahead)
                    &&& if loaded is Some && or_origin(ahead) != loaded->0
                        && !inserted(old(self).bankrupt(), ahead).contains(loaded->0) {
                        &&& final(self).dest() == loaded
                        &&& final(self).current() == Objective::Moving(true)
                        &&& final(self).queued() == Objective::Selling(content)
                    } else {
                        &&& final(self).dest() is None
                        &&& final(self).current() == Objective::Exploring
                        &&& final(self).queued() == old(self).queued()
                    }
                },
                TradeOutcome::NoSpace => {
                    &&& final(self).bankrupt() == old(self).bankrupt()
                    &&& final(self).dest() == old(self).dest()
                    &&& final(self).current() == Objective::Depositing
                    &&& final(self).queued() == old(self).queued()
                },
                _ => {
                    &&& final(self).bankrupt() == old(self).bankrupt()
                    &&& final(self).dest() is None
                    &&& final(self).current() == Objective::Exploring
                    &&& final(self).queued() == old(self).queued()
                },
            },
    {
        let mut ok = false;
        match outcome {
            TradeOutcome::NoneNearby(l) => {
                if let Some(c) = l {
                    if !contains_coord(&self.bankrupt, c) {
                        self.destination = Some(c);
                        ok = true;
                        self.next = Objective::Selling(content);
                        self.objective = Objective::Moving(true);
                    }
                }
            },
            TradeOutcome::Traded(amount, ahead, loaded) => {
                if amount == held {
                    ok = true;
                    self.next_objective();
                } else {
                    self.mark_bankrupt(ahead);
                    if let Some(c) = loaded {
                        let here = match ahead {
                            Some(a) => a,
                            None => (0, 0),
                        };
                        if (here.0 != c.0 || here.1 != c.1) && !contains_coord(&self.bankrupt, c) {
                            ok = true;
                            self.destination = Some(c);
                            self.next = Objective::Selling(content);
                            self.objective = Objective::Moving(true);
                        }
                    }
                }
            },
            TradeOutcome::NoSpace => {
                ok = true;
                self.objective = Objective::Depositing;
            },
            _ => {},
        }
        if !ok {
            self.destination = None;
            self.objective = Objective::Exploring;
        }
    }

    /// After a visit to a bank to deposit `held` coins, with `energy` left.
    pub fn deposit_step(&mut self, held: usize, outcome: TradeOutcome, energy: usize)
        requires
            energy <= usize::MAX - 100,
        ensures
            final(self).pins() == old(self).pins(),
            final(self).recent() == old(self).recent(),
            final(self).running() == old(self).running(),
            final(self).wf() == old(self).wf(),
            match outcome {
                TradeOutcome::NoneNearby(l) => {
                    &&& final(self).bankrupt() == old(self).bankrupt()
                    &&& if l is Some && !old(self).bankrupt().contains(l->0) {
                        &&& final(self).dest() == l
                        &&& final(self).current() == Objective::Moving(true)
                        &&& final(self).queued() == Objective::Depositing
                    } else {
                        &&& final(self).dest() is None
                        &&& final(self).current() == Objective::Exploring
                        &&& final(self).queued() == old(self).queued()
                    }
                },
                TradeOutcome::Traded(amount, ahead, loaded) => if amount == held {
                    &&& final(self).bankrupt() == old(self).bankrupt()
                    &&& final(self).dest() == old(self).dest()
                    &&& final(self).current() == old(self).queued()
                    &&& final(self).queued() == Objective::Idle
                } else {
                    &&& final(self).bankrupt() == inserted(old(self).bankrupt(), ahead)
                    &&& if loaded is Some && !inserted(old(self).bankrupt(), ahead).contains(loaded->0) {
                        &&& final(self).dest() == loaded
                        &&& final(self).current() == Objective::Moving(true)
                        &&& final(self).queued() == Objective::Depositing
                    } else {
                        &&& final(self).dest() is None
                        &&& final(self).current() == Objective::Exploring
                        &&& final(self).queued() == old(self).queued()
                    }
                },
                TradeOutcome::NoEnergy => {
                    &&& final(self).bankrupt() == old(self).bankrupt()
                    &&& final(self).dest() == old(self).dest()
                    &&& final(self).current() == Objective::Charging((energy + 100) as usize)
                    &&& final(self).queued() == Objective::Depositing
                },
                _ => {
                    &&& final(self).bankrupt() == old(self).bankrupt()
                    &&& final(self).dest() is None
                    &&& final(self).current() == Objective::Exploring
                    &&& final(self).queued() == old(self).queued()
                },
            },
    {
        let mut ok = false;
        match outcome {
            TradeOutcome::NoneNearby(l) => {
                if let Some(c) = l {
                    if !contains_coord(&self.bankrupt, c) {
                        self.destination = Some(c);
                        ok = true;
                        self.next = Objective::Depositing;
                        self.objective = Objective::Moving(true);
                    }
                }
            },
            TradeOutcome::Traded(amount, ahead, loaded) => {
                if amount == held {
                    ok = true;
                    self.next_objective();
                } else {
                    self.mark_bankrupt(ahead);
                    if let Some(c) = loaded {
                        if !contains_coord(&self.bankrupt, c) {
                            ok = true;
                            self.destination = Some(c);
                            self.next = Objective::Depositing;
                            self.objective = Objective::Moving(true);
                        }
                    }
                }
            },
            TradeOutcome::NoEnergy => {
                ok = true;
                self.next = Objective::Depositing;
                self.objective = Objective::Charging(energy + 100);
            },
            _ => {},
        }
        if !ok {
            self.destination = None;
            self.objective = Objective::Exploring;
        }
    }
}

impl PioneerBot {
    /// The path finder gave no step while moving. Without a destination the
    /// destination is unknown: the objectives stay as they are and the
    /// result asks the host for a destination in the least explored area
    /// (`head_to`). Otherwise the move is over: resumes the queued
    /// objective and, on arrival, pins the position `pos` when the move was
    /// meant to reach a new place.
    pub fn on_path_error(&mut self, e: MoveError, pos: Coord) -> (needs_destination: bool)
        ensures
            needs_destination == (e == MoveError::NoDestination),
            final(self).dest() == old(self).dest(),
            needs_destination ==> {
                &&& final(self).current() == old(self).current()
                &&& final(self).queued() == old(self).queued()
                &&& final(self).pins() == old(self).pins()
            },
            !needs_destination ==> {
                &&& final(self).current() == old(self).queued()
                &&& final(self).queued() == Objective::Idle
                &&& final(self).pins() == if e == MoveError::AlreadyAtDestination && old(self).current()
                    == Objective::Moving(true) {
                    old(self).pins().insert(pos)
                } else {
                    old(self).pins()
                }
            },
            final(self).bankrupt() == old(self).bankrupt(),
            final(self).recent() == old(self).recent(),
            final(self).running() == old(self).running(),
            final(self).wf() == old(self).wf(),
    {
        if let MoveError::NoDestination = e {
            return true;
        }
        let discover = self.objective == Objective::Moving(true);
        self.next_objective();
        if discover {
            if let MoveError::AlreadyAtDestination = e {
                self.pin(pos);
            }
        }
        false
    }

    /// Whether to take over from the path finder with a blind walk: when its
    /// step leads back to a recent position, one time in two as the draw
    /// `roll` says.
    pub fn should_blind_walk(&self, ahead: Option<Coord>, roll: u8) -> (r: bool)
        ensures
            r == (ahead is Some && self.recent().contains(ahead->0) && roll % 2 == 0),
    {
        match ahead {
            Some(c) => self.recent.contains(c) && roll % 2 == 0,
            None => false,
        }
    }

    /// Starts a blind walk towards the destination, if there is one.
    pub fn start_blind_walk(&self, roll: u8) -> (r: Option<crate::walker::BlindWalk>)
        ensures
            self.dest() is None ==> r is None,
            self.dest() matches Some(d) ==> (r matches Some(w) && w.dest == d && w.steps_left == roll % 4 + 1
                && !w.stuck_row && !w.stuck_col),
    {
        match self.destination {
            Some(d) => Some(crate::walker::BlindWalk::new(d, roll)),
            None => None,
        }
    }

    /// After a blind walk that ended at `current`: forgets the last two
    /// recent positions and records the current one.
    pub fn blind_walk_done(&mut self, current: Coord)
        requires
            old(self).wf(),
        ensures
            final(self).wf(),
            final(self).recent() == after_blind(old(self).recent(), current),
            final(self).current() == old(self).current(),
            final(self).queued() == old(self).queued(),
            final(self).dest() == old(self).dest(),
            final(self).pins() == old(self).pins(),
            final(self).bankrupt() == old(self).bankrupt(),
            final(self).running() == old(self).running(),
    {
        self.recent.after_blind_walk(current);
    }

    /// The resource to gather lay right next to the agent, at `pos`, and was
    /// taken: drops the destination, pins the position when the move was
    /// meant to reach a new place, and resumes the queued objective.
    pub fn reached_resource(&mut self, pos: Coord)
        ensures
            final(self).current() == old(self).queued(),
            final(self).queued() == Objective::Idle,
            final(self).dest() is None,
            final(self).pins() == if old(self).current() == Objective::Moving(true) {
                old(self).pins().insert(pos)
            } else {
                old(self).pins()
            },
            final(self).bankrupt() == old(self).bankrupt(),
            final(self).recent() == old(self).recent(),
            final(self).running() == old(self).running(),
            final(self).wf() == old(self).wf(),
    {
        let discover = self.objective == Objective::Moving(true);
        self.destination = None;
        if discover {
            self.pin(pos);
        }
        self.next_objective();
    }

    /// One round of bridging a gap towards a resource, after trying with
    /// `n` rocks while holding `rocks`: keeps trying with as few rocks as
    /// will do; gives up and decides anew when the way cannot be cleared;
    /// goes for rocks when they run out; charges when energy runs out.
    pub fn bridge(&mut self, n: usize, outcome: PutOutcome, rocks: usize) -> (r: BridgeStep)
        requires
            n < usize::MAX,
        ensures
            r == bridge_next(n, outcome, rocks),
            final(self).same_records(old(self)),
            match r {
                BridgeStep::Abandon => final(self).dest() is None && final(self).current() == Objective::Praying
                    && final(self).queued() == old(self).queued(),
                BridgeStep::NeedRocks => final(self).dest() is None && final(self).current() == Objective::Exploring
                    && final(self).queued() == Objective::Gathering(Content::Rock),
                BridgeStep::NeedEnergy => final(self).dest() == old(self).dest()
                    && final(self).current() == Objective::Charging(BRIDGE_LEVEL) && final(self).queued() == old(self).queued(),
                BridgeStep::GiveUp => final(self).dest() is None && final(self).current() == Objective::Praying
                    && final(self).queued() == Objective::Idle,
                _ => final(self).dest() == old(self).dest() && final(self).current() == old(self).current()
                    && final(self).queued() == old(self).queued(),
            },
    {
        let r = bridge_step(n, outcome, rocks);
        match r {
            BridgeStep::Abandon => {
                self.destination = None;
                self.objective = Objective::Praying;
            },
            BridgeStep::NeedRocks => {
                self.destination = None;
                self.next = Objective::Gathering(Content::Rock);
                self.objective = Objective::Exploring;
            },
            BridgeStep::NeedEnergy => {
                self.objective = Objective::Charging(BRIDGE_LEVEL);
            },
            BridgeStep::GiveUp => {
                self.destination = None;
                self.next = Objective::Idle;
                self.objective = Objective::Praying;
            },
            _ => {},
        }
        r
    }

    /// The agent is stuck at `current` with no resource to reach: heads back
    /// to the oldest recent position and forgets the others.
    pub fn backtrack(&mut self, current: Coord) -> (r: Option<Coord>)
        requires
            old(self).wf(),
        ensures
            final(self).wf(),
            final(self).current() == old(self).current(),
            final(self).queued() == old(self).queued(),
            final(self).pins() == old(self).pins(),
            final(self).bankrupt() == old(self).bankrupt(),
            final(self).running() == old(self).running(),
            old(self).recent().len() == 0 ==> r is None && final(self).recent() == old(self).recent()
                && final(self).dest() == old(self).dest(),
            old(self).recent().len() > 0 ==> r == Some(old(self).recent()[0]) && final(self).recent() == seq![current]
                && final(self).dest() == r,
    {
        let r = self.recent.backtrack(current);
        if let Some(c) = r {
            self.destination = Some(c);
        }
        r
    }

    /// The resource that the queued objective gathers, if it gathers one:
    /// when the way is blocked, the agent tries to reach it directly or to
    /// bridge the gap; otherwise it backtracks.
    pub fn gathering_target(&self) -> (r: Option<Content>)
        ensures
            self.queued() matches Objective::Gathering(c) ==> r == Some(c),
            !(self.queued() is Gathering) ==> r is None,
    {
        match self.next {
            Objective::Gathering(c) => Some(c),
            _ => None,
        }
    }

    /// What the exploration scan looks for: the content of the queued
    /// gathering, else landmarks.
    pub fn exploration_goal(&self) -> (r: ExploreGoal)
        ensures
            r == goal_of(self.queued()),
    {
        match self.next {
            Objective::Gathering(c) => ExploreGoal::Resource(c),
            _ => ExploreGoal::Landmarks,
        }
    }

    /// Takes the finds of the exploration scan and heads for the first hit,
    /// pinning it on arrival when it is a landmark. Returns whether there
    /// was a hit; if not, the host sets a destination in the least explored
    /// area.
    pub fn explore_step(&mut self, found: &Vec<(Content, Coord)>) -> (r: bool)
        ensures
            final(self).same_records(old(self)),
            final(self).queued() == old(self).queued(),
            match discovery(found@, goal_of(old(self).queued()), old(self).pins()) {
                Some(c) => r && final(self).dest() == Some(c)
                    && final(self).current() == Objective::Moving(goal_of(old(self).queued()) == ExploreGoal::Landmarks),
                None => !r && final(self).dest() == old(self).dest() && final(self).current() == old(self).current(),
            },
    {
        let goal = self.exploration_goal();
        let landmarks = goal == ExploreGoal::Landmarks;
        let ghost pins = self.pins();
        let mut i: usize = 0;
        let mut pick: Option<Coord> = None;
        assert(found@.skip(0) =~= found@);
        while i < found.len() && pick.is_none()
            invariant
                i <= found@.len(),
                *self == *old(self),
                pins == self.pins(),
                goal == goal_of(self.queued()),
                pick is None ==> discovery(found@, goal, pins) == discovery(found@.skip(i as int), goal, pins),
                pick is Some ==> discovery(found@, goal, pins) == pick,
            decreases found@.len() - i + if pick is None { 1int } else { 0 },
        {
            assert(found@.skip(i as int).drop_first() =~= found@.skip(i + 1));
            let (kind, c) = found[i];
            assert(found@.skip(i as int)[0] == found@[i as int]);
            assert(self.pins().contains(c) == self.pins@.contains(c));
            let hit = match goal {
                ExploreGoal::Resource(k) => kind == k,
                ExploreGoal::Landmarks => !contains_coord(&self.pins, c) && (kind == Content::Bank
                    || kind == Content::Market || kind == Content::Building),
            };
            if hit {
                pick = Some(c);
            } else {
                i = i + 1;
            }
        }
        match pick {
            Some(c) => {
                self.destination = Some(c);
                self.objective = Objective::Moving(landmarks);
                true
            },
            None => {
                assert(found@.skip(i as int).len() == 0);
                false
            },
        }
    }

    /// Heads for `target`, as picked in the least explored area.
    pub fn head_to(&mut self, target: Coord)
        ensures
            final(self).dest() == Some(target),
            final(self).current() == Objective::Moving(false),
            final(self).queued() == old(self).queued(),
            final(self).same_records(old(self)),
    {
        self.destination = Some(target);
        self.objective = Objective::Moving(false);
    }

    /// How many of the two kinds of trading place (given as the known
    /// markets and banks) still have a place that is not depleted.
    pub fn active_trade_kinds(&self, markets: &Vec<Coord>, banks: &Vec<Coord>) -> (r: usize)
        ensures
            r == (if has_active(markets@, self.bankrupt()) { 1int } else { 0 }) + (if has_active(banks@, self.bankrupt()) { 1int } else { 0 }),
    {
        let m: usize = if self.any_active(markets) { 1 } else { 0 };
        let b: usize = if self.any_active(banks) { 1 } else { 0 };
        m + b
    }

    fn any_active(&self, v: &Vec<Coord>) -> (r: bool)
        ensures
            r == has_active(v@, self.bankrupt()),
    {
        let mut i: usize = 0;
        while i < v.len()
            invariant
                i <= v@.len(),
                forall|k: int| 0 <= k < i ==> self.bankrupt().contains(#[trigger] v@[k]),
            decreases v@.len() - i,
        {
            if !contains_coord(&self.bankrupt, v[i]) {
                return true;
            }
            i = i + 1;
        }
        false
    }

    /// With nothing to do: ends the run when more than three quarters of
    /// the map of side `dim` is revealed (`revealed` cells) and fewer than
    /// two kinds of trading place are still active; otherwise resumes the
    /// queued objective, or decides anew when nothing is queued. Returns
    /// whether the run ended.
    pub fn idle_step(&mut self, revealed: u128, dim: usize, active_kinds: usize) -> (ended: bool)
        ensures
            final(self).dest() == old(self).dest(),
            final(self).pins() == old(self).pins(),
            final(self).bankrupt() == old(self).bankrupt(),
            final(self).recent() == old(self).recent(),
            final(self).wf() == old(self).wf(),
            ended == (mostly_revealed(revealed, dim) && active_kinds < 2),
            ended ==> !final(self).running() && final(self).current() == old(self).current()
                && final(self).queued() == old(self).queued(),
            !ended ==> final(self).running() == old(self).running() && if old(self).queued() == Objective::Idle {
                final(self).current() == Objective::Praying && final(self).queued() == Objective::Idle
            } else {
                final(self).current() == old(self).queued() && final(self).queued() == Objective::Idle
            },
    {
        let d = dim as u128;
        assert(d * d <= 0xffff_ffff_ffff_ffff * 0xffff_ffff_ffff_ffff) by (nonlinear_arith)
            requires 0 <= d <= 0xffff_ffff_ffff_ffff;
        let area = d * d;
        let three_quarters = area / 4 * 3 + area % 4 * 3 / 4;
        assert(three_quarters == (dim * dim * 3) / 4);
        if revealed > three_quarters && active_kinds < 2 {
            self.running = false;
            true
        } else {
            if self.next == Objective::Idle {
                self.objective = Objective::Praying;
            } else {
                self.next_objective();
            }
            false
        }
    }

    /// The run starts with the agent at `pos`.
    pub fn on_ready(&mut self, pos: Coord)
        requires
            old(self).wf(),
        ensures
            final(self).wf(),
            final(self).recent() == recorded(old(self).recent(), pos),
            final(self).current() == old(self).current(),
            final(self).queued() == old(self).queued(),
            final(self).dest() == old(self).dest(),
            final(self).pins() == old(self).pins(),
            final(self).bankrupt() == old(self).bankrupt(),
            final(self).running() == old(self).running(),
    {
        self.recent.record(pos);
    }

    /// The agent moved to `pos`: records it among the recent positions.
    pub fn on_moved(&mut self, pos: Coord)
        requires
            old(self).wf(),
        ensures
            final(self).wf(),
            final(self).recent() == recorded(old(self).recent(), pos),
            final(self).current() == old(self).current(),
            final(self).queued() == old(self).queued(),
            final(self).dest() == old(self).dest(),
            final(self).pins() == old(self).pins(),
            final(self).bankrupt() == old(self).bankrupt(),
            final(self).running() == old(self).running(),
    {
        self.recent.record(pos);
    }

    /// The host ends the run: no further ticks are meaningful.
    pub fn terminate(&mut self)
        ensures
            !final(self).running(),
            final(self).current() == old(self).current(),
            final(self).queued() == old(self).queued(),
            final(self).dest() == old(self).dest(),
            final(self).pins() == old(self).pins(),
            final(self).bankrupt() == old(self).bankrupt(),
            final(self).recent() == old(self).recent(),
            final(self).wf() == old(self).wf(),
    {
        self.running = false;
    }
}

/// Once the agent sleeps at night, further night ticks leave both
/// objectives as they are.
pub proof fn lemma_night_override_idempotent(o: Objective, n: Objective, energy: usize, later_energy: usize)
    ensures
        overridden(o, n, true, energy).0 == Objective::Sleeping ==> ({
            let (o1, n1) = overridden(o, n, true, energy);
            overridden(o1, n1, true, later_energy) == (o1, n1)
        }),
        overridden(Objective::Sleeping, n, true, energy) == (Objective::Sleeping, n),
{
}

/// The energy override never fires while the current or the queued
/// objective is sleeping, charging or waiting.
pub proof fn lemma_energy_override_spares_rest(o: Objective, n: Objective, energy: usize)
    requires
        o.is_resting() || n.is_resting(),
    ensures
        overridden(o, n, false, energy) == (o, n),
{
}

/// Setting a destination, clearing it and setting the same one again leaves
/// the agent as setting it once does.
pub proof fn lemma_destination_round_trip(b: PioneerBot, c: Coord, b1: PioneerBot, b2: PioneerBot, b3: PioneerBot)
    requires
        b1.dest() == Some(c) && b1.current() == b.current() && b1.queued() == b.queued() && b1.same_records(&b),
        b2.dest() is None && b2.current() == b1.current() && b2.queued() == b1.queued() && b2.same_records(&b1),
        b3.dest() == Some(c) && b3.current() == b2.current() && b3.queued() == b2.queued() && b3.same_records(&b2),
    ensures
        b3.dest() == b1.dest(),
        b3.current() == b1.current(),
        b3.queued() == b1.queued(),
        b3.same_records(&b1),
{
}

} // verus!
