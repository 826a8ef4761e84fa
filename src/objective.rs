//! The agent's high-level objectives.
use vstd::prelude::*;
use vstd::string::StringExecFns;
use crate::world::{Content, DayTime};

verus! {

/// What the agent is currently trying to do.
#[derive(Clone, Copy, Debug, PartialEq, Eq, Structural)]
pub enum Objective {
    /// Do nothing until the given time of day.
    Waiting(DayTime),
    /// Walk to the destination; the flag asks to pin it once reached.
    Moving(bool),
    /// Stay put until energy reaches the given level.
    Charging(usize),
    /// Find a place for the tent and sleep.
    Sleeping,
    /// Decide what to do next.
    Praying,
    /// Collect the given resource.
    Gathering(Content),
    /// Sell the given resource at a market.
    Selling(Content),
    /// Deposit coins at a bank.
    Depositing,
    /// Look around for something worth reaching.
    Exploring,
    /// Nothing to do.
    Idle,
}

/// The objective that the remote operator selects with byte `b`.
pub open spec fn objective_of_byte(b: u8) -> Objective {
    if b == 1 {
        Objective::Charging(750)
    } else if b == 2 {
        Objective::Selling(Content::Fish)
    } else if b == 3 {
        Objective::Selling(Content::Tree)
    } else if b == 4 {
        Objective::Selling(Content::Rock)
    } else if b == 5 {
        Objective::Gathering(Content::Fish)
    } else if b == 6 {
        Objective::Gathering(Content::Tree)
    } else if b == 7 {
        Objective::Gathering(Content::Rock)
    } else if b == 8 {
        Objective::Depositing
    } else if b == 9 {
        Objective::Exploring
    } else {
        Objective::Idle
    }
}

impl From<u8> for Objective {
    /// Decodes the objective byte sent by the remote operator; any value
    /// outside 1 to 9 means no choice.
    fn from(value: u8) -> (r: Objective) {
        match value {
            1 => Objective::Charging(750),
            2 => Objective::Selling(Content::Fish),
            3 => Objective::Selling(Content::Tree),
            4 => Objective::Selling(Content::Rock),
            5 => Objective::Gathering(Content::Fish),
            6 => Objective::Gathering(Content::Tree),
            7 => Objective::Gathering(Content::Rock),
            8 => Objective::Depositing,
            9 => Objective::Exploring,
            _ => Objective::Idle,
        }
    }
}

impl vstd::std_specs::convert::FromSpecImpl<u8> for Objective {
    open spec fn obeys_from_spec() -> bool {
        true
    }

    open spec fn from_spec(v: u8) -> Objective {
        objective_of_byte(v)
    }
}

impl Objective {
    /// Whether the objective is one during which the agent rests:
    /// waiting, charging or sleeping.
    pub open spec fn is_resting(self) -> bool {
        self is Waiting || self is Charging || self is Sleeping
    }
}

/// The decimal digit `d`.
pub open spec fn digit(d: nat) -> char {
    if d == 0 { '0' }
    else if d == 1 { '1' }
    else if d == 2 { '2' }
    else if d == 3 { '3' }
    else if d == 4 { '4' }
    else if d == 5 { '5' }
    else if d == 6 { '6' }
    else if d == 7 { '7' }
    else if d == 8 { '8' }
    else { '9' }
}

/// The decimal writing of `n`, without leading zeros.
pub open spec fn decimal(n: nat) -> Seq<char>
    decreases n,
{
    if n < 10 {
        seq![digit(n)]
    } else {
        decimal(n / 10).push(digit(n % 10))
    }
}

/// Appends the decimal writing of `n` to `s`.
fn write_decimal(s: &mut String, n: usize)
    ensures
        final(s)@ == old(s)@ + decimal(n as nat),
    decreases n,
{
    if n >= 10 {
        write_decimal(s, n / 10);
    }
    let d = n % 10;
    let ghost before = s@;
    if d == 0 {
        s.append("0");
    } else if d == 1 {
        s.append("1");
    } else if d == 2 {
        s.append("2");
    } else if d == 3 {
        s.append("3");
    } else if d == 4 {
        s.append("4");
    } else if d == 5 {
        s.append("5");
    } else if d == 6 {
        s.append("6");
    } else if d == 7 {
        s.append("7");
    } else if d == 8 {
        s.append("8");
    } else {
        s.append("9");
    }
    proof {
        reveal_strlit("0");
        reveal_strlit("1");
        reveal_strlit("2");
        reveal_strlit("3");
        reveal_strlit("4");
        reveal_strlit("5");
        reveal_strlit("6");
        reveal_strlit("7");
        reveal_strlit("8");
        reveal_strlit("9");
        assert(s@ == before + seq![digit(d as nat)]);
        if n >= 10 {
            assert(decimal(n as nat) == decimal((n / 10) as nat).push(digit(d as nat)));
        } else {
            assert(decimal(n as nat) == seq![digit(d as nat)]);
        }
        assert(s@ =~= old(s)@ + decimal(n as nat));
    }
}

/// The name of a time of day.
pub open spec fn day_time_name(d: DayTime) -> Seq<char> {
    match d {
        DayTime::Morning => "Morning"@,
        DayTime::Afternoon => "Afternoon"@,
        DayTime::Night => "Night"@,
    }
}

/// How an objective reads in the agent's log.
pub open spec fn description(o: Objective) -> Seq<char> {
    match o {
        Objective::Waiting(d) => "waiting till "@ + day_time_name(d),
        Objective::Moving(_) => "moving"@,
        Objective::Charging(n) => "charging to "@ + decimal(n as nat) + "/1000"@,
        Objective::Sleeping => "sleeping"@,
        Objective::Praying => "praying"@,
        Objective::Gathering(_) => "gathering"@,
        Objective::Selling(_) => "selling"@,
        Objective::Depositing => "going to the bank"@,
        Objective::Exploring => "exploring"@,
        Objective::Idle => "doing nothing"@,
    }
}

impl Objective {
    /// Describes the objective for the agent's log.
    pub fn describe(&self) -> (r: String)
        ensures
            r@ == description(*self),
    {
        match self {
            Objective::Waiting(d) => {
                let mut s = String::from_str("waiting till ");
                match d {
                    DayTime::Morning => s.append("Morning"),
                    DayTime::Afternoon => s.append("Afternoon"),
                    DayTime::Night => s.append("Night"),
                }
                s
            },
            Objective::Moving(_) => String::from_str("moving"),
            Objective::Charging(n) => {
                let mut s = String::from_str("charging to ");
                write_decimal(&mut s, *n);
                s.append("/1000");
                s
            },
            Objective::Sleeping => String::from_str("sleeping"),
            Objective::Praying => String::from_str("praying"),
            Objective::Gathering(_) => String::from_str("gathering"),
            Objective::Selling(_) => String::from_str("selling"),
            Objective::Depositing => String::from_str("going to the bank"),
            Objective::Exploring => String::from_str("exploring"),
            Objective::Idle => String::from_str("doing nothing"),
        }
    }
}

} // verus!
