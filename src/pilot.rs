//! The remote-control protocol, as bytes: the mode handshake, the action
//! codes of manual mode and how a tick is driven.
use vstd::prelude::*;

verus! {

/// Whether the handshake byte selects manual mode (zero) rather than
/// assisted mode.
pub fn mode_is_manual(byte: u8) -> (r: bool)
    ensures
        r == (byte == 0),
{
    byte == 0
}

/// The byte read as a two's complement signed value.
pub open spec fn signed(b: u8) -> int {
    if b < 128 {
        b as int
    } else {
        b - 256
    }
}

pub fn to_signed(b: u8) -> (r: i8)
    ensures
        r == signed(b),
{
    if b < 128 {
        b as i8
    } else {
        ((b as i16) - 256) as i8
    }
}

/// The action code of a manual-mode exchange. The remote sends a code; the
/// agent signals that it is ready (`ready_sent` tells whether that write
/// succeeded) and reads again to absorb a repeated press, acknowledging it;
/// `second` is that second code when the read and the acknowledgement both
/// succeeded. A failed ready signal reads as a disconnection.
pub open spec fn exchanged_code(first: u8, ready_sent: bool, second: Option<u8>) -> int {
    if !ready_sent {
        -1
    } else {
        match second {
            Some(b) => signed(b),
            None => signed(first),
        }
    }
}

/// Settles the action code of a manual-mode exchange.
pub fn resolve_action(first: u8, ready_sent: bool, second: Option<u8>) -> (r: i8)
    ensures
        r == exchanged_code(first, ready_sent, second),
{
    if !ready_sent {
        return -1;
    }
    let mut input = to_signed(first);
    if let Some(b) = second {
        let again = to_signed(b);
        if input != again {
            input = again;
        }
    }
    input
}

/// What the operator asks for in manual mode.
#[derive(Clone, Copy, Debug, PartialEq, Eq, Structural)]
pub enum PilotAction {
    GoUp,
    GoDown,
    GoLeft,
    GoRight,
    Destroy,
    PlaceTent,
    Discover,
    Sell,
    Deposit,
    Disconnect,
    Nothing,
}

pub open spec fn action_of(code: i8) -> PilotAction {
    if code == 9 {
        PilotAction::GoUp
    } else if code == 8 {
        PilotAction::GoDown
    } else if code == 7 {
        PilotAction::GoLeft
    } else if code == 6 {
        PilotAction::GoRight
    } else if code == 5 {
        PilotAction::Destroy
    } else if code == 4 {
        PilotAction::PlaceTent
    } else if code == 3 {
        PilotAction::Discover
    } else if code == 2 {
        PilotAction::Sell
    } else if code == 1 {
        PilotAction::Deposit
    } else if code == -1 {
        PilotAction::Disconnect
    } else {
        PilotAction::Nothing
    }
}

/// Decodes a manual-mode action code: 9 to 6 move up, down, left, right;
/// 5 destroys, 4 places the tent, 3 scans the area, 2 sells, 1 deposits;
/// -1 means the remote is gone; anything else does nothing.
pub fn decode_action(code: i8) -> (r: PilotAction)
    ensures
        r == action_of(code),
{
    match code {
        9 => PilotAction::GoUp,
        8 => PilotAction::GoDown,
        7 => PilotAction::GoLeft,
        6 => PilotAction::GoRight,
        5 => PilotAction::Destroy,
        4 => PilotAction::PlaceTent,
        3 => PilotAction::Discover,
        2 => PilotAction::Sell,
        1 => PilotAction::Deposit,
        -1 => PilotAction::Disconnect,
        _ => PilotAction::Nothing,
    }
}

/// How a tick is driven.
#[derive(Clone, Copy, Debug, PartialEq, Eq, Structural)]
pub enum TickMode {
    /// The operator steers directly.
    Manual,
    /// The planner runs, and asks the operator when deciding.
    Assisted,
    /// The planner runs alone.
    Autonomous,
}

/// The mode of a tick, given whether a remote is attached and, if so,
/// whether it is in manual mode.
pub fn tick_mode(pilot_manual: Option<bool>) -> (r: TickMode)
    ensures
        r == match pilot_manual {
            Some(true) => TickMode::Manual,
            Some(false) => TickMode::Assisted,
            None => TickMode::Autonomous,
        },
{
    match pilot_manual {
        Some(true) => TickMode::Manual,
        Some(false) => TickMode::Assisted,
        None => TickMode::Autonomous,
    }
}

} // verus!
