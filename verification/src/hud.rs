//! What the heads-up display says about the state of a match.
use vstd::prelude::*;

verus! {

/// The phase of a match, without the timer that settles an impact.
#[derive(Clone, Copy, Debug, PartialEq, Eq)]
pub enum Stage {
    Handoff,
    Aiming,
    Flying,
    Resolving,
    Finished(Option<usize>),
}

/// The status line: whose turn it is and what happens.
#[derive(Clone, Copy, Debug, PartialEq, Eq)]
pub enum Status {
    /// Online, the other computer's player is to press Ready.
    WaitingFor(usize),
    /// The player is to take over the controls and press Ready.
    YourTurn(usize),
    /// Online, the other computer's player aims.
    IsAiming(usize),
    /// The player lines up the shot.
    LineUp(usize),
    InFlight,
    Settling,
    Wins(usize),
    Draw,
}

/// The colour the status line is drawn in.
#[derive(Clone, Copy, Debug, PartialEq, Eq)]
pub enum Tint {
    Red,
    Blue,
    Gold,
}

pub open spec fn status_of(stage: Stage, online: bool, mine: bool, active: usize) -> Status {
    match stage {
        Stage::Handoff => if online && !mine {
            Status::WaitingFor(active)
        } else {
            Status::YourTurn(active)
        },
        Stage::Aiming => if online && !mine {
            Status::IsAiming(active)
        } else {
            Status::LineUp(active)
        },
        Stage::Flying => Status::InFlight,
        Stage::Resolving => Status::Settling,
        Stage::Finished(Some(winner)) => Status::Wins(winner),
        Stage::Finished(None) => Status::Draw,
    }
}

/// The status line for player `active`'s turn; `mine` is whether that
/// player sits at this computer.
pub fn status(stage: Stage, online: bool, mine: bool, active: usize) -> (r: Status)
    ensures
        r == status_of(stage, online, mine, active),
        stage == Stage::Aiming && (!online || mine) ==> r == Status::LineUp(active),
        stage == Stage::Handoff && (!online || mine) ==> r == Status::YourTurn(active),
        stage == Stage::Aiming && online && !mine ==> r == Status::IsAiming(active),
        stage == Stage::Handoff && online && !mine ==> r == Status::WaitingFor(active),
        (r is IsAiming || r is WaitingFor) ==> online && !mine,
{
    match stage {
        Stage::Handoff => if online && !mine {
            Status::WaitingFor(active)
        } else {
            Status::YourTurn(active)
        },
        Stage::Aiming => if online && !mine {
            Status::IsAiming(active)
        } else {
            Status::LineUp(active)
        },
        Stage::Flying => Status::InFlight,
        Stage::Resolving => Status::Settling,
        Stage::Finished(Some(winner)) => Status::Wins(winner),
        Stage::Finished(None) => Status::Draw,
    }
}

/// The player whose turn it is, at the computer where that player sits (or
/// in a local match), is told to take over and to line up the shot; only the
/// other computer of an online match is told that the player is aiming or
/// is awaited. The line names the player whose turn it is.
pub proof fn lemma_status_speaks_to_the_player(stage: Stage, online: bool, mine: bool, active: usize)
    ensures
        (!online || mine) ==> status_of(Stage::Aiming, online, mine, active) == Status::LineUp(
            active,
        ),
        (!online || mine) ==> status_of(Stage::Handoff, online, mine, active) == Status::YourTurn(
            active,
        ),
        online && !mine ==> status_of(Stage::Aiming, online, mine, active) == Status::IsAiming(
            active,
        ),
        online && !mine ==> status_of(Stage::Handoff, online, mine, active) == Status::WaitingFor(
            active,
        ),
        (status_of(stage, online, mine, active) is IsAiming || status_of(
            stage,
            online,
            mine,
            active,
        ) is WaitingFor) ==> online && !mine,
{
}

/// A finished match is announced in gold; otherwise the line takes the
/// colour of the active player.
pub fn status_tint(status: Status, active: usize) -> (r: Tint)
    ensures
        (status is Wins || status is Draw) ==> r == Tint::Gold,
        !(status is Wins || status is Draw) ==> r == (if active == 0 {
            Tint::Red
        } else {
            Tint::Blue
        }),
{
    match status {
        Status::Wins(_) | Status::Draw => Tint::Gold,
        _ => if active == 0 {
            Tint::Red
        } else {
            Tint::Blue
        },
    }
}

pub open spec fn player_label(player: usize) -> Seq<char> {
    if player == 0 {
        "RED"@
    } else {
        "BLUE"@
    }
}

pub fn player_name(player: usize) -> (r: &'static str)
    ensures
        r@ == player_label(player),
{
    if player == 0 {
        "RED"
    } else {
        "BLUE"
    }
}

pub open spec fn primary_text(paused: bool, stage: Stage) -> Seq<char> {
    if paused {
        "PAUSED / ESC"@
    } else {
        match stage {
            Stage::Handoff => "READY / ENTER"@,
            Stage::Aiming => "FIRE / SPACE"@,
            Stage::Flying | Stage::Resolving => "SHOT IN PROGRESS"@,
            Stage::Finished(_) => "MATCH COMPLETE"@,
        }
    }
}

/// The caption of the primary button.
pub fn primary_label(paused: bool, stage: Stage) -> (r: &'static str)
    ensures
        r@ == primary_text(paused, stage),
{
    if paused {
        "PAUSED / ESC"
    } else {
        match stage {
            Stage::Handoff => "READY / ENTER",
            Stage::Aiming => "FIRE / SPACE",
            Stage::Flying | Stage::Resolving => "SHOT IN PROGRESS",
            Stage::Finished(_) => "MATCH COMPLETE",
        }
    }
}

/// The primary button is live only while the match waits for Ready or Fire.
pub fn primary_enabled(paused: bool, stage: Stage) -> (r: bool)
    ensures
        r == (!paused && (stage == Stage::Handoff || stage == Stage::Aiming)),
{
    !paused && match stage {
        Stage::Handoff | Stage::Aiming => true,
        _ => false,
    }
}

/// How one of the four room-code boxes is drawn when `typed` characters
/// are shown: whether it holds a character, and whether it is the box the
/// next typed character goes into (only while no connection is open).
pub fn code_slot(slot: usize, typed: usize, connected: bool) -> (r: (bool, bool))
    ensures
        r.0 == (slot < typed),
        r.1 == (!connected && slot == typed && typed < 4),
{
    let cursor = if typed < 4 {
        typed
    } else {
        4
    };
    (slot < typed, slot == cursor && cursor < 4 && !connected)
}

} // verus!
