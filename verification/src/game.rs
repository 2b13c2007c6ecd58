//! The turn order of a match: Red (player 0) and Blue (player 1) take one
//! turn each per round, a round shares one wind drawn from the match's
//! seeded generator, and the match ends when a cannon is destroyed.
use vstd::prelude::*;

use crate::terrain::{advance, draw, Rng};

verus! {

/// Whose turn it is, and in which round.
#[derive(Clone, Copy, Debug, PartialEq, Eq)]
pub struct Turn {
    pub active: usize,
    pub round: u32,
}

/// How a resolved shot ends the turn.
#[derive(Clone, Copy, Debug, PartialEq, Eq)]
pub enum TurnEnd {
    /// The match is over: the winner, or `None` for mutual destruction.
    Finished(Option<usize>),
    /// The other player aims next. A new round brings a new wind: the two
    /// draws its direction and its speed are made from; within a round the
    /// wind stays.
    Next { wind: Option<(u32, u32)> },
}

/// The two draws a wind is made from, taken from generator state `s`.
pub open spec fn wind_draws(s: u64) -> (u32, u32) {
    (draw(s), draw(advance(s)))
}

/// The turn after a resolved shot, given which cannons are destroyed and
/// the state `s` of the match's generator: the next turn, how this one
/// ends, and the generator's state afterwards.
pub open spec fn after_shot(turn: Turn, destroyed: [bool; 2], s: u64) -> (Turn, TurnEnd, u64) {
    if destroyed[0] && destroyed[1] {
        (turn, TurnEnd::Finished(None), s)
    } else if destroyed[0] {
        (turn, TurnEnd::Finished(Some(1)), s)
    } else if destroyed[1] {
        (turn, TurnEnd::Finished(Some(0)), s)
    } else if turn.active == 0 {
        (Turn { active: 1, round: turn.round }, TurnEnd::Next { wind: None }, s)
    } else {
        (
            Turn { active: 0, round: (turn.round + 1) as u32 },
            TurnEnd::Next { wind: Some(wind_draws(s)) },
            advance(advance(s)),
        )
    }
}

/// Draws a new wind: first the bits of its direction, then of its speed.
pub fn draw_wind(rng: &mut Rng) -> (r: (u32, u32))
    ensures
        r == wind_draws(old(rng).state()),
        final(rng).state() == advance(advance(old(rng).state())),
{
    let angle = rng.next_bits();
    let speed = rng.next_bits();
    (angle, speed)
}

impl Turn {
    pub fn new() -> (t: Self)
        ensures
            t == (Turn { active: 0, round: 1 }),
    {
        Turn { active: 0, round: 1 }
    }

    /// Ends the current turn once its shot is resolved; `rng` is the
    /// match's generator, from which a new round draws its wind.
    pub fn finish(&mut self, destroyed: [bool; 2], rng: &mut Rng) -> (r: TurnEnd)
        requires
            old(self).active < 2,
            old(self).active == 1 && !destroyed[0] && !destroyed[1] ==> old(self).round < u32::MAX,
        ensures
            (*final(self), r, final(rng).state()) == after_shot(
                *old(self),
                destroyed,
                old(rng).state(),
            ),
            final(self).active < 2,
    {
        if destroyed[0] && destroyed[1] {
            TurnEnd::Finished(None)
        } else if destroyed[0] {
            TurnEnd::Finished(Some(1))
        } else if destroyed[1] {
            TurnEnd::Finished(Some(0))
        } else if self.active == 0 {
            self.active = 1;
            TurnEnd::Next { wind: None }
        } else {
            self.active = 0;
            self.round += 1;
            TurnEnd::Next { wind: Some(draw_wind(rng)) }
        }
    }
}

/// What pressing the primary key or button (Ready / Fire) does on the
/// player's own turn.
#[derive(Clone, Copy, Debug, PartialEq, Eq)]
pub struct Press {
    /// The handoff ends and the active player starts aiming.
    pub begin_aiming: bool,
    /// The peer is told that this player is ready.
    pub send_ready: bool,
    /// The shot is fired here.
    pub fire: bool,
    /// The host is asked to fire this player's shot.
    pub request_fire: bool,
}

/// During a handoff the press means "ready": the simulating computer starts
/// the aiming phase and a connected computer tells its peer. Otherwise it
/// means "fire": the simulating computer fires, and a guest asks the host to.
pub open spec fn press_effect(handoff: bool, authority: bool, connected: bool) -> Press {
    if handoff {
        Press { begin_aiming: authority, send_ready: connected, fire: false, request_fire: false }
    } else {
        Press {
            begin_aiming: false,
            send_ready: false,
            fire: authority,
            request_fire: !authority && connected,
        }
    }
}

pub fn press_primary(handoff: bool, authority: bool, connected: bool) -> (r: Press)
    ensures
        r == press_effect(handoff, authority, connected),
        handoff ==> r.send_ready == connected && r.begin_aiming == authority && !r.fire
            && !r.request_fire,
        !handoff ==> !r.send_ready && !r.begin_aiming && r.fire == authority && r.request_fire == (
        !authority && connected),
{
    if handoff {
        Press { begin_aiming: authority, send_ready: connected, fire: false, request_fire: false }
    } else {
        Press {
            begin_aiming: false,
            send_ready: false,
            fire: authority,
            request_fire: !authority && connected,
        }
    }
}

/// During a handoff the press is "ready": a connected computer always tells
/// its peer, whichever of the two simulates, and the simulating computer
/// starts the aiming; nothing is fired. Otherwise the press is "fire": a
/// shot is fired at exactly one computer of a connected pair (here, or at
/// the host on request), never at both, and readiness is not sent.
pub proof fn lemma_press_ready_or_fire(authority: bool, connected: bool)
    ensures
        press_effect(true, authority, connected).send_ready == connected,
        press_effect(true, authority, connected).begin_aiming == authority,
        !press_effect(true, authority, connected).fire,
        !press_effect(true, authority, connected).request_fire,
        !press_effect(false, authority, connected).send_ready,
        !press_effect(false, authority, connected).begin_aiming,
        press_effect(false, authority, connected).fire == authority,
        !(press_effect(false, authority, connected).fire && press_effect(
            false,
            authority,
            connected,
        ).request_fire),
        connected ==> (press_effect(false, true, connected).fire != press_effect(
            false,
            false,
            connected,
        ).fire) && press_effect(false, false, connected).request_fire,
{
}

/// A round is Red's turn and then Blue's: after two turns without a
/// destroyed cannon, Red aims again in the next round. Red's turn leaves
/// the wind and the generator alone, so both turns share the wind; after
/// Blue's turn the next wind is the next two draws of the match's
/// generator.
pub proof fn lemma_round_is_two_turns(turn: Turn, s: u64)
    requires
        turn.active == 0,
        turn.round < u32::MAX,
    ensures
        ({
            let (mid, first, s1) = after_shot(turn, [false, false], s);
            let (last, second, s2) = after_shot(mid, [false, false], s1);
            &&& first == TurnEnd::Next { wind: None }
            &&& s1 == s
            &&& mid.active == 1
            &&& mid.round == turn.round
            &&& second == TurnEnd::Next { wind: Some(wind_draws(s)) }
            &&& s2 == advance(advance(s))
            &&& last == Turn { active: 0, round: (turn.round + 1) as u32 }
        }),
{
}

/// A shot that destroys a cannon ends the match: no further turn starts,
/// and simultaneous destruction is a draw.
pub proof fn lemma_destruction_ends_the_match(turn: Turn, destroyed: [bool; 2], s: u64)
    requires
        destroyed[0] || destroyed[1],
    ensures
        after_shot(turn, destroyed, s).0 == turn,
        after_shot(turn, destroyed, s).1 is Finished,
        after_shot(turn, destroyed, s).2 == s,
        destroyed[0] && destroyed[1] ==> after_shot(turn, destroyed, s).1 == TurnEnd::Finished(
            None,
        ),
{
}

} // verus!
