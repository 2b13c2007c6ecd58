//! What a client makes of the frames the relay sends it.
use vstd::prelude::*;

use crate::net::wire::{ERROR, ERR_BAD, JOINED, PEER_JOINED, PEER_LEFT, PING, PONG};

verus! {

/// An event for the game from the connection to the relay.
#[derive(Clone, Debug, PartialEq, Eq)]
pub enum Incoming {
    Joined { seat: u8 },
    PeerJoined,
    PeerLeft,
    Error(u8),
    Game(Vec<u8>),
    Closed,
}

/// What the relay's answer to the hello frame means: a seat, the relay's
/// error code, or `ERR_BAD` for an answer of any other shape. Only a seat
/// keeps the connection open.
pub fn first_reply(frame: &[u8]) -> (r: Incoming)
    ensures
        frame@.len() == 2 && frame@[0] == JOINED ==> r == (Incoming::Joined { seat: frame@[1] }),
        frame@.len() >= 2 && frame@[0] == ERROR ==> r == Incoming::Error(frame@[1]),
        !(frame@.len() == 2 && frame@[0] == JOINED) && !(frame@.len() >= 2 && frame@[0] == ERROR)
            ==> r == Incoming::Error(ERR_BAD),
{
    if frame.len() == 2 && frame[0] == JOINED {
        Incoming::Joined { seat: frame[1] }
    } else if frame.len() >= 2 && frame[0] == ERROR {
        Incoming::Error(frame[1])
    } else {
        Incoming::Error(ERR_BAD)
    }
}

/// A frame that the relay passes on from the peer without reading it.
pub open spec fn speaks_game(frame: Seq<u8>) -> bool {
    frame.len() == 0 || (frame[0] != PING && frame[0] != PONG && frame[0] != PEER_JOINED
        && frame[0] != PEER_LEFT && !(frame[0] == ERROR && frame.len() >= 2))
}

/// What a later frame from the relay means; liveness checks (`PING`,
/// `PONG`) mean nothing to the game, and every frame the relay does not
/// itself speak is a game message from the peer.
pub fn classify(frame: Vec<u8>) -> (r: Option<Incoming>)
    ensures
        frame@.len() > 0 && (frame@[0] == PING || frame@[0] == PONG) ==> r is None,
        frame@.len() > 0 && frame@[0] == PEER_JOINED ==> r == Some(Incoming::PeerJoined),
        frame@.len() > 0 && frame@[0] == PEER_LEFT ==> r == Some(Incoming::PeerLeft),
        frame@.len() >= 2 && frame@[0] == ERROR ==> r == Some(Incoming::Error(frame@[1])),
        speaks_game(frame@) ==> r == Some(Incoming::Game(frame)),
{
    if frame.len() == 0 {
        return Some(Incoming::Game(frame));
    }
    let tag = frame[0];
    if tag == PING || tag == PONG {
        None
    } else if tag == PEER_JOINED {
        Some(Incoming::PeerJoined)
    } else if tag == PEER_LEFT {
        Some(Incoming::PeerLeft)
    } else if tag == ERROR && frame.len() >= 2 {
        Some(Incoming::Error(frame[1]))
    } else {
        Some(Incoming::Game(frame))
    }
}

} // verus!
