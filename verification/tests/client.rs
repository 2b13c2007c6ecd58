use canon_3d::net::client::{classify, first_reply, Incoming};
use canon_3d::net::wire::{ERROR, ERR_BAD, ERR_FULL, JOINED, PEER_JOINED, PEER_LEFT, PING, PONG};

#[test]
fn the_first_reply_seats_or_refuses() {
    assert_eq!(first_reply(&[JOINED, 1]), Incoming::Joined { seat: 1 });
    assert_eq!(first_reply(&[ERROR, ERR_FULL]), Incoming::Error(ERR_FULL));
    assert_eq!(first_reply(&[ERROR, ERR_FULL, 9]), Incoming::Error(ERR_FULL));
    assert_eq!(first_reply(&[JOINED, 1, 2]), Incoming::Error(ERR_BAD));
    assert_eq!(first_reply(&[ERROR]), Incoming::Error(ERR_BAD));
    assert_eq!(first_reply(b"??"), Incoming::Error(ERR_BAD));
}

#[test]
fn later_frames_become_game_events() {
    assert_eq!(classify(vec![PING]), None);
    assert_eq!(classify(vec![PONG, 3]), None);
    assert_eq!(classify(vec![PEER_JOINED]), Some(Incoming::PeerJoined));
    assert_eq!(classify(vec![PEER_LEFT]), Some(Incoming::PeerLeft));
    assert_eq!(classify(vec![ERROR, 5]), Some(Incoming::Error(5)));
    assert_eq!(classify(vec![ERROR]), Some(Incoming::Game(vec![ERROR])));
    assert_eq!(classify(vec![3]), Some(Incoming::Game(vec![3])));
    assert_eq!(classify(vec![]), Some(Incoming::Game(vec![])));
}
