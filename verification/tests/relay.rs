use canon_3d::net::relay::{leave, register, route, take_seat, Admission, Hub, MAX_ROOMS};
use canon_3d::net::wire::{
    Hello, RoomCode, ERROR, ERR_BAD, ERR_BUSY, ERR_EXISTS, ERR_FULL, ERR_MISSING, JOINED, PING,
    PONG,
};

#[test]
fn host_and_guest_see_each_other_and_a_third_is_refused() {
    let code = RoomCode(*b"7K2Q");
    let mut hub = Hub::new();
    assert_eq!(register(&mut hub, code, true, 10), Ok(()));
    assert_eq!(hub.other(code, true), None);
    assert_eq!(register(&mut hub, code, false, 11), Ok(()));
    assert_eq!(hub.other(code, true), Some(11));
    assert_eq!(hub.other(code, false), Some(10));
    assert_eq!(register(&mut hub, code, false, 12), Err(ERR_FULL));
    assert_eq!(leave(&mut hub, code, true), Some(11));
    assert_eq!(hub.other(code, false), None);
    assert_eq!(leave(&mut hub, code, false), None);
    assert_eq!(register(&mut hub, code, false, 13), Err(ERR_MISSING));
}

#[test]
fn guest_without_host_and_second_host_fail() {
    let code = RoomCode(*b"ABCD");
    let mut hub = Hub::new();
    assert_eq!(register(&mut hub, code, false, 1), Err(ERR_MISSING));
    assert_eq!(register(&mut hub, code, true, 2), Ok(()));
    assert_eq!(register(&mut hub, code, true, 3), Err(ERR_EXISTS));
}

#[test]
fn leaving_reopens_the_seat() {
    let code = RoomCode(*b"P2NG");
    let mut hub = Hub::new();
    register(&mut hub, code, true, 1).unwrap();
    register(&mut hub, code, false, 2).unwrap();
    assert_eq!(leave(&mut hub, code, false), Some(1));
    assert_eq!(register(&mut hub, code, false, 3), Ok(()));
    assert_eq!(hub.other(code, true), Some(3));
}

#[test]
fn the_relay_holds_a_bounded_number_of_rooms() {
    let alphabet = b"23456789ABCDEFGHJKLMNPQRSTUVWXYZ";
    let code = |i: usize| RoomCode([b'A', b'B', alphabet[i / 32], alphabet[i % 32]]);
    let mut hub = Hub::new();
    for i in 0..MAX_ROOMS {
        assert_eq!(register(&mut hub, code(i), true, i as u64), Ok(()));
    }
    let extra = code(MAX_ROOMS);
    assert_eq!(register(&mut hub, extra, true, 999), Err(ERR_BUSY));
    assert_eq!(register(&mut hub, code(3), false, 1000), Ok(()));
    leave(&mut hub, code(0), true);
    assert_eq!(register(&mut hub, extra, true, 999), Ok(()));
}

#[test]
fn hello_frames_are_answered() {
    let code = RoomCode(*b"7K2Q");
    let mut hub = Hub::new();
    let host = take_seat(&mut hub, &Hello::Host(code).encode(), 1);
    assert_eq!(
        host,
        Admission::Joined {
            code,
            as_host: true,
            notify: None
        }
    );
    assert_eq!(host.answer(), vec![JOINED, 0]);
    let guest = take_seat(&mut hub, &Hello::Guest(code).encode(), 2);
    assert_eq!(
        guest,
        Admission::Joined {
            code,
            as_host: false,
            notify: Some(1)
        }
    );
    assert_eq!(guest.answer(), vec![JOINED, 1]);
    let third = take_seat(&mut hub, &Hello::Guest(code).encode(), 3);
    assert_eq!(third, Admission::Refused(ERR_FULL));
    assert_eq!(third.answer(), vec![ERROR, ERR_FULL]);
    let junk = take_seat(&mut hub, b"hello", 4);
    assert_eq!(junk, Admission::Malformed);
    assert_eq!(junk.answer(), vec![ERROR, ERR_BAD]);
    let ghost = take_seat(&mut hub, &Hello::Guest(RoomCode(*b"ABCD")).encode(), 5);
    assert_eq!(ghost.answer(), vec![ERROR, ERR_MISSING]);
}

#[test]
fn pings_are_answered_and_frames_go_to_the_peer() {
    let code = RoomCode(*b"P2NG");
    let mut hub = Hub::new();
    register(&mut hub, code, true, 1).unwrap();
    let alone = route(&hub, code, true, &[PING]);
    assert!(alone.pong);
    assert_eq!(alone.peer, None);
    register(&mut hub, code, false, 2).unwrap();
    let ping = route(&hub, code, true, &[PING]);
    assert!(ping.pong);
    assert_eq!(ping.peer, Some(2));
    let aim = route(&hub, code, false, b"aim");
    assert!(!aim.pong);
    assert_eq!(aim.peer, Some(1));
    assert!(!route(&hub, code, false, &[PONG]).pong);
    assert!(!route(&hub, code, false, &[]).pong);
}
