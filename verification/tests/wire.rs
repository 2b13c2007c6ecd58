use canon_3d::net::wire::{
    encode_frame, error_text, frame_length, frame_payload, Hello, RoomCode, ERR_BAD, ERR_BUSY,
    ERR_EXISTS, ERR_FULL, ERR_MISSING, GUEST, HOST, MAX_FRAME,
};

#[test]
fn room_codes_reject_ambiguous_and_wrong_length() {
    assert!(RoomCode::parse("7K2Q").is_some());
    assert!(RoomCode::parse("7k2q").is_some());
    assert_eq!(RoomCode::parse("7K2Q"), RoomCode::parse(" 7k2q "));
    assert!(RoomCode::parse("O0I1").is_none());
    assert!(RoomCode::parse("ABC").is_none());
    assert_eq!(RoomCode::random(1), RoomCode::random(1));
    assert_ne!(RoomCode::random(1), RoomCode::random(2));
}

#[test]
fn frames_round_trip_and_reject_oversize() {
    let frame = encode_frame(b"hello").unwrap();
    assert_eq!(frame_payload(&frame).unwrap(), b"hello");
    assert!(encode_frame(&[0; MAX_FRAME + 1]).is_none());
    let bad = 5000u32.to_le_bytes();
    assert!(frame_length(bad).is_none());
    assert_eq!(
        Hello::decode(&Hello::Host(RoomCode(*b"7K2Q")).encode()),
        Some(Hello::Host(RoomCode(*b"7K2Q")))
    );
    assert_eq!(
        Hello::decode(&Hello::Guest(RoomCode(*b"ABCD")).encode()),
        Some(Hello::Guest(RoomCode(*b"ABCD")))
    );
    assert!(Hello::decode(&[HOST, b'O', b'0', b'I', b'1']).is_none());
}

#[test]
fn parse_reads_exactly_the_typed_code() {
    assert_eq!(RoomCode::parse("7K2Q"), Some(RoomCode(*b"7K2Q")));
    assert_eq!(RoomCode::parse("\t7 k\n2 q\r"), Some(RoomCode(*b"7K2Q")));
    assert_eq!(RoomCode::parse("zzzz"), Some(RoomCode(*b"ZZZZ")));
    assert!(RoomCode::parse("").is_none());
    assert!(RoomCode::parse("ABCDE").is_none());
    assert!(RoomCode::parse("AB1D").is_none());
    assert!(RoomCode::parse("ABéD").is_none());
}

#[test]
fn random_codes_follow_the_generator_and_parse_back() {
    assert_eq!(RoomCode::random(1), RoomCode(*b"N74V"));
    assert_eq!(RoomCode::random(2), RoomCode(*b"FC5A"));
    assert_eq!(RoomCode::random(42), RoomCode(*b"74V2"));
    for seed in 0..200u64 {
        let code = RoomCode::random(seed);
        assert_eq!(RoomCode::parse(&code.as_str()), Some(code));
    }
}

#[test]
fn codes_read_as_their_characters() {
    assert_eq!(RoomCode(*b"7K2Q").as_str(), "7K2Q");
    assert_eq!(RoomCode(*b"abcd").as_str(), "abcd");
    assert_eq!(RoomCode(*b"O0 !").as_str(), "O0 !");
    assert_eq!(RoomCode([0xff, b'A', b'B', b'C']).as_str(), "\u{fffd}ABC");
}

#[test]
fn hello_frames_have_a_tag_and_a_code() {
    assert_eq!(Hello::Host(RoomCode(*b"7K2Q")).encode(), vec![HOST, b'7', b'K', b'2', b'Q']);
    assert_eq!(Hello::Guest(RoomCode(*b"ABCD")).encode(), vec![GUEST, b'A', b'B', b'C', b'D']);
    assert!(Hello::decode(&[b'X', b'A', b'B', b'C', b'D']).is_none());
    assert!(Hello::decode(&[HOST, b'A', b'B', b'C']).is_none());
    assert!(Hello::decode(&[GUEST, b'A', b'B', b'C', b'D', b'E']).is_none());
}

#[test]
fn every_error_code_has_its_message() {
    assert_eq!(error_text(ERR_EXISTS), "That room already exists. Host a new code.");
    assert_eq!(error_text(ERR_MISSING), "No host is waiting with that code.");
    assert_eq!(error_text(ERR_FULL), "That room is already full.");
    assert_eq!(error_text(ERR_BUSY), "Relay is full. Try again shortly.");
    assert_eq!(error_text(ERR_BAD), "Could not join the relay.");
    assert_eq!(error_text(200), "Could not join the relay.");
}

#[test]
fn frame_headers_carry_little_endian_lengths() {
    assert_eq!(encode_frame(b"hi").unwrap(), vec![2, 0, 0, 0, b'h', b'i']);
    assert_eq!(encode_frame(&[]).unwrap(), vec![0, 0, 0, 0]);
    assert_eq!(encode_frame(&[7; MAX_FRAME]).unwrap().len(), MAX_FRAME + 4);
    assert_eq!(frame_length([0, 16, 0, 0]), Some(MAX_FRAME));
    assert_eq!(frame_length([1, 16, 0, 0]), None);
    assert_eq!(frame_length([0, 0, 0, 0]), None);
    assert_eq!(frame_length([5, 1, 0, 0]), Some(261));
    assert!(frame_payload(&[3, 0, 0, 0, 1, 2]).is_none());
    assert!(frame_payload(&[1, 0, 0]).is_none());
    assert!(frame_payload(&encode_frame(&[]).unwrap()).is_none());
}
