use canon_3d::net::protocol::{Msg, IMPACT, READY, TURN, WELCOME};
use canon_3d::terrain::MapSize;

fn v3(x: f32, y: f32, z: f32) -> [u32; 3] {
    [x.to_bits(), y.to_bits(), z.to_bits()]
}

fn pair(a: f32, b: f32) -> [u32; 2] {
    [a.to_bits(), b.to_bits()]
}

#[test]
fn every_message_survives_a_round_trip() {
    let samples = [
        Msg::Welcome {
            seed: 42,
            size: MapSize::Large,
        },
        Msg::Aim {
            yaw: 1.25f32.to_bits(),
            elevation: 0.7f32.to_bits(),
            power: 33.5f32.to_bits(),
        },
        Msg::Ready,
        Msg::Fire {
            yaw: 0.1f32.to_bits(),
            elevation: 0.2f32.to_bits(),
            power: 40.0f32.to_bits(),
        },
        Msg::ShotFired {
            yaw: 0.1f32.to_bits(),
            elevation: 0.2f32.to_bits(),
            power: 40.0f32.to_bits(),
        },
        Msg::Ball {
            position: v3(1.0, 2.0, 3.0),
            velocity: v3(4.0, 5.0, 6.0),
        },
        Msg::Impact {
            point: v3(0.0, 0.0, 0.0),
            damage: pair(10.0, 100.0),
            health: pair(90.0, 0.0),
            cannon_y: pair(4.0, 3.0),
            direct: true,
        },
        Msg::Miss {
            cannon_y: pair(5.0, 6.0),
        },
        Msg::Turn {
            active: 1,
            round: 3,
            wind: v3(2.0, 0.0, 0.0),
            health: pair(80.0, 70.0),
            cannon_y: pair(1.0, 2.0),
            winner: None,
        },
        Msg::Turn {
            active: 0,
            round: 4,
            wind: v3(0.0, 0.0, 0.0),
            health: pair(0.0, 0.0),
            cannon_y: pair(1.0, 1.0),
            winner: Some(None),
        },
        Msg::NewMatch {
            seed: 9,
            size: MapSize::Medium,
        },
    ];
    for msg in samples {
        assert_eq!(Msg::decode(&msg.encode()).as_ref(), Some(&msg));
    }
    assert!(Msg::decode(&[255]).is_none());
    assert!(Msg::decode(&[READY, 0]).is_none());
}

#[test]
fn welcome_is_tag_seed_and_size() {
    let msg = Msg::Welcome {
        seed: 0x0102_0304_0506_0708,
        size: MapSize::Medium,
    };
    assert_eq!(msg.encode(), vec![WELCOME, 8, 7, 6, 5, 4, 3, 2, 1, 1]);
    assert!(Msg::decode(&[WELCOME, 8, 7, 6, 5, 4, 3, 2, 1, 3]).is_none());
    assert!(Msg::decode(&[WELCOME, 8, 7, 6, 5, 4, 3, 2, 1]).is_none());
}

#[test]
fn message_lengths_are_fixed_per_kind() {
    let turn = Msg::Turn {
        active: 1,
        round: 7,
        wind: v3(1.0, 0.0, -1.0),
        health: pair(50.0, 25.0),
        cannon_y: pair(3.0, 4.0),
        winner: Some(Some(1)),
    };
    let bytes = turn.encode();
    assert_eq!(bytes.len(), 35);
    assert_eq!(bytes[0], TURN);
    assert_eq!(bytes[1], 1);
    assert_eq!(&bytes[2..6], &[7, 0, 0, 0]);
    assert_eq!(bytes[34], 3);
    assert_eq!(Msg::decode(&bytes), Some(turn));
    let mut extra = bytes.clone();
    extra.push(0);
    assert!(Msg::decode(&extra).is_none());
    let mut unknown_outcome = bytes.clone();
    unknown_outcome[34] = 4;
    assert!(Msg::decode(&unknown_outcome).is_none());
    assert_eq!(Msg::Ready.encode(), vec![READY]);
}

#[test]
fn any_nonzero_hit_flag_reads_as_a_direct_hit() {
    let msg = Msg::Impact {
        point: v3(1.0, 2.0, 3.0),
        damage: pair(0.0, 0.0),
        health: pair(100.0, 100.0),
        cannon_y: pair(1.0, 1.0),
        direct: false,
    };
    let mut bytes = msg.encode();
    assert_eq!(bytes.len(), 38);
    assert_eq!(bytes[0], IMPACT);
    assert_eq!(bytes[37], 0);
    bytes[37] = 9;
    match Msg::decode(&bytes) {
        Some(Msg::Impact { direct, .. }) => assert!(direct),
        other => panic!("unexpected {other:?}"),
    }
}

#[test]
fn float_bits_travel_unchanged() {
    let nan = f32::NAN.to_bits() | 1;
    let msg = Msg::Aim {
        yaw: nan,
        elevation: (-0.0f32).to_bits(),
        power: f32::INFINITY.to_bits(),
    };
    assert_eq!(Msg::decode(&msg.encode()), Some(msg));
}
