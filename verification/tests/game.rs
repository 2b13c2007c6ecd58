use canon_3d::game::{draw_wind, press_primary, Press, Turn, TurnEnd};
use canon_3d::terrain::Rng;

#[test]
fn winner_and_draw_do_not_start_another_turn() {
    for (health, expected) in [
        ([0.0f32, 100.0], Some(1)),
        ([100.0, 0.0], Some(0)),
        ([0.0, 0.0], None),
    ] {
        let mut t = Turn::new();
        let mut rng = Rng::new(2);
        let end = t.finish([health[0] <= 0.0, health[1] <= 0.0], &mut rng);
        assert_eq!(end, TurnEnd::Finished(expected));
        assert_eq!(t.round, 1);
    }
}

#[test]
fn a_round_is_two_turns_sharing_one_wind() {
    let mut t = Turn::new();
    let mut rng = Rng::new(0);
    let mut twin = Rng::new(0);
    assert_eq!((t.active, t.round), (0, 1));
    assert_eq!(t.finish([false, false], &mut rng), TurnEnd::Next { wind: None });
    assert_eq!((t.active, t.round), (1, 1));
    assert_eq!(
        t.finish([false, false], &mut rng),
        TurnEnd::Next {
            wind: Some((14819496, 7239838))
        }
    );
    assert_eq!((t.active, t.round), (0, 2));
    assert_eq!(draw_wind(&mut twin), (14819496, 7239838));
    assert_eq!(rng.next_bits(), twin.next_bits());
}

#[test]
fn the_primary_key_means_ready_then_fire() {
    assert_eq!(
        press_primary(true, true, false),
        Press {
            begin_aiming: true,
            send_ready: false,
            fire: false,
            request_fire: false
        }
    );
    assert_eq!(
        press_primary(true, false, true),
        Press {
            begin_aiming: false,
            send_ready: true,
            fire: false,
            request_fire: false
        }
    );
    assert_eq!(
        press_primary(false, true, true),
        Press {
            begin_aiming: false,
            send_ready: false,
            fire: true,
            request_fire: false
        }
    );
    assert_eq!(
        press_primary(false, false, true),
        Press {
            begin_aiming: false,
            send_ready: false,
            fire: false,
            request_fire: true
        }
    );
}
