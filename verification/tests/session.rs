use canon_3d::net::client::Incoming;
use canon_3d::net::protocol::Msg;
use canon_3d::hud::Stage;
use canon_3d::net::session::{
    heeds, is_authority, menu_step, my_turn, react, respond, MenuAction, MenuStep, Net, PlayMode,
    Reaction, Response,
};
use canon_3d::net::wire::RoomCode;

fn net(seat: usize, waiting: bool) -> Net {
    Net {
        seat,
        code: RoomCode(*b"7K2Q"),
        waiting,
    }
}

#[test]
fn only_the_joined_host_simulates_online() {
    assert!(!PlayMode::Local.blocks_world());
    assert!(PlayMode::Menu.blocks_world());
    assert!(is_authority(Some(&PlayMode::Local), None));
    assert!(is_authority(None, None));
    assert!(!is_authority(Some(&PlayMode::Menu), Some(&net(0, false))));
    assert!(is_authority(Some(&PlayMode::Online), Some(&net(0, false))));
    assert!(!is_authority(Some(&PlayMode::Online), Some(&net(0, true))));
    assert!(!is_authority(Some(&PlayMode::Online), Some(&net(1, false))));
    assert!(!is_authority(Some(&PlayMode::Online), None));
}

#[test]
fn online_turns_belong_to_one_seat() {
    assert!(my_turn(Some(&PlayMode::Local), None, 1));
    assert!(!my_turn(Some(&PlayMode::Menu), None, 0));
    assert!(my_turn(Some(&PlayMode::Online), Some(&net(1, false)), 1));
    assert!(!my_turn(Some(&PlayMode::Online), Some(&net(0, false)), 1));
    assert!(!my_turn(Some(&PlayMode::Online), Some(&net(1, true)), 1));
    assert!(net(0, false).is_host());
    assert!(!net(1, false).is_host());
    assert!(net(0, false).my_turn(0));
}

#[test]
fn relay_events_drive_the_session() {
    let mut n = net(0, true);
    assert_eq!(react(&mut n, Incoming::Joined { seat: 1 }), Reaction::Seated { seat: 1 });
    assert_eq!(n.seat, 1);
    assert_eq!(react(&mut n, Incoming::PeerJoined), Reaction::Nothing);
    assert!(n.waiting);
    let mut host = net(0, true);
    assert_eq!(react(&mut host, Incoming::PeerJoined), Reaction::Begin);
    assert!(!host.waiting);
    assert!(host.is_host());
    assert_eq!(
        react(&mut host, Incoming::Game(Msg::Ready.encode())),
        Reaction::Deliver(Msg::Ready)
    );
    assert_eq!(react(&mut host, Incoming::Game(vec![200])), Reaction::Nothing);
    assert_eq!(react(&mut host, Incoming::Error(3)), Reaction::Disconnect(Some(3)));
    assert_eq!(react(&mut host, Incoming::PeerLeft), Reaction::Disconnect(None));
    assert_eq!(react(&mut host, Incoming::Closed), Reaction::Disconnect(None));
}

#[test]
fn the_host_heeds_requests_and_the_guest_reports() {
    let host = net(0, false);
    let guest = net(1, false);
    let fire = Msg::Fire {
        yaw: 0,
        elevation: 0,
        power: 0,
    };
    assert!(heeds(&fire, &host, 1, false));
    assert!(!heeds(&fire, &host, 0, false));
    assert!(!heeds(&fire, &guest, 1, false));
    assert!(heeds(&Msg::Ready, &host, 1, true));
    assert!(!heeds(&Msg::Ready, &host, 1, false));
    assert!(!heeds(&Msg::Ready, &host, 0, true));
    assert!(heeds(&Msg::Ready, &guest, 0, false));
    let miss = Msg::Miss { cannon_y: [0, 0] };
    assert!(heeds(&miss, &guest, 0, false));
    assert!(!heeds(&miss, &host, 0, false));
    let welcome = Msg::Welcome {
        seed: 1,
        size: canon_3d::terrain::MapSize::Small,
    };
    assert!(heeds(&welcome, &host, 0, false));
}

#[test]
fn the_menu_answers_buttons_and_keys() {
    assert_eq!(
        menu_step(PlayMode::Menu, true, None, Some(MenuAction::Local), false, false),
        MenuStep::PlayLocal
    );
    assert_eq!(
        menu_step(PlayMode::Menu, true, None, Some(MenuAction::Host), false, false),
        MenuStep::Host
    );
    assert_eq!(
        menu_step(PlayMode::Menu, true, None, Some(MenuAction::Join), false, true),
        MenuStep::Back
    );
    assert_eq!(
        menu_step(PlayMode::Menu, true, None, None, false, false),
        MenuStep::Idle
    );
    assert_eq!(
        menu_step(PlayMode::Local, true, None, None, true, false),
        MenuStep::ToMenu
    );
    assert_eq!(
        menu_step(PlayMode::Local, false, None, Some(MenuAction::QuitToMenu), false, false),
        MenuStep::Ignore
    );
    assert_eq!(
        menu_step(PlayMode::Online, false, Some(false), Some(MenuAction::Back), false, true),
        MenuStep::Ignore
    );
    assert_eq!(
        menu_step(PlayMode::Online, false, Some(true), Some(MenuAction::Back), false, false),
        MenuStep::Back
    );
}

#[test]
fn heeded_messages_move_the_match_and_are_answered() {
    let mut host = net(0, false);
    let mut guest = net(1, false);
    let fire = Msg::Fire {
        yaw: 1,
        elevation: 2,
        power: 3,
    };
    assert_eq!(
        respond(&fire, &mut host, 1, Stage::Aiming, false),
        Response {
            heeded: true,
            next: Some(Stage::Flying),
            reply: Some(Msg::ShotFired {
                yaw: 1,
                elevation: 2,
                power: 3
            }),
            starts_play: false,
        }
    );
    assert_eq!(
        respond(&fire, &mut host, 1, Stage::Aiming, true).next,
        None
    );
    assert_eq!(
        respond(&fire, &mut guest, 1, Stage::Aiming, false),
        Response {
            heeded: false,
            next: None,
            reply: None,
            starts_play: false
        }
    );
    assert_eq!(
        respond(&Msg::Ready, &mut host, 1, Stage::Handoff, false),
        Response {
            heeded: true,
            next: Some(Stage::Aiming),
            reply: Some(Msg::Ready),
            starts_play: false
        }
    );
    assert_eq!(
        respond(&Msg::Ready, &mut guest, 0, Stage::Handoff, false),
        Response {
            heeded: true,
            next: Some(Stage::Aiming),
            reply: None,
            starts_play: false
        }
    );
    let shot = Msg::ShotFired {
        yaw: 0,
        elevation: 0,
        power: 0,
    };
    assert_eq!(respond(&shot, &mut guest, 0, Stage::Aiming, true).next, Some(Stage::Flying));
    assert_eq!(respond(&shot, &mut guest, 0, Stage::Handoff, false).next, None);
    let turn = |winner| Msg::Turn {
        active: 1,
        round: 2,
        wind: [0; 3],
        health: [0; 2],
        cannon_y: [0; 2],
        winner,
    };
    assert_eq!(respond(&turn(None), &mut guest, 0, Stage::Resolving, false).next, Some(Stage::Aiming));
    assert_eq!(
        respond(&turn(Some(Some(1))), &mut guest, 0, Stage::Resolving, false).next,
        Some(Stage::Finished(Some(1)))
    );
    assert_eq!(
        respond(&turn(Some(None)), &mut guest, 0, Stage::Resolving, false).next,
        Some(Stage::Finished(None))
    );
    assert!(!respond(&turn(None), &mut host, 0, Stage::Resolving, false).heeded);
    assert_eq!(
        respond(&Msg::Miss { cannon_y: [0, 0] }, &mut guest, 0, Stage::Flying, false).next,
        Some(Stage::Resolving)
    );
    let welcome = Msg::NewMatch {
        seed: 3,
        size: canon_3d::terrain::MapSize::Large,
    };
    assert_eq!(respond(&welcome, &mut host, 0, Stage::Flying, false).next, Some(Stage::Handoff));
    assert!(!respond(&welcome, &mut host, 0, Stage::Flying, false).starts_play);
    let mut waiting = net(1, true);
    let hello = Msg::Welcome {
        seed: 3,
        size: canon_3d::terrain::MapSize::Small,
    };
    let r = respond(&hello, &mut waiting, 0, Stage::Handoff, true);
    assert!(r.heeded && r.starts_play);
    assert_eq!(r.next, Some(Stage::Handoff));
    assert!(!waiting.waiting);
    assert_eq!(waiting.seat, 1);
}
