//! Who may act in a match: the play mode, the seat held online, and
//! which peer runs the simulation.
use vstd::prelude::*;

use crate::hud::Stage;
use crate::net::client::Incoming;
use crate::net::protocol::{is_msg, read_as, Msg};
use crate::net::wire::RoomCode;

verus! {

#[derive(Clone, Copy, Debug, PartialEq, Eq, Structural)]
pub enum PlayMode {
    Menu,
    Local,
    Online,
}

impl PlayMode {
    /// The title menu holds the battlefield still.
    pub fn blocks_world(&self) -> (r: bool)
        ensures
            r == (*self == PlayMode::Menu),
    {
        match self {
            PlayMode::Menu => true,
            _ => false,
        }
    }
}

/// The seat this computer holds in an online match: seat 0 is Red and
/// hosts, seat 1 is Blue. `waiting` holds until the peer is known.
#[derive(Clone, Copy, Debug, PartialEq, Eq)]
pub struct Net {
    pub seat: usize,
    pub code: RoomCode,
    pub waiting: bool,
}

impl Net {
    /// The host simulates the match once both players are present.
    pub open spec fn hosts(&self) -> bool {
        self.seat == 0 && !self.waiting
    }

    pub fn is_host(&self) -> (r: bool)
        ensures
            r == self.hosts(),
    {
        self.seat == 0 && !self.waiting
    }

    /// Whether the player `active` whose turn it is sits at this computer.
    pub fn my_turn(&self, active: usize) -> (r: bool)
        ensures
            r == (!self.waiting && active == self.seat),
    {
        !self.waiting && active == self.seat
    }
}

/// Whether this computer runs the simulation: always in a local match,
/// never in the menu, and online only when it hosts.
pub open spec fn authority(mode: Option<PlayMode>, net: Option<Net>) -> bool {
    match mode {
        Some(PlayMode::Menu) => false,
        Some(PlayMode::Online) => net matches Some(n) && n.hosts(),
        _ => true,
    }
}

pub fn is_authority(mode: Option<&PlayMode>, net: Option<&Net>) -> (r: bool)
    ensures
        r == authority(
            match mode {
                Some(m) => Some(*m),
                None => None,
            },
            match net {
                Some(n) => Some(*n),
                None => None,
            },
        ),
{
    match mode {
        Some(PlayMode::Menu) => false,
        Some(PlayMode::Online) => match net {
            Some(net) => net.is_host(),
            None => false,
        },
        _ => true,
    }
}

/// Whether the player at this computer may act now: never in the menu,
/// always in a local match, and online only on the own turn.
pub open spec fn turn_here(mode: Option<PlayMode>, net: Option<Net>, active: usize) -> bool {
    match mode {
        Some(PlayMode::Menu) => false,
        Some(PlayMode::Online) => net matches Some(n) && !n.waiting && active == n.seat,
        _ => true,
    }
}

pub fn my_turn(mode: Option<&PlayMode>, net: Option<&Net>, active: usize) -> (r: bool)
    ensures
        r == turn_here(
            match mode {
                Some(m) => Some(*m),
                None => None,
            },
            match net {
                Some(n) => Some(*n),
                None => None,
            },
            active,
        ),
{
    match mode {
        Some(PlayMode::Menu) => false,
        Some(PlayMode::Online) => match net {
            Some(net) => net.my_turn(active),
            None => false,
        },
        _ => true,
    }
}

/// In an online match between a host in seat 0 and a guest in seat 1,
/// the host alone runs the simulation, and the player whose turn it is
/// may act at one computer and not at the other.
pub proof fn lemma_one_authority_one_actor(host: Net, guest: Net, active: usize)
    requires
        host.seat == 0,
        guest.seat == 1,
        !host.waiting,
        !guest.waiting,
        active < 2,
    ensures
        authority(Some(PlayMode::Online), Some(host)),
        !authority(Some(PlayMode::Online), Some(guest)),
        turn_here(Some(PlayMode::Online), Some(host), active) != turn_here(
            Some(PlayMode::Online),
            Some(guest),
            active,
        ),
{
}

/// Whether a game message from the peer is acted on. The host decides every
/// outcome, so it heeds only welcomes, new matches and aim updates, the
/// guest's readiness during a handoff on the guest's turn, and the guest's
/// shot on the guest's turn. The guest heeds every report of the host
/// (readiness, the shot fired, ball updates, impacts, misses and turn
/// changes) and ignores shot requests.
pub open spec fn heeded(msg: Msg, net: Net, active: usize, handoff: bool) -> bool {
    match msg {
        Msg::Welcome { .. } | Msg::NewMatch { .. } | Msg::Aim { .. } => true,
        Msg::Ready => (net.hosts() && active != net.seat && handoff) || !net.hosts(),
        Msg::Fire { .. } => net.hosts() && active != net.seat,
        _ => !net.hosts(),
    }
}

pub fn heeds(msg: &Msg, net: &Net, active: usize, handoff: bool) -> (r: bool)
    ensures
        r == heeded(*msg, *net, active, handoff),
        !net.hosts() ==> (r <==> !(*msg is Fire)),
        net.hosts() && (*msg is Impact || *msg is Miss || *msg is Turn || *msg is ShotFired
            || *msg is Ball) ==> !r,
        net.hosts() && *msg is Fire ==> (r <==> active != net.seat),
        net.hosts() && *msg is Ready ==> (r <==> active != net.seat && handoff),
        (*msg is Welcome || *msg is NewMatch || *msg is Aim) ==> r,
{
    let host = net.is_host();
    match msg {
        Msg::Welcome { .. } | Msg::NewMatch { .. } | Msg::Aim { .. } => true,
        Msg::Ready => (host && active != net.seat && handoff) || !host,
        Msg::Fire { .. } => host && active != net.seat,
        _ => !host,
    }
}

/// What a message from the peer does to the match: whether it is acted on,
/// the stage the match moves to (`None`: it stays), the message sent back,
/// and whether online play starts, unpaused.
#[derive(Clone, Debug, PartialEq)]
pub struct Response {
    pub heeded: bool,
    pub next: Option<Stage>,
    pub reply: Option<Msg>,
    pub starts_play: bool,
}

/// A shot is fired only from the aiming stage of a running match.
pub open spec fn shot_leaves(stage: Stage, paused: bool) -> Option<Stage> {
    if !paused && stage == Stage::Aiming {
        Some(Stage::Flying)
    } else {
        None
    }
}

/// A welcome or a new match starts a fresh battlefield at its handoff, and
/// a welcome also ends the guest's wait and starts online play; the
/// host echoes the guest's readiness and answers the guest's shot request
/// with the shot it fires; the guest starts aiming on the host's readiness
/// and fires the shot the host reports (resuming a paused match first);
/// impacts and misses settle, and a turn report starts the next turn's
/// aiming or ends the match with its winner.
pub open spec fn response_of(msg: Msg, net: Net, active: usize, stage: Stage, paused: bool) -> Response {
    if !heeded(msg, net, active, stage == Stage::Handoff) {
        Response { heeded: false, next: None, reply: None, starts_play: false }
    } else {
        match msg {
            Msg::Welcome { .. } => Response {
                heeded: true,
                next: Some(Stage::Handoff),
                reply: None,
                starts_play: true,
            },
            Msg::NewMatch { .. } => Response {
                heeded: true,
                next: Some(Stage::Handoff),
                reply: None,
                starts_play: false,
            },
            Msg::Ready => Response {
                heeded: true,
                next: Some(Stage::Aiming),
                reply: if net.hosts() {
                    Some(Msg::Ready)
                } else {
                    None
                },
                starts_play: false,
            },
            Msg::Fire { yaw, elevation, power } => Response {
                heeded: true,
                next: shot_leaves(stage, paused),
                reply: Some(Msg::ShotFired { yaw, elevation, power }),
                starts_play: false,
            },
            Msg::ShotFired { .. } => Response {
                heeded: true,
                next: shot_leaves(stage, false),
                reply: None,
                starts_play: false,
            },
            Msg::Impact { .. } | Msg::Miss { .. } => Response {
                heeded: true,
                next: Some(Stage::Resolving),
                reply: None,
                starts_play: false,
            },
            Msg::Turn { winner, .. } => Response {
                heeded: true,
                next: Some(
                    match winner {
                        Some(w) => Stage::Finished(w),
                        None => Stage::Aiming,
                    },
                ),
                reply: None,
                starts_play: false,
            },
            _ => Response { heeded: true, next: None, reply: None, starts_play: false },
        }
    }
}

fn fires(stage: Stage, paused: bool) -> (r: Option<Stage>)
    ensures
        r == shot_leaves(stage, paused),
{
    match stage {
        Stage::Aiming => if paused {
            None
        } else {
            Some(Stage::Flying)
        },
        _ => None,
    }
}

/// The response of this computer to a message from its peer, in a match at
/// `stage` whose player `active` has the turn. A welcome ends the wait for
/// the peer; nothing else changes the seat.
pub fn respond(msg: &Msg, net: &mut Net, active: usize, stage: Stage, paused: bool) -> (r: Response)
    ensures
        r == response_of(*msg, *old(net), active, stage, paused),
        *final(net) == (if *msg is Welcome {
            Net { waiting: false, ..*old(net) }
        } else {
            *old(net)
        }),
        !old(net).hosts() && (*msg is Impact || *msg is Miss) ==> r.heeded && r.next == Some(
            Stage::Resolving,
        ) && r.reply is None,
        !old(net).hosts() ==> (*msg matches Msg::Turn { winner, .. } ==> r.heeded && r.next
            == Some(
            match winner {
                Some(w) => Stage::Finished(w),
                None => Stage::Aiming,
            },
        )),
        !old(net).hosts() && *msg is Ready ==> r.heeded && r.next == Some(Stage::Aiming)
            && r.reply is None,
        old(net).hosts() && (*msg is Impact || *msg is Miss || *msg is Turn || *msg is ShotFired
            || *msg is Ball) ==> !r.heeded,
        old(net).hosts() && active != old(net).seat ==> (*msg matches Msg::Fire {
            yaw,
            elevation,
            power,
        } ==> r.heeded && r.reply == Some(Msg::ShotFired { yaw, elevation, power })),
        old(net).hosts() && active != old(net).seat && stage == Stage::Handoff && *msg is Ready
            ==> r.heeded && r.next == Some(Stage::Aiming) && r.reply == Some(Msg::Ready),
        *msg is Welcome ==> r.heeded && r.next == Some(Stage::Handoff) && r.starts_play,
        !r.heeded ==> r.next is None && r.reply is None && !r.starts_play,
        r.starts_play ==> *msg is Welcome,
{
    let handoff = match stage {
        Stage::Handoff => true,
        _ => false,
    };
    if !heeds(msg, net, active, handoff) {
        return Response { heeded: false, next: None, reply: None, starts_play: false };
    }
    let none = Response { heeded: true, next: None, reply: None, starts_play: false };
    match msg {
        Msg::Welcome { .. } => {
            net.waiting = false;
            Response { next: Some(Stage::Handoff), starts_play: true, ..none }
        },
        Msg::NewMatch { .. } => Response { next: Some(Stage::Handoff), ..none },
        Msg::Ready => Response {
            next: Some(Stage::Aiming),
            reply: if net.is_host() {
                Some(Msg::Ready)
            } else {
                None
            },
            ..none
        },
        Msg::Fire { yaw, elevation, power } => Response {
            next: fires(stage, paused),
            reply: Some(Msg::ShotFired { yaw: *yaw, elevation: *elevation, power: *power }),
            ..none
        },
        Msg::ShotFired { .. } => Response { next: fires(stage, false), ..none },
        Msg::Impact { .. } | Msg::Miss { .. } => Response { next: Some(Stage::Resolving), ..none },
        Msg::Turn { winner, .. } => Response {
            next: Some(
                match winner {
                    Some(w) => Stage::Finished(*w),
                    None => Stage::Aiming,
                },
            ),
            ..none
        },
        _ => none,
    }
}

/// The guest follows the host's reports: a reported impact or miss settles
/// the shot, a turn report starts the next turn's aiming or ends the match
/// with the reported winner, and the host's readiness starts the aiming;
/// none of them is answered.
pub proof fn lemma_guest_follows_the_host(
    msg: Msg,
    net: Net,
    active: usize,
    stage: Stage,
    paused: bool,
)
    requires
        !net.hosts(),
    ensures
        ({
            let r = response_of(msg, net, active, stage, paused);
            &&& (msg is Impact || msg is Miss) ==> r.heeded && r.next == Some(Stage::Resolving)
                && r.reply is None
            &&& msg matches Msg::Turn { winner: Some(w), .. } ==> r.heeded && r.next == Some(
                Stage::Finished(w),
            )
            &&& msg matches Msg::Turn { winner: None, .. } ==> r.heeded && r.next == Some(
                Stage::Aiming,
            )
            &&& msg is Ready ==> r.heeded && r.next == Some(Stage::Aiming) && r.reply is None
            &&& msg is Fire ==> !r.heeded
        }),
{
}

/// The host alone decides outcomes: it ignores reports of impacts, misses,
/// turns, shots and ball positions, answers the guest's shot request on the
/// guest's turn with that very shot, and echoes the guest's readiness at the
/// guest's handoff.
pub proof fn lemma_host_decides(msg: Msg, net: Net, active: usize, stage: Stage, paused: bool)
    requires
        net.hosts(),
    ensures
        ({
            let r = response_of(msg, net, active, stage, paused);
            &&& (msg is Impact || msg is Miss || msg is Turn || msg is ShotFired || msg is Ball)
                ==> !r.heeded && r.next is None && r.reply is None
            &&& active != net.seat ==> (msg matches Msg::Fire { yaw, elevation, power } ==> r.heeded
                && r.reply == Some(Msg::ShotFired { yaw, elevation, power }))
            &&& active == net.seat ==> (msg is Fire ==> !r.heeded)
            &&& active != net.seat && stage == Stage::Handoff && msg is Ready ==> r.heeded && r.next
                == Some(Stage::Aiming) && r.reply == Some(Msg::Ready)
        }),
{
}

/// A message that is not heeded changes nothing, and only a welcome starts
/// online play.
pub proof fn lemma_ignored_changes_nothing(
    msg: Msg,
    net: Net,
    active: usize,
    stage: Stage,
    paused: bool,
)
    ensures
        ({
            let r = response_of(msg, net, active, stage, paused);
            &&& !r.heeded ==> r.next is None && r.reply is None && !r.starts_play
            &&& r.starts_play <==> msg is Welcome
            &&& msg is Welcome ==> r.next == Some(Stage::Handoff)
        }),
{
}

/// What the game does with an event from the relay connection.
#[derive(Clone, Debug, PartialEq)]
pub enum Reaction {
    /// The relay gave this computer a seat.
    Seated { seat: usize },
    /// The guest arrived: the host starts the match and sends the map.
    Begin,
    /// A game message from the peer.
    Deliver(Msg),
    /// The connection ends: the relay's error code, or `None` when the peer
    /// left or the connection closed.
    Disconnect(Option<u8>),
    /// Nothing to do: a guest learns of itself arriving, or the bytes are
    /// no message.
    Nothing,
}

pub fn react(net: &mut Net, event: Incoming) -> (r: Reaction)
    ensures
        match event {
            Incoming::Joined { seat } => r == (Reaction::Seated { seat: seat as usize })
                && *final(net) == (Net { seat: seat as usize, ..*old(net) }),
            Incoming::PeerJoined => if old(net).seat == 0 {
                r == Reaction::Begin && *final(net) == (Net { waiting: false, ..*old(net) })
                    && final(net).hosts()
            } else {
                r == Reaction::Nothing && *final(net) == *old(net)
            },
            Incoming::Game(bytes) => *final(net) == *old(net) && (is_msg(bytes@) ==> (r matches Reaction::Deliver(m)
                && read_as(bytes@, m))) && (!is_msg(bytes@) ==> r == Reaction::Nothing),
            Incoming::Error(code) => r == Reaction::Disconnect(Some(code)) && *final(net) == *old(net),
            Incoming::PeerLeft | Incoming::Closed => r == Reaction::Disconnect(None) && *final(net)
                == *old(net),
        },
{
    match event {
        Incoming::Joined { seat } => {
            net.seat = seat as usize;
            Reaction::Seated { seat: seat as usize }
        },
        Incoming::PeerJoined => {
            if net.seat == 0 {
                net.waiting = false;
                Reaction::Begin
            } else {
                Reaction::Nothing
            }
        },
        Incoming::Game(bytes) => match Msg::decode(&bytes) {
            Some(msg) => Reaction::Deliver(msg),
            None => Reaction::Nothing,
        },
        Incoming::Error(code) => Reaction::Disconnect(Some(code)),
        Incoming::PeerLeft | Incoming::Closed => Reaction::Disconnect(None),
    }
}

/// The buttons of the title menu and of the pause screen.
#[derive(Clone, Copy, Debug, PartialEq, Eq)]
pub enum MenuAction {
    Local,
    Host,
    Join,
    Back,
    QuitToMenu,
}

/// What the menu does with this frame's input.
#[derive(Clone, Copy, Debug, PartialEq, Eq)]
pub enum MenuStep {
    /// Input is not the menu's now.
    Ignore,
    /// Leave a paused local match for the title menu.
    ToMenu,
    /// Start a hot-seat match on this computer.
    PlayLocal,
    /// Open a room under a fresh code.
    Host,
    /// Join the room whose code was typed.
    Join,
    /// Drop any connection and clear the menu.
    Back,
    /// The menu is open but nothing was chosen.
    Idle,
}

/// The menu's decision. `waiting` is whether a connection to the relay
/// still waits for its peer (`None` without a connection); `tab` and
/// `escape` are the keys pressed this frame.
pub open spec fn menu_decision(
    mode: PlayMode,
    paused: bool,
    waiting: Option<bool>,
    pressed: Option<MenuAction>,
    tab: bool,
    escape: bool,
) -> MenuStep {
    if mode == PlayMode::Online && waiting != Some(true) {
        MenuStep::Ignore
    } else if mode == PlayMode::Local {
        if paused && (pressed == Some(MenuAction::QuitToMenu) || tab) {
            MenuStep::ToMenu
        } else {
            MenuStep::Ignore
        }
    } else {
        let action = if escape {
            Some(MenuAction::Back)
        } else {
            pressed
        };
        match action {
            Some(MenuAction::Local) => MenuStep::PlayLocal,
            Some(MenuAction::Host) => MenuStep::Host,
            Some(MenuAction::Join) => MenuStep::Join,
            Some(MenuAction::Back) => MenuStep::Back,
            _ => MenuStep::Idle,
        }
    }
}

pub fn menu_step(
    mode: PlayMode,
    paused: bool,
    waiting: Option<bool>,
    pressed: Option<MenuAction>,
    tab: bool,
    escape: bool,
) -> (r: MenuStep)
    ensures
        r == menu_decision(mode, paused, waiting, pressed, tab, escape),
        mode == PlayMode::Local && paused && (pressed == Some(MenuAction::QuitToMenu) || tab)
            ==> r == MenuStep::ToMenu,
        r == MenuStep::ToMenu ==> mode == PlayMode::Local && paused,
        mode == PlayMode::Local && !paused ==> r == MenuStep::Ignore,
        mode == PlayMode::Online && waiting != Some(true) ==> r == MenuStep::Ignore,
        mode != PlayMode::Local && !(mode == PlayMode::Online && waiting != Some(true)) && escape
            ==> r == MenuStep::Back,
{
    let connected_waiting = match waiting {
        Some(w) => w,
        None => false,
    };
    if mode == PlayMode::Online && !connected_waiting {
        return MenuStep::Ignore;
    }
    if mode == PlayMode::Local {
        let quit = match pressed {
            Some(MenuAction::QuitToMenu) => true,
            _ => false,
        };
        return if paused && (quit || tab) {
            MenuStep::ToMenu
        } else {
            MenuStep::Ignore
        };
    }
    let action = if escape {
        Some(MenuAction::Back)
    } else {
        pressed
    };
    match action {
        Some(MenuAction::Local) => MenuStep::PlayLocal,
        Some(MenuAction::Host) => MenuStep::Host,
        Some(MenuAction::Join) => MenuStep::Join,
        Some(MenuAction::Back) => MenuStep::Back,
        _ => MenuStep::Idle,
    }
}

/// On the pause screen of a local match, the quit button or the Tab key
/// leaves for the title menu, whatever else is pressed; nothing else does.
/// On the title menu, and while a connection waits for its peer, Escape
/// backs out; a running online match leaves input to the game.
pub proof fn lemma_menu_leaves_and_backs_out(
    mode: PlayMode,
    paused: bool,
    waiting: Option<bool>,
    pressed: Option<MenuAction>,
    tab: bool,
    escape: bool,
)
    ensures
        menu_decision(PlayMode::Local, true, waiting, Some(MenuAction::QuitToMenu), tab, escape)
            == MenuStep::ToMenu,
        menu_decision(PlayMode::Local, true, waiting, pressed, true, escape) == MenuStep::ToMenu,
        menu_decision(mode, paused, waiting, pressed, tab, escape) == MenuStep::ToMenu ==> mode
            == PlayMode::Local && paused,
        menu_decision(PlayMode::Menu, paused, waiting, pressed, tab, true) == MenuStep::Back,
        menu_decision(PlayMode::Online, paused, Some(true), pressed, tab, true) == MenuStep::Back,
        waiting != Some(true) ==> menu_decision(PlayMode::Online, paused, waiting, pressed, tab, escape)
            == MenuStep::Ignore,
{
}

} // verus!
