use shooter::channel::{Channel, ChannelError};
use shooter::client::{ClientMatch, ClientPhase};
use shooter::player::PlayerState;
use shooter::server::{Delivery, Session, SessionPhase, Slot};
use shooter::wire::{encode, ChannelVector2, Packet, Winner};

fn v(x: f32, z: f32) -> ChannelVector2 {
    ChannelVector2 { x: x.to_bits(), z: z.to_bits() }
}

fn io_error() -> ChannelError {
    ChannelError::Io(std::io::Error::new(std::io::ErrorKind::ConnectionAborted, "gone"))
}

fn spawn_1_packet() -> Packet {
    Packet::Player { pos: v(0.0, 18.0), target: v(0.0, -1.0) }
}

fn spawn_2_packet() -> Packet {
    Packet::Player { pos: v(0.0, -18.0), target: v(0.0, 1.0) }
}

#[test]
fn spawn_points() {
    let p1 = PlayerState::new_player_1();
    let p2 = PlayerState::new_player_2();
    assert_eq!(p1.write_pos(), spawn_1_packet());
    assert_eq!(p2.write_pos(), spawn_2_packet());
    assert_eq!(p1.write_health(), Packet::Health(100));
    assert_eq!(PlayerState::unplaced().write_pos(), Packet::Player { pos: v(0.0, 0.0), target: v(0.0, 1.0) });
}

#[test]
fn reset_restores_spawn() {
    let mut p = PlayerState::new_player_2();
    p.read_pos(&Packet::Player { pos: v(3.0, 4.0), target: v(5.0, 6.0) });
    p.decrease_health();
    p.reset_player_2();
    assert_eq!(p, PlayerState::new_player_2());
    p.reset_player_1();
    assert_eq!(p, PlayerState::new_player_1());
}

#[test]
fn ten_hits_take_full_health_to_zero() {
    let mut p = PlayerState::new_player_1();
    let mut last = p.get_health();
    for _ in 0..10 {
        p.decrease_health();
        assert!(p.get_health() < last);
        last = p.get_health();
    }
    assert_eq!(p.get_health(), 0);
    p.decrease_health();
    assert_eq!(p.get_health(), 0);
}

#[test]
fn hits_saturate_at_zero() {
    let mut p = PlayerState { health: 95, ..PlayerState::new_player_1() };
    for _ in 0..9 {
        p.decrease_health();
    }
    assert_eq!(p.get_health(), 5);
    p.decrease_health();
    assert_eq!(p.get_health(), 0);
    let mut q = PlayerState { health: 7, ..PlayerState::new_player_1() };
    q.decrease_health();
    assert_eq!(q.get_health(), 0);
}

#[test]
fn reads_take_only_their_variant() {
    let mut p = PlayerState::new_player_1();
    assert!(!p.read_pos(&Packet::Health(3)));
    assert!(!p.read_health(&Packet::Time(3)));
    assert_eq!(p, PlayerState::new_player_1());
    assert!(p.read_health(&Packet::Health(3)));
    assert_eq!(p.health, 3);
    assert!(p.read_pos(&Packet::Player { pos: v(1.0, 2.0), target: v(3.0, 4.0) }));
    assert_eq!(p.pos, v(1.0, 2.0));
    assert_eq!(p.target, v(3.0, 4.0));
    assert_eq!(p.health, 3);
}

#[test]
fn server_lifecycle() {
    let mut s = Session::new();
    assert_eq!(s.phase, SessionPhase::AwaitingPlayer1);
    let first = s.connect();
    assert_eq!(first, vec![Delivery { slot: Slot::One, packet: spawn_1_packet() }]);
    assert_eq!(s.phase, SessionPhase::AwaitingPlayer2);
    let second = s.connect();
    assert_eq!(
        second,
        vec![
            Delivery { slot: Slot::Two, packet: spawn_2_packet() },
            Delivery { slot: Slot::One, packet: spawn_2_packet() },
            Delivery { slot: Slot::Two, packet: spawn_1_packet() },
        ]
    );
    let mut ticks = Vec::new();
    while let SessionPhase::Countdown(_) = s.phase {
        let (out, pause) = s.countdown_tick();
        assert_eq!(out.len(), 2);
        assert_eq!(out[0].slot, Slot::One);
        assert_eq!(out[1].slot, Slot::Two);
        assert_eq!(out[0].packet, out[1].packet);
        ticks.push((out[0].packet, pause));
    }
    assert_eq!(
        ticks,
        vec![
            (Packet::Time(3), true),
            (Packet::Time(2), true),
            (Packet::Time(1), true),
            (Packet::Time(0), false),
        ]
    );
    assert_eq!(s.phase, SessionPhase::Active);

    s.record_pos(Slot::One, &Ok(Packet::Player { pos: v(1.0, 1.0), target: v(2.0, 2.0) }));
    s.record_health(Slot::One, &Ok(Packet::Health(60)));
    assert_eq!(s.player_1.pos, v(1.0, 1.0));
    assert_eq!(s.player_2.health, 60);
    assert_eq!(
        s.relay(),
        vec![
            Delivery { slot: Slot::One, packet: spawn_2_packet() },
            Delivery { slot: Slot::Two, packet: Packet::Player { pos: v(1.0, 1.0), target: v(2.0, 2.0) } },
            Delivery { slot: Slot::One, packet: Packet::Health(100) },
            Delivery { slot: Slot::Two, packet: Packet::Health(60) },
        ]
    );

    s.record_send(Slot::One, &Err(ChannelError::Codec));
    assert!(!s.closed_1);
    s.record_pos(Slot::Two, &Err(ChannelError::Codec));
    assert!(!s.closed_2);
    s.record_send(Slot::One, &Err(io_error()));
    assert!(s.closed_1 && !s.is_over());
    assert_eq!(s.phase, SessionPhase::Active);
    s.record_health(Slot::Two, &Err(io_error()));
    assert!(s.is_over());
    assert_eq!(s.phase, SessionPhase::Terminated);

    s.reset();
    assert_eq!(s, Session::new());
    assert_eq!(s.connect(), vec![Delivery { slot: Slot::One, packet: spawn_1_packet() }]);
}

#[test]
fn server_send_success_changes_nothing() {
    let mut s = Session::new();
    s.record_send(Slot::Two, &Ok(()));
    assert_eq!(s, Session::new());
}

#[test]
fn client_lobby_to_play() {
    let mut c = ClientMatch::new();
    assert_eq!(c.phase, ClientPhase::Lobby);
    assert_eq!(c.winner, Winner::Nobody);
    assert!(!c.join(&Ok(Packet::Time(3))));
    assert!(!c.join(&Err(io_error())));
    assert_eq!(c, ClientMatch::new());
    assert!(c.join(&Ok(spawn_2_packet())));
    assert_eq!(c.phase, ClientPhase::Wait);
    assert_eq!(c.player.write_pos(), spawn_2_packet());
    assert!(!c.wait_poll(&Err(ChannelError::Codec)));
    assert!(c.wait_poll(&Ok(spawn_1_packet())));
    assert_eq!(c.phase, ClientPhase::Countdown);
    assert_eq!(c.enemy.write_pos(), spawn_1_packet());
    assert_eq!(c.countdown, 3);
    assert!(!c.countdown_poll(&Ok(Packet::Time(2))));
    assert_eq!(c.countdown, 2);
    assert!(!c.countdown_poll(&Err(ChannelError::Codec)));
    assert!(!c.countdown_poll(&Ok(Packet::Health(0))));
    assert_eq!(c.countdown, 2);
    assert!(c.countdown_poll(&Ok(Packet::Time(0))));
    assert_eq!(c.phase, ClientPhase::Play);
}

#[test]
fn countdown_zero_alone_starts_play() {
    let mut c = ClientMatch::new();
    c.join(&Ok(spawn_1_packet()));
    c.wait_poll(&Ok(spawn_2_packet()));
    assert!(c.countdown_poll(&Ok(Packet::Time(0))));
    assert_eq!(c.phase, ClientPhase::Play);
}

#[test]
fn play_frame_reports_self_and_enemy_health() {
    let mut c = ClientMatch::new();
    c.join(&Ok(spawn_1_packet()));
    c.wait_poll(&Ok(spawn_2_packet()));
    c.countdown_poll(&Ok(Packet::Time(0)));
    let hurt = c.play_receive(&Ok(Packet::Player { pos: v(0.0, -10.0), target: v(0.0, 1.0) }), &Ok(Packet::Health(80)));
    assert!(hurt);
    assert_eq!(c.player.health, 80);
    assert_eq!(c.enemy.pos, v(0.0, -10.0));
    assert!(!c.play_receive(&Err(ChannelError::Codec), &Ok(Packet::Health(80))));
    let out = c.play_frame(v(1.0, 17.0), v(1.0, 16.0), true);
    assert_eq!(out, vec![Packet::Player { pos: v(1.0, 17.0), target: v(1.0, 16.0) }, Packet::Health(90)]);
    let out = c.play_frame(v(1.0, 17.0), v(1.0, 16.0), false);
    assert_eq!(out[1], Packet::Health(90));
    assert!(!c.check_game_over());
    assert_eq!(c.phase, ClientPhase::Play);
}

#[test]
fn own_health_zero_loses() {
    let mut c = ClientMatch::new();
    c.join(&Ok(spawn_1_packet()));
    c.wait_poll(&Ok(spawn_2_packet()));
    c.countdown_poll(&Ok(Packet::Time(0)));
    c.play_receive(&Err(ChannelError::Codec), &Ok(Packet::Health(0)));
    assert!(c.check_game_over());
    assert_eq!(c.phase, ClientPhase::Lobby);
    assert_eq!(c.winner, Winner::Enemy);
}

#[test]
fn enemy_health_zero_wins() {
    let mut c = ClientMatch::new();
    c.join(&Ok(spawn_1_packet()));
    c.wait_poll(&Ok(spawn_2_packet()));
    c.countdown_poll(&Ok(Packet::Time(0)));
    for _ in 0..10 {
        c.play_frame(v(0.0, 18.0), v(0.0, -1.0), true);
    }
    assert_eq!(c.enemy.health, 0);
    assert!(c.check_game_over());
    assert_eq!(c.winner, Winner::Player);
    assert_eq!(c.phase, ClientPhase::Lobby);
}

/// Carries a session's deliveries to two clients' inboxes as bytes.
fn carry(out: &[Delivery], c1: &mut Channel<()>, c2: &mut Channel<()>) {
    for d in out {
        let bytes = encode(&d.packet);
        match d.slot {
            Slot::One => c1.receive_bytes(&bytes),
            Slot::Two => c2.receive_bytes(&bytes),
        }
    }
}

fn next(c: &mut Channel<()>) -> Result<Packet, ChannelError> {
    c.next_packet().unwrap_or(Err(ChannelError::Codec))
}

#[test]
fn end_to_end_match() {
    let mut server = Session::new();
    let mut to_1 = Channel::with_stream(());
    let mut to_2 = Channel::with_stream(());
    let mut client_1 = ClientMatch::new();
    let mut client_2 = ClientMatch::new();

    carry(&server.connect(), &mut to_1, &mut to_2);
    assert!(client_1.join(&next(&mut to_1)));
    carry(&server.connect(), &mut to_1, &mut to_2);
    assert!(client_2.join(&next(&mut to_2)));
    assert_eq!(client_1.player.write_pos(), spawn_1_packet());
    assert_eq!(client_2.player.write_pos(), spawn_2_packet());

    assert!(client_1.wait_poll(&next(&mut to_1)));
    assert!(client_2.wait_poll(&next(&mut to_2)));
    assert_eq!(client_1.enemy.write_pos(), client_2.player.write_pos());
    assert_eq!(client_2.enemy.write_pos(), client_1.player.write_pos());

    while let SessionPhase::Countdown(_) = server.phase {
        let (out, _) = server.countdown_tick();
        carry(&out, &mut to_1, &mut to_2);
        client_1.countdown_poll(&next(&mut to_1));
        client_2.countdown_poll(&next(&mut to_2));
    }
    assert_eq!(client_1.phase, ClientPhase::Play);
    assert_eq!(client_2.phase, ClientPhase::Play);

    // Client 2 lands ten hits on client 1.
    let mut to_server_1 = Channel::with_stream(());
    let mut to_server_2 = Channel::with_stream(());
    let mut ended_1 = false;
    let mut ended_2 = false;
    for _ in 0..12 {
        if !ended_1 {
            client_1.play_receive(&next(&mut to_1), &next(&mut to_1));
            for p in client_1.play_frame(v(0.0, 18.0), v(0.0, -1.0), false) {
                to_server_1.receive_bytes(&encode(&p));
            }
            ended_1 = client_1.check_game_over();
        }
        if !ended_2 {
            client_2.play_receive(&next(&mut to_2), &next(&mut to_2));
            for p in client_2.play_frame(v(0.0, -18.0), v(0.0, 1.0), true) {
                to_server_2.receive_bytes(&encode(&p));
            }
            ended_2 = client_2.check_game_over();
        }
        server.record_pos(Slot::One, &next(&mut to_server_1));
        server.record_pos(Slot::Two, &next(&mut to_server_2));
        server.record_health(Slot::One, &next(&mut to_server_1));
        server.record_health(Slot::Two, &next(&mut to_server_2));
        carry(&server.relay(), &mut to_1, &mut to_2);
    }
    assert_eq!(server.player_1.health, 0);
    assert!(ended_1 && ended_2);
    assert_eq!(client_1.winner, Winner::Enemy);
    assert_eq!(client_2.winner, Winner::Player);
}
