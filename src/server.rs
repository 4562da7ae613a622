//! The server's side of a match: pairs two connections, hands out spawn
//! points, runs the countdown, relays state between the players, and starts
//! over once both have gone.
//!
//! The session decides; the caller accepts connections, sends and receives
//! packets, sleeps, and reports back what happened.
use vstd::prelude::*;
use crate::channel::ChannelError;
use crate::player::{spawn_1, spawn_2, with_health, with_state, PlayerState};
use crate::wire::Packet;

verus! {

/// The countdown's first tick.
pub const COUNTDOWN_START: u8 = 3;

/// Which of the two connections of a session.
#[derive(PartialEq, Eq, Structural, Debug, Clone, Copy)]
pub enum Slot {
    One,
    Two,
}

/// A packet to send on one connection.
#[derive(PartialEq, Eq, Structural, Debug, Clone, Copy)]
pub struct Delivery {
    pub slot: Slot,
    pub packet: Packet,
}

#[derive(PartialEq, Eq, Structural, Debug, Clone, Copy)]
pub enum SessionPhase {
    AwaitingPlayer1,
    AwaitingPlayer2,
    /// The next tick to broadcast.
    Countdown(u8),
    Active,
    Terminated,
}

/// One session: the two players' records and whether each connection has
/// closed.
#[derive(PartialEq, Eq, Structural, Debug, Clone, Copy)]
pub struct Session {
    pub phase: SessionPhase,
    pub player_1: PlayerState,
    pub player_2: PlayerState,
    pub closed_1: bool,
    pub closed_2: bool,
}

pub open spec fn deliver(slot: Slot, packet: Packet) -> Delivery {
    Delivery { slot, packet }
}

pub open spec fn state_of(p: PlayerState) -> Packet {
    Packet::Player { pos: p.pos, target: p.target }
}

/// A session waiting for its first player, with both spawn points fresh.
pub open spec fn fresh() -> Session {
    Session {
        phase: SessionPhase::AwaitingPlayer1,
        player_1: spawn_1(),
        player_2: spawn_2(),
        closed_1: false,
        closed_2: false,
    }
}

/// What is sent when a player connects: the first gets its spawn; the second
/// gets its spawn, then each learns where the other is.
pub open spec fn connect_out(s: Session) -> Seq<Delivery> {
    if s.phase == SessionPhase::AwaitingPlayer1 {
        seq![deliver(Slot::One, state_of(s.player_1))]
    } else {
        seq![
            deliver(Slot::Two, state_of(s.player_2)),
            deliver(Slot::One, state_of(s.player_2)),
            deliver(Slot::Two, state_of(s.player_1)),
        ]
    }
}

pub open spec fn connect_next(s: Session) -> Session {
    if s.phase == SessionPhase::AwaitingPlayer1 {
        Session { phase: SessionPhase::AwaitingPlayer2, ..s }
    } else {
        Session { phase: SessionPhase::Countdown(COUNTDOWN_START), ..s }
    }
}

/// The tick that a countdown phase broadcasts next.
pub open spec fn tick_of(s: Session) -> u8 {
    match s.phase {
        SessionPhase::Countdown(t) => t,
        _ => 0,
    }
}

pub open spec fn tick_out(s: Session) -> Seq<Delivery> {
    seq![
        deliver(Slot::One, Packet::Time(tick_of(s))),
        deliver(Slot::Two, Packet::Time(tick_of(s))),
    ]
}

/// Whether a second passes before the next tick: after every tick but zero.
pub open spec fn tick_pauses(s: Session) -> bool {
    tick_of(s) > 0
}

pub open spec fn tick_next(s: Session) -> Session {
    if tick_of(s) > 0 {
        Session { phase: SessionPhase::Countdown((tick_of(s) - 1) as u8), ..s }
    } else {
        Session { phase: SessionPhase::Active, ..s }
    }
}

/// One round of the match: each player learns where the other is and what
/// its own health is.
pub open spec fn relay_out(s: Session) -> Seq<Delivery> {
    seq![
        deliver(Slot::One, state_of(s.player_2)),
        deliver(Slot::Two, state_of(s.player_1)),
        deliver(Slot::One, Packet::Health(s.player_1.health)),
        deliver(Slot::Two, Packet::Health(s.player_2.health)),
    ]
}

/// The session once connection `slot` is known to be closed; with both
/// closed the session is over.
pub open spec fn closed(s: Session, slot: Slot) -> Session {
    let c1 = s.closed_1 || slot == Slot::One;
    let c2 = s.closed_2 || slot == Slot::Two;
    Session {
        phase: if c1 && c2 {
            SessionPhase::Terminated
        } else {
            s.phase
        },
        closed_1: c1,
        closed_2: c2,
        ..s
    }
}

pub open spec fn after_send(s: Session, slot: Slot, outcome: Result<(), ChannelError>) -> Session {
    match outcome {
        Err(ChannelError::Io(_)) => closed(s, slot),
        _ => s,
    }
}

/// A position read from connection `slot` moves that slot's player.
pub open spec fn after_pos(s: Session, slot: Slot, received: Result<Packet, ChannelError>) -> Session {
    match received {
        Ok(p) => if slot == Slot::One {
            Session { player_1: with_state(s.player_1, p), ..s }
        } else {
            Session { player_2: with_state(s.player_2, p), ..s }
        },
        Err(ChannelError::Io(_)) => closed(s, slot),
        Err(ChannelError::Codec) => s,
    }
}

/// A health read from connection `slot` is that player's report on its
/// opponent, and is taken as the opponent's health.
pub open spec fn after_health(s: Session, slot: Slot, received: Result<Packet, ChannelError>) -> Session {
    match received {
        Ok(p) => if slot == Slot::One {
            Session { player_2: with_health(s.player_2, p), ..s }
        } else {
            Session { player_1: with_health(s.player_1, p), ..s }
        },
        Err(ChannelError::Io(_)) => closed(s, slot),
        Err(ChannelError::Codec) => s,
    }
}

impl Session {
    pub fn new() -> (r: Session)
        ensures
            r == fresh(),
    {
        Session {
            phase: SessionPhase::AwaitingPlayer1,
            player_1: PlayerState::new_player_1(),
            player_2: PlayerState::new_player_2(),
            closed_1: false,
            closed_2: false,
        }
    }

    /// Starts over: both players back at their spawn points, both
    /// connections open, waiting for the first player.
    pub fn reset(&mut self)
        ensures
            *final(self) == fresh(),
    {
        self.phase = SessionPhase::AwaitingPlayer1;
        self.player_1.reset_player_1();
        self.player_2.reset_player_2();
        self.closed_1 = false;
        self.closed_2 = false;
    }

    pub fn is_over(&self) -> (r: bool)
        ensures
            r == (self.closed_1 && self.closed_2),
    {
        self.closed_1 && self.closed_2
    }

    /// A player has connected; returns what to send, in order.
    pub fn connect(&mut self) -> (r: Vec<Delivery>)
        requires
            old(self).phase == SessionPhase::AwaitingPlayer1 || old(self).phase
                == SessionPhase::AwaitingPlayer2,
        ensures
            r@ == connect_out(*old(self)),
            *final(self) == connect_next(*old(self)),
    {
        let mut out: Vec<Delivery> = Vec::new();
        match self.phase {
            SessionPhase::AwaitingPlayer1 => {
                out.push(Delivery { slot: Slot::One, packet: self.player_1.write_pos() });
                self.phase = SessionPhase::AwaitingPlayer2;
            },
            _ => {
                out.push(Delivery { slot: Slot::Two, packet: self.player_2.write_pos() });
                out.push(Delivery { slot: Slot::One, packet: self.player_2.write_pos() });
                out.push(Delivery { slot: Slot::Two, packet: self.player_1.write_pos() });
                self.phase = SessionPhase::Countdown(COUNTDOWN_START);
            },
        }
        assert(out@ =~= connect_out(*old(self)));
        out
    }

    /// Broadcasts the next countdown tick; says whether a second must pass
    /// before the next one. After tick zero the match is on.
    pub fn countdown_tick(&mut self) -> (r: (Vec<Delivery>, bool))
        requires
            old(self).phase is Countdown,
        ensures
            r.0@ == tick_out(*old(self)),
            r.1 == tick_pauses(*old(self)),
            *final(self) == tick_next(*old(self)),
    {
        let t: u8 = match self.phase {
            SessionPhase::Countdown(t) => t,
            _ => 0,
        };
        let mut out: Vec<Delivery> = Vec::new();
        out.push(Delivery { slot: Slot::One, packet: Packet::Time(t) });
        out.push(Delivery { slot: Slot::Two, packet: Packet::Time(t) });
        if t > 0 {
            self.phase = SessionPhase::Countdown(t - 1);
        } else {
            self.phase = SessionPhase::Active;
        }
        assert(out@ =~= tick_out(*old(self)));
        (out, t > 0)
    }

    /// What to send in one round of the match, in order.
    pub fn relay(&self) -> (r: Vec<Delivery>)
        ensures
            r@ == relay_out(*self),
    {
        let mut out: Vec<Delivery> = Vec::new();
        out.push(Delivery { slot: Slot::One, packet: self.player_2.write_pos() });
        out.push(Delivery { slot: Slot::Two, packet: self.player_1.write_pos() });
        out.push(Delivery { slot: Slot::One, packet: self.player_1.write_health() });
        out.push(Delivery { slot: Slot::Two, packet: self.player_2.write_health() });
        assert(out@ =~= relay_out(*self));
        out
    }

    fn close(&mut self, slot: Slot)
        ensures
            *final(self) == closed(*old(self), slot),
    {
        match slot {
            Slot::One => self.closed_1 = true,
            Slot::Two => self.closed_2 = true,
        }
        if self.closed_1 && self.closed_2 {
            self.phase = SessionPhase::Terminated;
        }
    }

    /// Takes note of how a send on connection `slot` went: an I/O failure
    /// closes it; a codec failure is ignored.
    pub fn record_send(&mut self, slot: Slot, outcome: &Result<(), ChannelError>)
        ensures
            *final(self) == after_send(*old(self), slot, *outcome),
    {
        if let Err(ChannelError::Io(_)) = outcome {
            self.close(slot);
        }
    }

    /// Takes what was read from connection `slot` as that player's position.
    pub fn record_pos(&mut self, slot: Slot, received: &Result<Packet, ChannelError>)
        ensures
            *final(self) == after_pos(*old(self), slot, *received),
    {
        match received {
            Ok(p) => {
                match slot {
                    Slot::One => {
                        self.player_1.read_pos(p);
                    },
                    Slot::Two => {
                        self.player_2.read_pos(p);
                    },
                }
            },
            Err(ChannelError::Io(_)) => self.close(slot),
            Err(ChannelError::Codec) => {},
        }
    }

    /// Takes what was read from connection `slot` as that player's report
    /// on its opponent's health.
    pub fn record_health(&mut self, slot: Slot, received: &Result<Packet, ChannelError>)
        ensures
            *final(self) == after_health(*old(self), slot, *received),
    {
        match received {
            Ok(p) => {
                match slot {
                    Slot::One => {
                        self.player_2.read_health(p);
                    },
                    Slot::Two => {
                        self.player_1.read_health(p);
                    },
                }
            },
            Err(ChannelError::Io(_)) => self.close(slot),
            Err(ChannelError::Codec) => {},
        }
    }
}

/// A fresh session, two connects and four ticks: each player gets its own
/// spawn point before the other's, both get the ticks three, two, one and
/// zero in that order with a pause after each but the last, and the match is
/// then on with both players at their spawn points. `reset` returns a session
/// that is over to exactly this starting state.
pub proof fn lemma_session_lifecycle()
    ensures
        ({
            let s0 = fresh();
            let s1 = connect_next(s0);
            let s2 = connect_next(s1);
            let s3 = tick_next(s2);
            let s4 = tick_next(s3);
            let s5 = tick_next(s4);
            let s6 = tick_next(s5);
            &&& connect_out(s0) == seq![deliver(Slot::One, state_of(spawn_1()))]
            &&& connect_out(s1) == seq![
                deliver(Slot::Two, state_of(spawn_2())),
                deliver(Slot::One, state_of(spawn_2())),
                deliver(Slot::Two, state_of(spawn_1())),
            ]
            &&& tick_out(s2) == seq![
                deliver(Slot::One, Packet::Time(3)),
                deliver(Slot::Two, Packet::Time(3)),
            ] && tick_pauses(s2)
            &&& tick_out(s3) == seq![
                deliver(Slot::One, Packet::Time(2)),
                deliver(Slot::Two, Packet::Time(2)),
            ] && tick_pauses(s3)
            &&& tick_out(s4) == seq![
                deliver(Slot::One, Packet::Time(1)),
                deliver(Slot::Two, Packet::Time(1)),
            ] && tick_pauses(s4)
            &&& tick_out(s5) == seq![
                deliver(Slot::One, Packet::Time(0)),
                deliver(Slot::Two, Packet::Time(0)),
            ] && !tick_pauses(s5)
            &&& s6.phase == SessionPhase::Active
            &&& s6.player_1 == spawn_1() && s6.player_2 == spawn_2()
        }),
        fresh().player_1 == spawn_1() && fresh().player_2 == spawn_2(),
{
}

/// Once both connections have closed, nothing read or sent reopens them.
pub proof fn lemma_closed_stays_closed(s: Session, slot: Slot, received: Result<Packet, ChannelError>)
    requires
        s.closed_1 && s.closed_2,
    ensures
        after_pos(s, slot, received).closed_1 && after_pos(s, slot, received).closed_2,
        after_health(s, slot, received).closed_1 && after_health(s, slot, received).closed_2,
{
}

} // verus!
