//! A client's side of a match: Lobby, then Wait for the opponent, then the
//! Countdown, then Play, and back to the Lobby with an outcome.
//!
//! The match decides; the caller connects, polls the channel without
//! blocking, moves the player, tests shots against the opponent's body, and
//! hands the results in.
use vstd::prelude::*;
use crate::channel::ChannelError;
use crate::player::{after_hit, unplaced, with_health, with_state, PlayerState};
use crate::server::COUNTDOWN_START;
use crate::wire::{ChannelVector2, Packet, Winner};

verus! {

#[derive(PartialEq, Eq, Structural, Debug, Clone, Copy)]
pub enum ClientPhase {
    Lobby,
    Wait,
    Countdown,
    Play,
}

/// What one client knows of a match.
#[derive(PartialEq, Eq, Structural, Debug, Clone, Copy)]
pub struct ClientMatch {
    pub phase: ClientPhase,
    /// This client's player: position and target are its own, health is what
    /// the server last said.
    pub player: PlayerState,
    /// The opponent, as last received, with the health this client believes
    /// it has left.
    pub enemy: PlayerState,
    /// The countdown value on screen.
    pub countdown: u8,
    /// The outcome of the last match, shown in the lobby.
    pub winner: Winner,
}

pub open spec fn lobby(winner: Winner) -> ClientMatch {
    ClientMatch {
        phase: ClientPhase::Lobby,
        player: unplaced(),
        enemy: unplaced(),
        countdown: COUNTDOWN_START,
        winner,
    }
}

/// What was received is a `Player` packet.
pub open spec fn carries_position(received: Result<Packet, ChannelError>) -> bool {
    received matches Ok(Packet::Player { .. })
}

pub open spec fn join_next(s: ClientMatch, received: Result<Packet, ChannelError>) -> ClientMatch {
    match received {
        Ok(p) => if p is Player {
            ClientMatch {
                phase: ClientPhase::Wait,
                player: with_state(unplaced(), p),
                enemy: unplaced(),
                countdown: COUNTDOWN_START,
                ..s
            }
        } else {
            s
        },
        Err(_) => s,
    }
}

pub open spec fn wait_next(s: ClientMatch, received: Result<Packet, ChannelError>) -> ClientMatch {
    match received {
        Ok(p) => if p is Player {
            ClientMatch {
                phase: ClientPhase::Countdown,
                enemy: with_state(unplaced(), p),
                countdown: COUNTDOWN_START,
                ..s
            }
        } else {
            s
        },
        Err(_) => s,
    }
}

/// A `Time` packet sets the value on screen; the match starts when that
/// value is zero.
pub open spec fn countdown_next(s: ClientMatch, received: Result<Packet, ChannelError>) -> ClientMatch {
    let shown = match received {
        Ok(Packet::Time(t)) => t,
        _ => s.countdown,
    };
    ClientMatch {
        phase: if shown == 0 {
            ClientPhase::Play
        } else {
            s.phase
        },
        countdown: shown,
        ..s
    }
}

/// The opponent's position and this client's health, as received.
pub open spec fn receive_next(
    s: ClientMatch,
    enemy_update: Result<Packet, ChannelError>,
    health_update: Result<Packet, ChannelError>,
) -> ClientMatch {
    let enemy = match enemy_update {
        Ok(p) => with_state(s.enemy, p),
        Err(_) => s.enemy,
    };
    let player = match health_update {
        Ok(p) => with_health(s.player, p),
        Err(_) => s.player,
    };
    ClientMatch { enemy, player, ..s }
}

/// This client's own move, and a hit on the opponent if the shot landed.
pub open spec fn frame_next(s: ClientMatch, pos: ChannelVector2, target: ChannelVector2, hit: bool) -> ClientMatch {
    ClientMatch {
        player: PlayerState { pos, target, ..s.player },
        enemy: if hit {
            PlayerState { health: after_hit(s.enemy.health), ..s.enemy }
        } else {
            s.enemy
        },
        ..s
    }
}

/// What a client sends each frame: where it is, and the health it believes
/// its opponent has.
pub open spec fn frame_out(s: ClientMatch) -> Seq<Packet> {
    seq![Packet::Player { pos: s.player.pos, target: s.player.target }, Packet::Health(s.enemy.health)]
}

/// The match ends when this client's health is zero (the opponent won), or
/// else when the opponent's is (this client won).
pub open spec fn outcome(s: ClientMatch) -> Option<Winner> {
    if s.player.health == 0 {
        Some(Winner::Enemy)
    } else if s.enemy.health == 0 {
        Some(Winner::Player)
    } else {
        None
    }
}

impl ClientMatch {
    /// A countdown in progress never shows zero: zero starts the match.
    pub open spec fn wf(&self) -> bool {
        self.phase == ClientPhase::Countdown ==> self.countdown != 0
    }

    pub fn new() -> (r: ClientMatch)
        ensures
            r == lobby(Winner::Nobody),
            r.wf(),
    {
        ClientMatch {
            phase: ClientPhase::Lobby,
            player: PlayerState::unplaced(),
            enemy: PlayerState::unplaced(),
            countdown: COUNTDOWN_START,
            winner: Winner::Nobody,
        }
    }

    /// The first packet after connecting: a `Player` packet places this
    /// client and moves on to waiting; anything else stays in the lobby.
    pub fn join(&mut self, received: &Result<Packet, ChannelError>) -> (r: bool)
        requires
            old(self).wf(),
            old(self).phase == ClientPhase::Lobby,
        ensures
            final(self).wf(),
            r == carries_position(*received),
            *final(self) == join_next(*old(self), *received),
    {
        if let Ok(p) = received {
            if let Packet::Player { .. } = p {
                let mut player = PlayerState::unplaced();
                player.read_pos(p);
                self.player = player;
                self.enemy = PlayerState::unplaced();
                self.countdown = COUNTDOWN_START;
                self.phase = ClientPhase::Wait;
                return true;
            }
        }
        false
    }

    /// One poll while waiting: the opponent's position starts the countdown.
    pub fn wait_poll(&mut self, received: &Result<Packet, ChannelError>) -> (r: bool)
        requires
            old(self).wf(),
            old(self).phase == ClientPhase::Wait,
        ensures
            final(self).wf(),
            r == carries_position(*received),
            *final(self) == wait_next(*old(self), *received),
    {
        if let Ok(p) = received {
            if let Packet::Player { .. } = p {
                let mut enemy = PlayerState::unplaced();
                enemy.read_pos(p);
                self.enemy = enemy;
                self.countdown = COUNTDOWN_START;
                self.phase = ClientPhase::Countdown;
                return true;
            }
        }
        false
    }

    /// One poll during the countdown; says whether the match has started.
    pub fn countdown_poll(&mut self, received: &Result<Packet, ChannelError>) -> (r: bool)
        requires
            old(self).wf(),
            old(self).phase == ClientPhase::Countdown,
        ensures
            final(self).wf(),
            *final(self) == countdown_next(*old(self), *received),
            r == (final(self).phase == ClientPhase::Play),
    {
        if let Ok(Packet::Time(t)) = received {
            self.countdown = *t;
        }
        if self.countdown == 0 {
            self.phase = ClientPhase::Play;
            true
        } else {
            false
        }
    }

    /// Takes in what was polled this frame: the opponent's latest position
    /// and this client's latest health. Says whether that health went down.
    pub fn play_receive(
        &mut self,
        enemy_update: &Result<Packet, ChannelError>,
        health_update: &Result<Packet, ChannelError>,
    ) -> (r: bool)
        requires
            old(self).wf(),
        ensures
            final(self).wf(),
            *final(self) == receive_next(*old(self), *enemy_update, *health_update),
            r == (final(self).player.health < old(self).player.health),
    {
        let before = self.player.health;
        if let Ok(p) = enemy_update {
            self.enemy.read_pos(p);
        }
        if let Ok(p) = health_update {
            self.player.read_health(p);
        }
        self.player.health < before
    }

    /// Takes this client's new position and target and whether its shot hit
    /// the opponent; returns the packets to send, in order.
    pub fn play_frame(&mut self, pos: ChannelVector2, target: ChannelVector2, hit: bool) -> (r: Vec<
        Packet,
    >)
        requires
            old(self).wf(),
        ensures
            final(self).wf(),
            *final(self) == frame_next(*old(self), pos, target, hit),
            r@ == frame_out(frame_next(*old(self), pos, target, hit)),
    {
        self.player.pos = pos;
        self.player.target = target;
        if hit {
            self.enemy.decrease_health();
        }
        let mut out: Vec<Packet> = Vec::new();
        out.push(self.player.write_pos());
        out.push(self.enemy.write_health());
        assert(out@ =~= frame_out(*self));
        out
    }

    /// Ends the match if either health has run out, going back to the lobby
    /// with the outcome; says whether it ended.
    pub fn check_game_over(&mut self) -> (r: bool)
        requires
            old(self).wf(),
        ensures
            final(self).wf(),
            r == (outcome(*old(self)) is Some),
            *final(self) == match outcome(*old(self)) {
                Some(w) => lobby(w),
                None => *old(self),
            },
    {
        if self.player.get_health() == 0 {
            *self = ClientMatch { winner: Winner::Enemy, ..ClientMatch::new() };
            true
        } else if self.enemy.get_health() == 0 {
            *self = ClientMatch { winner: Winner::Player, ..ClientMatch::new() };
            true
        } else {
            false
        }
    }
}

/// Whether the countdown ends depends on the value zero alone: from any
/// countdown still showing a nonzero value, `Time(0)` starts the match,
/// whatever ticks came before or did not come, and nothing else does.
pub proof fn lemma_countdown_edge(s: ClientMatch, received: Result<Packet, ChannelError>)
    requires
        s.wf(),
        s.phase == ClientPhase::Countdown,
    ensures
        countdown_next(s, received).phase == ClientPhase::Play <==> received == Ok::<
            Packet,
            ChannelError,
        >(Packet::Time(0)),
{
}

} // verus!
