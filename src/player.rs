//! The replicated record of one player: where it stands, where it looks and
//! how much health it has, and how packets read and write it.
use vstd::prelude::*;
use crate::wire::{ChannelVector2, Packet};

verus! {

/// Health at spawn.
pub const FULL_HEALTH: u8 = 100;

/// Health that one hit takes away.
pub const HIT_DAMAGE: u8 = 10;

/// Bit patterns of the single-precision numbers the spawn points use.
pub const F32_ZERO: u32 = 0x0000_0000;
pub const F32_ONE: u32 = 0x3f80_0000;
pub const F32_MINUS_ONE: u32 = 0xbf80_0000;
pub const F32_EIGHTEEN: u32 = 0x4190_0000;
pub const F32_MINUS_EIGHTEEN: u32 = 0xc190_0000;

/// Position, look-at target and health of a player.
#[derive(PartialEq, Eq, Structural, Debug, Clone, Copy)]
pub struct PlayerState {
    pub pos: ChannelVector2,
    pub target: ChannelVector2,
    pub health: u8,
}

/// Slot 1 spawns at `(0, 18)` looking towards `-z`.
pub open spec fn spawn_1() -> PlayerState {
    PlayerState {
        pos: ChannelVector2 { x: F32_ZERO, z: F32_EIGHTEEN },
        target: ChannelVector2 { x: F32_ZERO, z: F32_MINUS_ONE },
        health: FULL_HEALTH,
    }
}

/// Slot 2 spawns at `(0, -18)` looking towards `+z`.
pub open spec fn spawn_2() -> PlayerState {
    PlayerState {
        pos: ChannelVector2 { x: F32_ZERO, z: F32_MINUS_EIGHTEEN },
        target: ChannelVector2 { x: F32_ZERO, z: F32_ONE },
        health: FULL_HEALTH,
    }
}

/// A player not yet placed: at the origin, looking towards `+z`.
pub open spec fn unplaced() -> PlayerState {
    PlayerState {
        pos: ChannelVector2 { x: F32_ZERO, z: F32_ZERO },
        target: ChannelVector2 { x: F32_ZERO, z: F32_ONE },
        health: FULL_HEALTH,
    }
}

/// Health after one hit: ten less, and never below zero.
pub open spec fn after_hit(h: u8) -> u8 {
    if h >= HIT_DAMAGE {
        (h - HIT_DAMAGE) as u8
    } else {
        0
    }
}

/// The record after reading `p` as a position update: a `Player` packet
/// moves it, any other leaves it as it was.
pub open spec fn with_state(s: PlayerState, p: Packet) -> PlayerState {
    match p {
        Packet::Player { pos, target } => PlayerState { pos, target, ..s },
        _ => s,
    }
}

/// The record after reading `p` as a health update.
pub open spec fn with_health(s: PlayerState, p: Packet) -> PlayerState {
    match p {
        Packet::Health(h) => PlayerState { health: h, ..s },
        _ => s,
    }
}

impl PlayerState {
    pub fn unplaced() -> (r: PlayerState)
        ensures
            r == unplaced(),
    {
        PlayerState {
            pos: ChannelVector2 { x: F32_ZERO, z: F32_ZERO },
            target: ChannelVector2 { x: F32_ZERO, z: F32_ONE },
            health: FULL_HEALTH,
        }
    }

    pub fn new_player_1() -> (r: PlayerState)
        ensures
            r == spawn_1(),
    {
        PlayerState {
            pos: ChannelVector2 { x: F32_ZERO, z: F32_EIGHTEEN },
            target: ChannelVector2 { x: F32_ZERO, z: F32_MINUS_ONE },
            health: FULL_HEALTH,
        }
    }

    pub fn reset_player_1(&mut self)
        ensures
            *final(self) == spawn_1(),
    {
        *self = PlayerState::new_player_1();
    }

    pub fn new_player_2() -> (r: PlayerState)
        ensures
            r == spawn_2(),
    {
        PlayerState {
            pos: ChannelVector2 { x: F32_ZERO, z: F32_MINUS_EIGHTEEN },
            target: ChannelVector2 { x: F32_ZERO, z: F32_ONE },
            health: FULL_HEALTH,
        }
    }

    pub fn reset_player_2(&mut self)
        ensures
            *final(self) == spawn_2(),
    {
        *self = PlayerState::new_player_2();
    }

    pub fn get_health(&self) -> (r: u8)
        ensures
            r == self.health,
    {
        self.health
    }

    /// The packet that tells the other side where this player is.
    pub fn write_pos(&self) -> (r: Packet)
        ensures
            r == (Packet::Player { pos: self.pos, target: self.target }),
    {
        Packet::Player { pos: self.pos, target: self.target }
    }

    /// The packet that carries this record's health.
    pub fn write_health(&self) -> (r: Packet)
        ensures
            r == Packet::Health(self.health),
    {
        Packet::Health(self.health)
    }

    /// Takes position and target from a `Player` packet; says whether the
    /// packet was one.
    pub fn read_pos(&mut self, packet: &Packet) -> (r: bool)
        ensures
            *final(self) == with_state(*old(self), *packet),
            r == (packet is Player),
    {
        match packet {
            Packet::Player { pos, target } => {
                self.pos = *pos;
                self.target = *target;
                true
            },
            _ => false,
        }
    }

    /// Takes health from a `Health` packet; says whether the packet was one.
    pub fn read_health(&mut self, packet: &Packet) -> (r: bool)
        ensures
            *final(self) == with_health(*old(self), *packet),
            r == (packet is Health),
    {
        match packet {
            Packet::Health(h) => {
                self.health = *h;
                true
            },
            _ => false,
        }
    }

    /// Records one hit on this player.
    pub fn decrease_health(&mut self)
        ensures
            *final(self) == (PlayerState { health: after_hit(old(self).health), ..*old(self) }),
    {
        self.health = self.health.saturating_sub(HIT_DAMAGE);
    }
}

/// Health after `n` hits.
pub open spec fn after_hits(h: u8, n: nat) -> u8
    decreases n,
{
    if n == 0 {
        h
    } else {
        after_hit(after_hits(h, (n - 1) as nat))
    }
}

/// Each hit on a living player takes health strictly down, and never below
/// zero; ten hits bring any health up to full to exactly zero.
pub proof fn lemma_ten_hits(h: u8)
    requires
        h <= FULL_HEALTH,
    ensures
        forall|n: nat|
            n < 10 && #[trigger] after_hits(h, n) > 0 ==> after_hits(h, n + 1) < after_hits(h, n),
        forall|n: nat| n <= 10 ==> #[trigger] after_hits(h, n) <= h,
        after_hits(h, 10) == 0,
{
    assert forall|n: nat| n <= 10 implies #[trigger] after_hits(h, n) as int == if h >= 10 * n {
        h - 10 * n
    } else {
        0
    } by {
        lemma_after_hits_closed(h, n);
    }
    assert forall|n: nat| n < 10 && #[trigger] after_hits(h, n) > 0 implies after_hits(h, n + 1)
        < after_hits(h, n) by {
        lemma_after_hits_closed(h, n);
        lemma_after_hits_closed(h, n + 1);
    }
}

proof fn lemma_after_hits_closed(h: u8, n: nat)
    ensures
        after_hits(h, n) as int == if h >= 10 * n {
            h - 10 * n
        } else {
            0
        },
    decreases n,
{
    if n > 0 {
        lemma_after_hits_closed(h, (n - 1) as nat);
    }
}

} // verus!
