//! The packets exchanged between server and clients, and their byte layout.
//!
//! A packet is a little-endian `u32` variant tag followed by the variant's
//! fields at fixed widths; there is no length prefix, so the layout alone says
//! where a packet ends.
use vstd::prelude::*;

verus! {

/// A point or direction on the ground plane. Each coordinate is the bit
/// pattern of an IEEE-754 single-precision number, which is also its form on
/// the wire.
#[derive(PartialEq, Eq, Structural, Debug, Clone, Copy)]
pub struct ChannelVector2 {
    pub x: u32,
    pub z: u32,
}

/// The outcome of a match as one client sees it.
#[derive(PartialEq, Eq, Structural, Debug, Clone, Copy)]
pub enum Winner {
    Player,
    Enemy,
    Nobody,
}

/// One unit of the protocol.
#[derive(PartialEq, Eq, Structural, Debug, Clone, Copy)]
pub enum Packet {
    /// Position and look-at target of a player.
    Player { pos: ChannelVector2, target: ChannelVector2 },
    /// A countdown tick; zero starts the match.
    Time(u8),
    /// A health value.
    Health(u8),
    /// An end-of-match verdict.
    GameOver(Winner),
}

/// The four little-endian bytes of `v`.
pub open spec fn le_bytes(v: u32) -> Seq<u8> {
    seq![
        (v & 0xff) as u8,
        ((v >> 8u32) & 0xff) as u8,
        ((v >> 16u32) & 0xff) as u8,
        ((v >> 24u32) & 0xff) as u8,
    ]
}

/// The `u32` whose little-endian bytes are `b0, b1, b2, b3`.
pub open spec fn le_value(b0: u8, b1: u8, b2: u8, b3: u8) -> u32 {
    (b0 as u32) | ((b1 as u32) << 8u32) | ((b2 as u32) << 16u32) | ((b3 as u32) << 24u32)
}

/// The `u32` stored little-endian at `b[at..at + 4]`.
pub open spec fn le_at(b: Seq<u8>, at: int) -> u32 {
    le_value(b[at], b[at + 1], b[at + 2], b[at + 3])
}

pub open spec fn winner_index(w: Winner) -> u32 {
    match w {
        Winner::Player => 0,
        Winner::Enemy => 1,
        Winner::Nobody => 2,
    }
}

pub open spec fn winner_of_index(i: u32) -> Winner
    recommends
        i < 3,
{
    if i == 0 {
        Winner::Player
    } else if i == 1 {
        Winner::Enemy
    } else {
        Winner::Nobody
    }
}

pub open spec fn vector_bytes(v: ChannelVector2) -> Seq<u8> {
    le_bytes(v.x) + le_bytes(v.z)
}

/// The bytes that stand for `p` on the wire.
pub open spec fn encoding(p: Packet) -> Seq<u8> {
    match p {
        Packet::Player { pos, target } => le_bytes(0) + vector_bytes(pos) + vector_bytes(target),
        Packet::Time(t) => le_bytes(1).push(t),
        Packet::Health(h) => le_bytes(2).push(h),
        Packet::GameOver(w) => le_bytes(3) + le_bytes(winner_index(w)),
    }
}

} // verus!

verus! {

/// What the front of a byte sequence holds.
#[derive(PartialEq, Eq, Structural, Debug, Clone, Copy)]
pub enum Decoded {
    /// A whole packet, which takes the first `used` bytes.
    Complete { packet: Packet, used: usize },
    /// The bytes so far are the start of a packet that has not fully arrived.
    Incomplete,
    /// The first `used` bytes cannot begin any packet.
    Malformed { used: usize },
}

/// What the front of `b` holds, read by the layout of `encoding`.
pub open spec fn decoding(b: Seq<u8>) -> Decoded {
    if b.len() < 4 {
        Decoded::Incomplete
    } else {
        let tag = le_at(b, 0);
        if tag == 0 {
            if b.len() < 20 {
                Decoded::Incomplete
            } else {
                Decoded::Complete {
                    packet: Packet::Player {
                        pos: ChannelVector2 { x: le_at(b, 4), z: le_at(b, 8) },
                        target: ChannelVector2 { x: le_at(b, 12), z: le_at(b, 16) },
                    },
                    used: 20,
                }
            }
        } else if tag == 1 || tag == 2 {
            if b.len() < 5 {
                Decoded::Incomplete
            } else {
                Decoded::Complete {
                    packet: if tag == 1 {
                        Packet::Time(b[4])
                    } else {
                        Packet::Health(b[4])
                    },
                    used: 5,
                }
            }
        } else if tag == 3 {
            if b.len() < 8 {
                Decoded::Incomplete
            } else if le_at(b, 4) < 3 {
                Decoded::Complete { packet: Packet::GameOver(winner_of_index(le_at(b, 4))), used: 8 }
            } else {
                Decoded::Malformed { used: 8 }
            }
        } else {
            Decoded::Malformed { used: 4 }
        }
    }
}

proof fn lemma_le_round_trip(v: u32)
    ensures
        le_value(le_bytes(v)[0], le_bytes(v)[1], le_bytes(v)[2], le_bytes(v)[3]) == v,
{
    let b0 = (v & 0xff) as u8;
    let b1 = ((v >> 8u32) & 0xff) as u8;
    let b2 = ((v >> 16u32) & 0xff) as u8;
    let b3 = ((v >> 24u32) & 0xff) as u8;
    assert(b0 == (v & 0xff) as u8 && b1 == ((v >> 8u32) & 0xff) as u8 && b2 == ((v
        >> 16u32) & 0xff) as u8 && b3 == ((v >> 24u32) & 0xff) as u8 ==> (b0 as u32) | ((b1 as u32)
        << 8u32) | ((b2 as u32) << 16u32) | ((b3 as u32) << 24u32) == v) by (bit_vector);
}

/// Whatever follows a packet's bytes, decoding gives back that packet and
/// consumes exactly its bytes, leaving what follows: encoding and decoding are
/// inverse, and packets need no length prefix.
pub proof fn lemma_round_trip(p: Packet, rest: Seq<u8>)
    ensures
        decoding(encoding(p) + rest) == (Decoded::Complete { packet: p, used: encoding(p).len() as usize }),
        (encoding(p) + rest).skip(encoding(p).len() as int) == rest,
{
    assert((encoding(p) + rest).skip(encoding(p).len() as int) =~= rest);
    let b = encoding(p) + rest;
    lemma_le_round_trip(0);
    lemma_le_round_trip(1);
    lemma_le_round_trip(2);
    lemma_le_round_trip(3);
    match p {
        Packet::Player { pos, target } => {
            lemma_le_round_trip(pos.x);
            lemma_le_round_trip(pos.z);
            lemma_le_round_trip(target.x);
            lemma_le_round_trip(target.z);
            assert(le_at(b, 0) == 0);
            assert(le_at(b, 4) == pos.x);
            assert(le_at(b, 8) == pos.z);
            assert(le_at(b, 12) == target.x);
            assert(le_at(b, 16) == target.z);
        },
        Packet::Time(t) => {
            assert(le_at(b, 0) == 1);
            assert(b[4] == t);
        },
        Packet::Health(h) => {
            assert(le_at(b, 0) == 2);
            assert(b[4] == h);
        },
        Packet::GameOver(w) => {
            lemma_le_round_trip(winner_index(w));
            assert(le_at(b, 0) == 3);
            assert(le_at(b, 4) == winner_index(w));
        },
    }
}

/// A strict prefix of a packet's bytes is never taken for a packet or for
/// garbage: the reader waits for the rest.
pub proof fn lemma_prefix_incomplete(p: Packet, n: int)
    requires
        0 <= n < encoding(p).len(),
    ensures
        decoding(encoding(p).take(n)) == Decoded::Incomplete,
{
    let b = encoding(p).take(n);
    lemma_le_round_trip(0);
    lemma_le_round_trip(1);
    lemma_le_round_trip(2);
    lemma_le_round_trip(3);
    if n >= 4 {
        assert(b[0] == encoding(p)[0] && b[1] == encoding(p)[1] && b[2] == encoding(p)[2] && b[3]
            == encoding(p)[3]);
    }
}

/// Appends the little-endian bytes of `v`.
fn push_u32(out: &mut Vec<u8>, v: u32)
    ensures
        final(out)@ == old(out)@ + le_bytes(v),
{
    out.push((v & 0xff) as u8);
    out.push(((v >> 8u32) & 0xff) as u8);
    out.push(((v >> 16u32) & 0xff) as u8);
    out.push(((v >> 24u32) & 0xff) as u8);
    assert(final(out)@ =~= old(out)@ + le_bytes(v));
}

/// Reads the little-endian `u32` at `b[at..at + 4]`.
fn read_u32(b: &[u8], at: usize) -> (r: u32)
    requires
        at + 4 <= b@.len(),
    ensures
        r == le_at(b@, at as int),
{
    (b[at] as u32) | ((b[at + 1] as u32) << 8u32) | ((b[at + 2] as u32) << 16u32) | ((b[at
        + 3] as u32) << 24u32)
}

/// The bytes that stand for `packet` on the wire.
pub fn encode(packet: &Packet) -> (r: Vec<u8>)
    ensures
        r@ == encoding(*packet),
{
    let mut out: Vec<u8> = Vec::new();
    match packet {
        Packet::Player { pos, target } => {
            push_u32(&mut out, 0);
            push_u32(&mut out, pos.x);
            push_u32(&mut out, pos.z);
            push_u32(&mut out, target.x);
            push_u32(&mut out, target.z);
        },
        Packet::Time(t) => {
            push_u32(&mut out, 1);
            out.push(*t);
        },
        Packet::Health(h) => {
            push_u32(&mut out, 2);
            out.push(*h);
        },
        Packet::GameOver(w) => {
            push_u32(&mut out, 3);
            let index: u32 = match w {
                Winner::Player => 0,
                Winner::Enemy => 1,
                Winner::Nobody => 2,
            };
            push_u32(&mut out, index);
        },
    }
    assert(out@ =~= encoding(*packet));
    out
}

/// Reads the packet at the front of `bytes`, if a whole one is there.
pub fn decode(bytes: &[u8]) -> (r: Decoded)
    ensures
        r == decoding(bytes@),
{
    if bytes.len() < 4 {
        return Decoded::Incomplete;
    }
    let tag = read_u32(bytes, 0);
    if tag == 0 {
        if bytes.len() < 20 {
            Decoded::Incomplete
        } else {
            let pos = ChannelVector2 { x: read_u32(bytes, 4), z: read_u32(bytes, 8) };
            let target = ChannelVector2 { x: read_u32(bytes, 12), z: read_u32(bytes, 16) };
            Decoded::Complete { packet: Packet::Player { pos, target }, used: 20 }
        }
    } else if tag == 1 || tag == 2 {
        if bytes.len() < 5 {
            Decoded::Incomplete
        } else if tag == 1 {
            Decoded::Complete { packet: Packet::Time(bytes[4]), used: 5 }
        } else {
            Decoded::Complete { packet: Packet::Health(bytes[4]), used: 5 }
        }
    } else if tag == 3 {
        if bytes.len() < 8 {
            Decoded::Incomplete
        } else {
            let index = read_u32(bytes, 4);
            if index == 0 {
                Decoded::Complete { packet: Packet::GameOver(Winner::Player), used: 8 }
            } else if index == 1 {
                Decoded::Complete { packet: Packet::GameOver(Winner::Enemy), used: 8 }
            } else if index == 2 {
                Decoded::Complete { packet: Packet::GameOver(Winner::Nobody), used: 8 }
            } else {
                Decoded::Malformed { used: 8 }
            }
        }
    } else {
        Decoded::Malformed { used: 4 }
    }
}

} // verus!
