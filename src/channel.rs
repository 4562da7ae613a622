//! A duplex connection: a byte stream paired with an inbox that cuts the
//! received bytes into packets.
//!
//! Reading and writing the stream happen outside this crate; they hand the
//! bytes that arrived to `receive_bytes` and ask `next_packet` for what they
//! make up, and send what `wire::encode` gives.
use vstd::prelude::*;
use crate::wire::{decoding, Decoded, Packet, decode};

verus! {

/// Declares `std::io::Error`, which the I/O kind of `ChannelError` carries.
#[verifier::external_type_specification]
#[verifier::external_body]
pub struct ExIoError(std::io::Error);

/// The two ways a packet exchange can fail.
#[derive(Debug)]
pub enum ChannelError {
    /// The connection failed or was closed: permanent for that connection.
    Io(std::io::Error),
    /// The bytes could not be read as a packet: the next poll may do better.
    Codec,
}

impl ChannelError {
    /// Whether this failure ends the connection.
    pub fn is_io(&self) -> (r: bool)
        ensures
            r == (self is Io),
    {
        match self {
            ChannelError::Io(_) => true,
            ChannelError::Codec => false,
        }
    }
}

/// A stream and the bytes received on it that no packet has used yet.
pub struct Channel<T> {
    pub stream: T,
    /// Bytes received and not yet used by a packet, oldest first.
    pub inbox: Vec<u8>,
}

/// Copies `v[n..]`.
fn suffix(v: &Vec<u8>, n: usize) -> (r: Vec<u8>)
    requires
        n <= v@.len(),
    ensures
        r@ == v@.skip(n as int),
{
    let mut r: Vec<u8> = Vec::new();
    let mut i: usize = n;
    while i < v.len()
        invariant
            n <= i <= v@.len(),
            r@ == v@.subrange(n as int, i as int),
        decreases v@.len() - i,
    {
        r.push(v[i]);
        i = i + 1;
    }
    assert(r@ =~= v@.skip(n as int));
    r
}

impl<T> Channel<T> {
    /// The bytes received and not yet used by a packet, oldest first.
    pub open spec fn pending(&self) -> Seq<u8> {
        self.inbox@
    }

    pub fn with_stream(stream: T) -> (r: Self)
        ensures
            r.stream == stream,
            r.pending() == Seq::<u8>::empty(),
    {
        Channel { stream, inbox: Vec::new() }
    }

    /// Queues bytes that arrived on the stream.
    pub fn receive_bytes(&mut self, data: &[u8])
        ensures
            final(self).stream == old(self).stream,
            final(self).pending() == old(self).pending() + data@,
    {
        let mut i: usize = 0;
        while i < data.len()
            invariant
                i <= data@.len(),
                self.stream == old(self).stream,
                self.inbox@ == old(self).inbox@ + data@.take(i as int),
            decreases data@.len() - i,
        {
            self.inbox.push(data[i]);
            i = i + 1;
        }
        assert(data@.take(data@.len() as int) =~= data@);
    }

    /// Takes the next packet from the queued bytes. `None` while the packet
    /// at the front has not fully arrived; a codec failure, with its bytes
    /// dropped, where the front cannot begin a packet.
    pub fn next_packet(&mut self) -> (r: Option<Result<Packet, ChannelError>>)
        ensures
            final(self).stream == old(self).stream,
            match decoding(old(self).pending()) {
                Decoded::Complete { packet, used } => {
                    &&& r == Some(Ok::<Packet, ChannelError>(packet))
                    &&& final(self).pending() == old(self).pending().skip(used as int)
                },
                Decoded::Malformed { used } => {
                    &&& r == Some(Err::<Packet, ChannelError>(ChannelError::Codec))
                    &&& final(self).pending() == old(self).pending().skip(used as int)
                },
                Decoded::Incomplete => {
                    &&& r is None
                    &&& final(self).pending() == old(self).pending()
                },
            },
    {
        match decode(self.inbox.as_slice()) {
            Decoded::Complete { packet, used } => {
                self.inbox = suffix(&self.inbox, used);
                Some(Ok(packet))
            },
            Decoded::Malformed { used } => {
                self.inbox = suffix(&self.inbox, used);
                Some(Err(ChannelError::Codec))
            },
            Decoded::Incomplete => None,
        }
    }
}

} // verus!
