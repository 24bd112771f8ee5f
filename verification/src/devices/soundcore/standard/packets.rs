//! The framed unit exchanged with a device, and what a packet type owes.

use vstd::prelude::*;

use self::parsing::{
    bool_of_byte, spec_take_all, take_agrees, take_bool, Codec, DecodeError, Layout,
};

pub mod framing;
pub mod parsing;

verus! {

/// The two-byte identifier that selects a packet type and its handler.
#[derive(Clone, Copy, Debug, PartialEq, Eq, PartialOrd, Ord, Hash, Structural)]
pub struct Command(pub u8, pub u8);

impl Command {
    /// The command as one number: the first byte counts 256.
    pub open spec fn spec_key(self) -> u16 {
        (self.0 * 256 + self.1) as u16
    }

    /// Exec counterpart of [`Command::spec_key`].
    pub fn key(&self) -> (r: u16)
        ensures
            r == self.spec_key(),
    {
        let high: u16 = self.0 as u16;
        let low: u16 = self.1 as u16;
        high * 256 + low
    }

    /// Different commands have different keys.
    pub proof fn lemma_key_identifies(a: Command, b: Command)
        ensures
            a.spec_key() == b.spec_key() <==> a == b,
    {
    }
}

/// A command and the bytes that came or go with it.
#[derive(Clone, Debug, PartialEq, Eq)]
pub struct Packet {
    pub command: Command,
    pub body: Vec<u8>,
}

/// A packet type that can be read from a body. Reading is total
/// consumption: a body with bytes left over is refused.
pub trait InboundPacket: Layout {
    fn take<'a>(input: &'a [u8]) -> (r: Result<(&'a [u8], Self), DecodeError>)
        ensures
            take_agrees(r, spec_take_all::<Self>(input@)),
    ;
}

/// A packet type that can be written: its command and its body.
pub trait OutboundPacket: Layout {
    /// The command that the packet goes out under.
    spec fn spec_command(&self) -> Command;

    fn command(&self) -> (r: Command)
        ensures
            r == self.spec_command(),
    ;

    fn body(&self) -> (r: Vec<u8>)
        ensures
            self.wf(),
            r@ == self.spec_bytes(),
    ;
}

/// What decoding a body as a `T` yields.
pub open spec fn spec_decode<T: Layout>(body: Seq<u8>) -> Result<T, DecodeError> {
    match spec_take_all::<T>(body) {
        Ok((_, value)) => Ok(value),
        Err(e) => Err(e),
    }
}

/// Decodes a whole body as a `T`: nothing may be left over.
pub fn decode_all<T: Codec>(body: &[u8]) -> (r: Result<T, DecodeError>)
    ensures
        r == spec_decode::<T>(body@),
{
    match T::take(body) {
        Ok((rest, value)) => if rest.len() > 0 {
            Err(DecodeError::TrailingData)
        } else {
            Ok(value)
        },
        Err(e) => Err(e),
    }
}

/// What decoding a body as one truth value yields.
pub open spec fn spec_decode_flag(body: Seq<u8>) -> Result<bool, DecodeError> {
    if body.len() < 1 {
        Err(DecodeError::Incomplete)
    } else if body.len() > 1 {
        Err(DecodeError::TrailingData)
    } else {
        Ok(bool_of_byte(body[0]))
    }
}

/// Exec counterpart of [`spec_decode_flag`].
pub fn decode_flag(body: &[u8]) -> (r: Result<bool, DecodeError>)
    ensures
        r == spec_decode_flag(body@),
{
    match take_bool(body) {
        Ok((rest, value)) => if rest.len() > 0 {
            Err(DecodeError::TrailingData)
        } else {
            Ok(value)
        },
        Err(e) => Err(e),
    }
}

impl Packet {
    /// Decodes the body as a `T`.
    pub fn try_into_inbound_packet<T: InboundPacket>(&self) -> (r: Result<T, DecodeError>)
        ensures
            r == spec_decode::<T>(self.body@),
    {
        match T::take(self.body.as_slice()) {
            Ok((_, value)) => Ok(value),
            Err(e) => Err(e),
        }
    }

    /// Frames what an outbound packet type writes.
    pub fn from_outbound<T: OutboundPacket>(packet: &T) -> (r: Packet)
        ensures
            r.command == packet.spec_command(),
            r.body@ == packet.spec_bytes(),
    {
        Packet { command: packet.command(), body: packet.body() }
    }
}

} // verus!
