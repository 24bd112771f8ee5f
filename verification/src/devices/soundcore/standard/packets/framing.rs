//! Frames: how a packet travels on the byte stream.
//!
//! A frame is a five-byte marker that tells the direction, the two bytes of
//! the command, the length of the whole frame as two bytes with the low byte
//! first, the body, and one checksum byte: the sum of all bytes before it,
//! modulo 256.

use vstd::prelude::*;
use vstd::slice::slice_to_vec;

use super::parsing::{push_byte, take_bytes, take_u16_le, take_u8};
use super::{Command, Packet};

verus! {

/// Which way a frame travels.
#[derive(Clone, Copy, Debug, PartialEq, Eq, Hash, Structural)]
pub enum Direction {
    /// From the device.
    Inbound,
    /// To the device.
    Outbound,
}

/// Why no packet could be taken off the stream.
#[derive(Clone, Copy, Debug, PartialEq, Eq, Structural)]
pub enum FramingError {
    /// The stream ends before the frame does.
    Incomplete,
    /// The stream does not start with the marker of the direction.
    BadMarker,
    /// The length field is smaller than the smallest frame.
    BadLength,
    /// The checksum byte is not the sum of the bytes before it.
    BadChecksum,
}

/// Bytes of a frame around its body: marker, command, length and checksum.
pub const FRAME_OVERHEAD: usize = 10;

/// Largest body that fits a frame, whose length field holds two bytes.
pub const MAX_BODY_LENGTH: usize = 65525;

/// The marker that frames of a direction start with.
pub open spec fn spec_marker(direction: Direction) -> Seq<u8> {
    match direction {
        Direction::Inbound => seq![0x09u8, 0xffu8, 0x00u8, 0x00u8, 0x01u8],
        Direction::Outbound => seq![0x08u8, 0xeeu8, 0x00u8, 0x00u8, 0x00u8],
    }
}

/// The sum of bytes modulo 256.
pub open spec fn spec_checksum(bytes: Seq<u8>) -> u8
    decreases bytes.len(),
{
    if bytes.len() == 0 {
        0
    } else {
        ((spec_checksum(bytes.drop_last()) + bytes.last()) % 256) as u8
    }
}

/// A frame without its checksum byte.
pub open spec fn spec_frame_head(direction: Direction, command: Command, body: Seq<u8>) -> Seq<u8> {
    spec_marker(direction) + seq![command.0, command.1] + seq![
        ((body.len() + 10) % 256) as u8,
        ((body.len() + 10) / 256) as u8,
    ] + body
}

/// The frame of a packet.
pub open spec fn spec_frame(direction: Direction, command: Command, body: Seq<u8>) -> Seq<u8> {
    spec_frame_head(direction, command, body) + seq![
        spec_checksum(spec_frame_head(direction, command, body)),
    ]
}

/// What taking one frame off the front of a stream yields: the unread rest,
/// the command and the body, or why there is no packet.
pub open spec fn spec_unframe(direction: Direction, input: Seq<u8>) -> Result<
    (Seq<u8>, Command, Seq<u8>),
    FramingError,
> {
    let length = input[7] + 256 * input[8];
    if input.len() < 5 {
        Err(FramingError::Incomplete)
    } else if input.take(5) != spec_marker(direction) {
        Err(FramingError::BadMarker)
    } else if input.len() < 9 {
        Err(FramingError::Incomplete)
    } else if length < 10 {
        Err(FramingError::BadLength)
    } else if input.len() < length {
        Err(FramingError::Incomplete)
    } else if spec_checksum(input.take(length - 1)) != input[length - 1] {
        Err(FramingError::BadChecksum)
    } else {
        Ok((input.skip(length), Command(input[5], input[6]), input.subrange(9, length - 1)))
    }
}

/// The marker that frames of a direction start with.
pub fn marker(direction: Direction) -> (r: [u8; 5])
    ensures
        r@ == spec_marker(direction),
{
    broadcast use vstd::array::group_array_axioms;

    let bytes: [u8; 5] = match direction {
        Direction::Inbound => [0x09u8, 0xffu8, 0x00u8, 0x00u8, 0x01u8],
        Direction::Outbound => [0x08u8, 0xeeu8, 0x00u8, 0x00u8, 0x00u8],
    };
    assert(bytes@ =~= spec_marker(direction));
    bytes
}

/// The sum of bytes modulo 256.
pub fn checksum(bytes: &[u8]) -> (r: u8)
    ensures
        r == spec_checksum(bytes@),
{
    let mut sum: u8 = 0;
    let mut i: usize = 0;
    while i < bytes.len()
        invariant
            i <= bytes@.len(),
            sum == spec_checksum(bytes@.take(i as int)),
        decreases bytes@.len() - i,
    {
        proof {
            let next = bytes@.take(i + 1);
            assert(next.drop_last() =~= bytes@.take(i as int));
            assert(next.last() == bytes@[i as int]);
        }
        sum = ((sum as u16 + bytes[i] as u16) % 256) as u8;
        i = i + 1;
    }
    assert(bytes@.take(i as int) =~= bytes@);
    sum
}

/// Whether a slice starts with the marker of a direction.
fn starts_with_marker(input: &[u8], direction: Direction) -> (r: bool)
    requires
        input@.len() == 5,
    ensures
        r == (input@ == spec_marker(direction)),
{
    broadcast use vstd::array::group_array_axioms;

    let expected = marker(direction);
    let mut i: usize = 0;
    while i < 5
        invariant
            i <= 5,
            input@.len() == 5,
            expected@ == spec_marker(direction),
            forall|j: int| 0 <= j < i ==> input@[j] == expected@[j],
        decreases 5 - i,
    {
        if input[i] != expected[i] {
            return false;
        }
        i = i + 1;
    }
    assert(input@ =~= expected@);
    true
}

/// Writes the frame of a packet. There is no frame for a body longer than
/// [`MAX_BODY_LENGTH`].
pub fn frame(direction: Direction, packet: &Packet) -> (r: Option<Vec<u8>>)
    ensures
        r is Some <==> packet.body@.len() <= MAX_BODY_LENGTH,
        r matches Some(bytes) ==> bytes@ == spec_frame(direction, packet.command, packet.body@),
{
    broadcast use vstd::array::group_array_axioms;

    if packet.body.len() > MAX_BODY_LENGTH {
        return None;
    }
    let length = packet.body.len() + FRAME_OVERHEAD;
    let start = marker(direction);
    let mut out: Vec<u8> = slice_to_vec(start.as_slice());
    let mut command: Vec<u8> = vec![packet.command.0, packet.command.1];
    let mut size: Vec<u8> = vec![(length % 256) as u8, (length / 256) as u8];
    let mut body = packet.body.clone();
    assert(command@ =~= seq![packet.command.0, packet.command.1]);
    assert(size@ =~= seq![
        ((packet.body@.len() + 10) % 256) as u8,
        ((packet.body@.len() + 10) / 256) as u8,
    ]);
    out.append(&mut command);
    out.append(&mut size);
    out.append(&mut body);
    let sum = checksum(out.as_slice());
    push_byte(&mut out, sum);
    Some(out)
}

/// Takes one frame off the front of a stream.
pub fn unframe<'a>(direction: Direction, input: &'a [u8]) -> (r: Result<
    (&'a [u8], Packet),
    FramingError,
>)
    ensures
        match spec_unframe(direction, input@) {
            Ok((rest, command, body)) => r matches Ok((left, packet)) && left@ == rest
                && packet.command == command && packet.body@ == body,
            Err(e) => r matches Err(found) && found == e,
        },
{
    let (after_marker, start) = match take_bytes(input, 5) {
        Ok(split) => split,
        Err(_) => return Err(FramingError::Incomplete),
    };
    if !starts_with_marker(start, direction) {
        return Err(FramingError::BadMarker);
    }
    let (after_first, first) = match take_u8(after_marker) {
        Ok(read) => read,
        Err(_) => return Err(FramingError::Incomplete),
    };
    let (after_command, second) = match take_u8(after_first) {
        Ok(read) => read,
        Err(_) => return Err(FramingError::Incomplete),
    };
    let (after_length, length) = match take_u16_le(after_command) {
        Ok(read) => read,
        Err(_) => return Err(FramingError::Incomplete),
    };
    assert(after_length@ =~= input@.skip(9));
    assert(first == input@[5] && second == input@[6]);
    assert(length == input@[7] + 256 * input@[8]);
    let length = length as usize;
    if length < FRAME_OVERHEAD {
        return Err(FramingError::BadLength);
    }
    let (after_body, body) = match take_bytes(after_length, length - FRAME_OVERHEAD) {
        Ok(split) => split,
        Err(_) => return Err(FramingError::Incomplete),
    };
    let (rest, found) = match take_u8(after_body) {
        Ok(read) => read,
        Err(_) => return Err(FramingError::Incomplete),
    };
    assert(body@ =~= input@.subrange(9, length - 1));
    assert(rest@ =~= input@.skip(length as int));
    assert(found == input@[length - 1]);
    let (_, summed) = match take_bytes(input, length - 1) {
        Ok(split) => split,
        Err(_) => return Err(FramingError::Incomplete),
    };
    if checksum(summed) != found {
        return Err(FramingError::BadChecksum);
    }
    Ok((rest, Packet { command: Command(first, second), body: slice_to_vec(body) }))
}

/// Taking a frame off a stream that starts with the frame of a packet yields
/// that packet and leaves exactly what was behind the frame.
pub proof fn lemma_unframe_inverts_frame(
    direction: Direction,
    command: Command,
    body: Seq<u8>,
    rest: Seq<u8>,
)
    requires
        body.len() <= MAX_BODY_LENGTH,
    ensures
        spec_unframe(direction, spec_frame(direction, command, body) + rest) == Ok::<
            (Seq<u8>, Command, Seq<u8>),
            FramingError,
        >((rest, command, body)),
{
    let head = spec_frame_head(direction, command, body);
    let whole = spec_frame(direction, command, body);
    let input = whole + rest;
    let length = body.len() + 10;
    assert(spec_marker(direction).len() == 5);
    assert(head.len() == 9 + body.len());
    assert(input.take(5) =~= spec_marker(direction));
    assert(input[5] == command.0 && input[6] == command.1);
    assert(input[7] == ((body.len() + 10) % 256) as u8);
    assert(input[8] == ((body.len() + 10) / 256) as u8);
    assert(input[7] + 256 * input[8] == length);
    assert(input.take(length - 1) =~= head);
    assert(input[length - 1] == spec_checksum(head));
    assert(input.skip(length as int) =~= rest);
    assert(input.subrange(9, length - 1) =~= body);
}

} // verus!
