use openscq30_lib::devices::soundcore::standard::packets::framing::{
    checksum, frame, marker, unframe, Direction, FramingError, FRAME_OVERHEAD, MAX_BODY_LENGTH,
};
use openscq30_lib::devices::soundcore::standard::packets::{Command, Packet};

#[test]
fn frame_is_bit_exact() {
    let packet = Packet { command: Command(1, 1), body: vec![0xaa, 0xbb] };
    let bytes = frame(Direction::Inbound, &packet).unwrap();
    assert_eq!(bytes, vec![0x09, 0xff, 0x00, 0x00, 0x01, 0x01, 0x01, 12, 0, 0xaa, 0xbb, 0x7c]);
    let bytes = frame(Direction::Outbound, &packet).unwrap();
    assert_eq!(bytes, vec![0x08, 0xee, 0x00, 0x00, 0x00, 0x01, 0x01, 12, 0, 0xaa, 0xbb, 0x69]);
    assert_eq!(bytes.len(), packet.body.len() + FRAME_OVERHEAD);
    assert_eq!(marker(Direction::Inbound), [0x09, 0xff, 0x00, 0x00, 0x01]);
}

#[test]
fn checksum_is_the_sum_modulo_256() {
    assert_eq!(checksum(&[]), 0);
    assert_eq!(checksum(&[1, 2, 3]), 6);
    assert_eq!(checksum(&[200, 100]), 44);
    assert_eq!(checksum(&[255; 256]), 0);
}

#[test]
fn unframe_inverts_frame() {
    for direction in [Direction::Inbound, Direction::Outbound] {
        for length in [0usize, 1, 93, 245, 246, 300, 1000] {
            let body: Vec<u8> = (0..length).map(|i| (i * 7 % 251) as u8).collect();
            let packet = Packet { command: Command(6, 0x81), body };
            let mut stream = frame(direction, &packet).unwrap();
            stream.extend_from_slice(&[9, 9, 9]);
            assert_eq!(unframe(direction, &stream), Ok((&[9u8, 9, 9][..], packet)));
        }
    }
}

#[test]
fn length_is_read_low_byte_first() {
    let packet = Packet { command: Command(1, 1), body: vec![0; 0x0205 - 10] };
    let bytes = frame(Direction::Inbound, &packet).unwrap();
    assert_eq!(bytes[7], 0x05);
    assert_eq!(bytes[8], 0x02);
    assert_eq!(unframe(Direction::Inbound, &bytes), Ok((&[][..], packet)));
}

#[test]
fn frames_that_are_no_frames() {
    let packet = Packet { command: Command(1, 1), body: vec![0xaa, 0xbb] };
    let good = frame(Direction::Inbound, &packet).unwrap();
    assert_eq!(unframe(Direction::Inbound, &good[..4]), Err(FramingError::Incomplete));
    assert_eq!(unframe(Direction::Inbound, &good[..8]), Err(FramingError::Incomplete));
    assert_eq!(unframe(Direction::Inbound, &good[..11]), Err(FramingError::Incomplete));
    assert_eq!(unframe(Direction::Outbound, &good), Err(FramingError::BadMarker));
    let mut bad = good.clone();
    bad[7] = 9;
    assert_eq!(unframe(Direction::Inbound, &bad), Err(FramingError::BadLength));
    let mut bad = good.clone();
    bad[10] ^= 1;
    assert_eq!(unframe(Direction::Inbound, &bad), Err(FramingError::BadChecksum));
    let mut bad = good.clone();
    bad[11] = bad[11].wrapping_add(1);
    assert_eq!(unframe(Direction::Inbound, &bad), Err(FramingError::BadChecksum));
}

#[test]
fn body_that_fits_no_frame() {
    let packet = Packet { command: Command(1, 1), body: vec![0; MAX_BODY_LENGTH + 1] };
    assert_eq!(frame(Direction::Outbound, &packet), None);
    let packet = Packet { command: Command(1, 1), body: vec![0; MAX_BODY_LENGTH] };
    let bytes = frame(Direction::Outbound, &packet).unwrap();
    assert_eq!(bytes.len(), 65535);
    assert_eq!(unframe(Direction::Outbound, &bytes), Ok((&[][..], packet)));
}
