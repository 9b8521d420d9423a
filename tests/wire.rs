use mlx90393::messaging::{Error, MagneticValue, Message, PayloadError, TempValue, WireField};

fn sample() -> Message {
    Message::new(
        WireField {
            x: Some(MagneticValue::MicroTesla(94.44f32.to_bits())),
            y: None,
            z: Some(MagneticValue::MicroTesla((-0.0f32).to_bits())),
            t: Some(TempValue::Celsius(25.5f32.to_bits())),
        },
        (6.75f32.to_bits(), (-2.25f32).to_bits(), 0.0f32.to_bits()),
    )
}

type Mirror = ((Option<(u8, f32)>, Option<(u8, f32)>, Option<(u8, f32)>, Option<(u8, f32)>), (f32, f32, f32));

fn mirror(m: &Message) -> Mirror {
    let mag = |v: Option<MagneticValue>| v.map(|MagneticValue::MicroTesla(b)| (0u8, f32::from_bits(b)));
    let tmp = |v: Option<TempValue>| v.map(|TempValue::Celsius(b)| (0u8, f32::from_bits(b)));
    (
        (mag(m.field.x), mag(m.field.y), mag(m.field.z), tmp(m.field.t)),
        (
            f32::from_bits(m.position.0),
            f32::from_bits(m.position.1),
            f32::from_bits(m.position.2),
        ),
    )
}

#[test]
fn payload_matches_postcard() {
    let m = sample();
    let expected = postcard::to_allocvec(&mirror(&m)).unwrap();
    assert_eq!(m.to_payload(), expected);
}

#[test]
fn frame_matches_postcard_cobs() {
    let m = sample();
    let mut buf = [0u8; 64];
    let expected = postcard::to_slice_cobs(&mirror(&m), &mut buf).unwrap().to_vec();
    let frame = m.to_frame().unwrap();
    assert_eq!(frame, expected);
    assert_eq!(*frame.last().unwrap(), 0);
    assert!(frame[..frame.len() - 1].iter().all(|b| *b != 0));
    assert!(frame.len() <= 64);
}

#[test]
fn frame_round_trips_through_a_block() {
    let m = sample();
    let frame = m.to_frame().unwrap();
    let mut block = vec![7u8, 9, 0];
    block.extend_from_slice(&frame);
    block.extend_from_slice(&[3, 4, 0, 5]);
    block.resize(128, 0);
    assert_eq!(Message::from_block(&block), Ok(m));
}

#[test]
fn empty_field_round_trips() {
    let m = Message::new(WireField { x: None, y: None, z: None, t: None }, (0, 0, 0));
    let payload = m.to_payload();
    assert_eq!(payload.len(), 16);
    let frame = m.to_frame().unwrap();
    assert_eq!(frame.len(), 18);
    let mut block = vec![0u8];
    block.extend_from_slice(&frame);
    assert_eq!(Message::from_block(&block), Ok(m));
}

#[test]
fn block_without_delimiter_fails_to_read() {
    assert_eq!(Message::from_block(&[1, 2, 3]), Err(Error::FailedRead));
    assert_eq!(Message::from_block(&[]), Err(Error::FailedRead));
}

#[test]
fn malformed_cobs_frame_is_refused() {
    assert_eq!(Message::from_block(&[0, 5, 1, 2, 0]), Err(Error::FailedCOBSDeserialization));
}

#[test]
fn payload_errors_are_reported() {
    assert_eq!(Message::from_block(&[0, 0]), Err(Error::FailedParse(PayloadError::UnexpectedEnd)));
    assert_eq!(Message::from_block(&[0, 2, 2, 0]), Err(Error::FailedParse(PayloadError::BadOption)));
    assert_eq!(Message::from_block(&[0, 3, 1, 5, 0]), Err(Error::FailedParse(PayloadError::BadEnum)));
    assert_eq!(Message::from_payload(&[1, 0, 1, 2]), Err(PayloadError::UnexpectedEnd));
}

#[test]
fn trailing_payload_bytes_are_ignored() {
    let m = sample();
    let mut payload = m.to_payload();
    payload.extend_from_slice(&[9, 9, 9]);
    assert_eq!(Message::from_payload(&payload), Ok(m));
}
