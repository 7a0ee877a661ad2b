use remote_mouse::codec::{
    decode_frame, encode_click, encode_move, ButtonKind, InputEvent, ProtocolError,
};

#[test]
fn decode_move_frame() {
    let frame: Vec<u8> = vec![0x01, 1, 0, 0, 0, 2, 0, 0, 0];
    assert_eq!(decode_frame(&frame), Ok(Some(InputEvent::Move { dx: 1, dy: 2 })));
}

#[test]
fn decode_move_frame_negative() {
    let mut frame: Vec<u8> = vec![0x01];
    frame.extend_from_slice(&(-7i32).to_le_bytes());
    frame.extend_from_slice(&(-300i32).to_le_bytes());
    assert_eq!(decode_frame(&frame), Ok(Some(InputEvent::Move { dx: -7, dy: -300 })));
}

#[test]
fn decode_click_left() {
    assert_eq!(
        decode_frame(&[0x03, 1]),
        Ok(Some(InputEvent::Click { button: ButtonKind::Left }))
    );
}

#[test]
fn decode_click_middle() {
    assert_eq!(
        decode_frame(&[0x03, 2]),
        Ok(Some(InputEvent::Click { button: ButtonKind::Middle }))
    );
}

#[test]
fn decode_click_right() {
    assert_eq!(
        decode_frame(&[0x03, 3]),
        Ok(Some(InputEvent::Click { button: ButtonKind::Right }))
    );
}

#[test]
fn decode_unknown_button_is_malformed() {
    assert_eq!(decode_frame(&[0x03, 4]), Err(ProtocolError::Malformed));
    assert_eq!(decode_frame(&[0x03, 0]), Err(ProtocolError::Malformed));
}

#[test]
fn decode_unknown_tag_is_malformed() {
    assert_eq!(decode_frame(&[0x02, 1]), Err(ProtocolError::Malformed));
    assert_eq!(decode_frame(&[0xff]), Err(ProtocolError::Malformed));
}

#[test]
fn decode_wrong_length_is_malformed() {
    // A move tag with a truncated payload.
    assert_eq!(decode_frame(&[0x01, 1, 0, 0, 0]), Err(ProtocolError::Malformed));
    // A move tag with an oversized payload.
    assert_eq!(
        decode_frame(&[0x01, 1, 0, 0, 0, 2, 0, 0, 0, 9]),
        Err(ProtocolError::Malformed)
    );
    // A click tag alone.
    assert_eq!(decode_frame(&[0x03]), Err(ProtocolError::Malformed));
}

#[test]
fn decode_empty_is_noop() {
    assert_eq!(decode_frame(&[]), Ok(None));
}

#[test]
fn encode_move_exact_bytes() {
    assert_eq!(encode_move(1, 2), vec![0x01, 1, 0, 0, 0, 2, 0, 0, 0]);
    assert_eq!(
        encode_move(-1, 256),
        vec![0x01, 0xff, 0xff, 0xff, 0xff, 0, 1, 0, 0]
    );
}

#[test]
fn encode_then_decode_move_round_trip() {
    for &(dx, dy) in &[(0, 0), (1, 2), (-5, 7), (i32::MAX, i32::MIN), (-1, -1)] {
        let frame = encode_move(dx, dy);
        assert_eq!(frame.len(), 9);
        assert_eq!(decode_frame(&frame), Ok(Some(InputEvent::Move { dx, dy })));
    }
}

#[test]
fn decode_then_encode_move_round_trip() {
    let frame: Vec<u8> = vec![0x01, 0xd6, 0xff, 0xff, 0xff, 0x2c, 0x01, 0x00, 0x00];
    match decode_frame(&frame) {
        Ok(Some(InputEvent::Move { dx, dy })) => {
            assert_eq!((dx, dy), (-42, 300));
            assert_eq!(encode_move(dx, dy), frame);
        },
        other => panic!("expected a move event, got {:?}", other),
    }
}

#[test]
fn encode_then_decode_click_round_trip() {
    for &b in &[ButtonKind::Left, ButtonKind::Middle, ButtonKind::Right] {
        let frame = encode_click(b);
        assert_eq!(frame.len(), 2);
        assert_eq!(decode_frame(&frame), Ok(Some(InputEvent::Click { button: b })));
    }
}
