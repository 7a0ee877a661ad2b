//! Wire format of the input protocol.
//!
//! One transport message carries one complete frame:
//!
//! | tag    | payload                              | total length | meaning |
//! |--------|--------------------------------------|--------------|---------|
//! | `0x01` | `dx: i32` LE, `dy: i32` LE           | 9 bytes      | move    |
//! | `0x03` | `button: u8` (1 left, 2 middle, 3 right) | 2 bytes  | click   |
//!
//! An empty message is a no-op; any other tag, an unknown button code, or a
//! wrong length for a recognized tag is malformed. Decoding is pure and
//! stateless.
//!
//! The button codes are normative for this protocol: 1 is left, 2 is
//! middle, 3 is right. Clients have disagreed on whether 2 meant middle or
//! right; a client that deviates from this table gets a rejected frame,
//! never a wrong button.

use vstd::prelude::*;
use vstd::bytes::{
    lemma_auto_spec_u32_to_from_le_bytes, spec_u32_from_le_bytes, spec_u32_to_le_bytes,
    u32_from_le_bytes, u32_to_le_bytes,
};
use vstd::slice::slice_subrange;

verus! {

/// A pointer button a client can ask the host to press.
#[derive(Clone, Copy, PartialEq, Eq, Structural, Debug)]
pub enum ButtonKind {
    Left,
    Right,
    Middle,
}

/// One decoded input event.
#[derive(Clone, Copy, PartialEq, Eq, Structural, Debug)]
pub enum InputEvent {
    /// Relative cursor displacement; signed, unbounded by the protocol.
    Move { dx: i32, dy: i32 },
    /// Press immediately followed by release of one button.
    Click { button: ButtonKind },
}

/// Why a frame was rejected.
#[derive(Clone, Copy, PartialEq, Eq, Structural, Debug)]
pub enum ProtocolError {
    /// Unknown tag, unknown button code, or wrong length for a known tag.
    Malformed,
}

pub const MOVE_TAG: u8 = 0x01;
pub const CLICK_TAG: u8 = 0x03;
pub const MOVE_FRAME_LEN: usize = 9;
pub const CLICK_FRAME_LEN: usize = 2;

/// The signed value that a `u32` holds when read as a two's-complement `i32`.
pub open spec fn signed_of(u: u32) -> int {
    if u < 0x8000_0000 {
        u as int
    } else {
        u as int - 0x1_0000_0000
    }
}

/// The two's-complement `u32` representation of an `i32`.
pub open spec fn unsigned_of(x: i32) -> u32 {
    (if x >= 0 {
        x as int
    } else {
        x as int + 0x1_0000_0000
    }) as u32
}

/// Reading a representation back gives the represented value.
pub proof fn lemma_signed_unsigned_inverse(x: i32)
    ensures
        signed_of(unsigned_of(x)) == x as int,
{
}

/// The wire code of a button, and which codes are valid.
pub open spec fn button_code(b: ButtonKind) -> u8 {
    match b {
        ButtonKind::Left => 1,
        ButtonKind::Middle => 2,
        ButtonKind::Right => 3,
    }
}

pub open spec fn button_of_code(c: u8) -> Option<ButtonKind> {
    if c == 1 {
        Some(ButtonKind::Left)
    } else if c == 2 {
        Some(ButtonKind::Middle)
    } else if c == 3 {
        Some(ButtonKind::Right)
    } else {
        None
    }
}

/// What decoding one complete message yields: `Ok(None)` for the empty
/// no-op message, `Ok(Some(event))` for a valid frame, `Err` otherwise.
pub open spec fn decode_spec(data: Seq<u8>) -> Result<Option<InputEvent>, ProtocolError> {
    if data.len() == 0 {
        Ok(None)
    } else if data[0] == MOVE_TAG && data.len() == MOVE_FRAME_LEN {
        Ok(
            Some(
                InputEvent::Move {
                    dx: signed_of(spec_u32_from_le_bytes(data.subrange(1, 5))) as i32,
                    dy: signed_of(spec_u32_from_le_bytes(data.subrange(5, 9))) as i32,
                },
            ),
        )
    } else if data[0] == CLICK_TAG && data.len() == CLICK_FRAME_LEN {
        match button_of_code(data[1]) {
            Some(b) => Ok(Some(InputEvent::Click { button: b })),
            None => Err(ProtocolError::Malformed),
        }
    } else {
        Err(ProtocolError::Malformed)
    }
}

/// The 9 bytes of a move frame carrying `(dx, dy)`.
pub open spec fn encode_move_spec(dx: i32, dy: i32) -> Seq<u8> {
    seq![MOVE_TAG] + spec_u32_to_le_bytes(unsigned_of(dx)) + spec_u32_to_le_bytes(unsigned_of(dy))
}

/// The 2 bytes of a click frame carrying `b`.
pub open spec fn encode_click_spec(b: ButtonKind) -> Seq<u8> {
    seq![CLICK_TAG, button_code(b)]
}

fn i32_from_u32(u: u32) -> (r: i32)
    ensures
        r as int == signed_of(u),
{
    if u < 0x8000_0000 {
        u as i32
    } else {
        -((0xffff_ffffu32 - u) as i32) - 1
    }
}

fn u32_from_i32(x: i32) -> (r: u32)
    ensures
        r == unsigned_of(x),
{
    if x >= 0 {
        x as u32
    } else {
        0xffff_ffffu32 - ((-(x + 1)) as u32)
    }
}

/// Decode one complete message, exactly as [`decode_spec`] says.
pub fn decode_frame(data: &[u8]) -> (r: Result<Option<InputEvent>, ProtocolError>)
    ensures
        r == decode_spec(data@),
{
    if data.len() == 0 {
        Ok(None)
    } else if data[0] == MOVE_TAG && data.len() == MOVE_FRAME_LEN {
        let dx = i32_from_u32(u32_from_le_bytes(slice_subrange(data, 1, 5)));
        let dy = i32_from_u32(u32_from_le_bytes(slice_subrange(data, 5, 9)));
        Ok(Some(InputEvent::Move { dx, dy }))
    } else if data[0] == CLICK_TAG && data.len() == CLICK_FRAME_LEN {
        if data[1] == 1 {
            Ok(Some(InputEvent::Click { button: ButtonKind::Left }))
        } else if data[1] == 2 {
            Ok(Some(InputEvent::Click { button: ButtonKind::Middle }))
        } else if data[1] == 3 {
            Ok(Some(InputEvent::Click { button: ButtonKind::Right }))
        } else {
            Err(ProtocolError::Malformed)
        }
    } else {
        Err(ProtocolError::Malformed)
    }
}

/// Encode a move event, exactly as [`encode_move_spec`] says.
pub fn encode_move(dx: i32, dy: i32) -> (r: Vec<u8>)
    ensures
        r@ == encode_move_spec(dx, dy),
        r@.len() == MOVE_FRAME_LEN,
{
    proof {
        lemma_auto_spec_u32_to_from_le_bytes();
    }
    let mut out: Vec<u8> = Vec::new();
    out.push(MOVE_TAG);
    let mut xb = u32_to_le_bytes(u32_from_i32(dx));
    let mut yb = u32_to_le_bytes(u32_from_i32(dy));
    out.append(&mut xb);
    out.append(&mut yb);
    proof {
        assert(out@ =~= encode_move_spec(dx, dy));
    }
    out
}

/// Encode a click event, exactly as [`encode_click_spec`] says.
pub fn encode_click(b: ButtonKind) -> (r: Vec<u8>)
    ensures
        r@ == encode_click_spec(b),
        r@.len() == CLICK_FRAME_LEN,
{
    let mut out: Vec<u8> = Vec::new();
    out.push(CLICK_TAG);
    match b {
        ButtonKind::Left => out.push(1),
        ButtonKind::Middle => out.push(2),
        ButtonKind::Right => out.push(3),
    }
    proof {
        assert(out@ =~= encode_click_spec(b));
    }
    out
}

/// Round trip, value to bytes: a move event survives encoding and decoding.
pub proof fn lemma_move_encode_decode(dx: i32, dy: i32)
    ensures
        decode_spec(encode_move_spec(dx, dy)) == Ok::<_, ProtocolError>(
            Some(InputEvent::Move { dx, dy }),
        ),
{
    lemma_auto_spec_u32_to_from_le_bytes();
    let data = encode_move_spec(dx, dy);
    assert(data.subrange(1, 5) =~= spec_u32_to_le_bytes(unsigned_of(dx)));
    assert(data.subrange(5, 9) =~= spec_u32_to_le_bytes(unsigned_of(dy)));
    lemma_signed_unsigned_inverse(dx);
    lemma_signed_unsigned_inverse(dy);
}

/// Round trip, bytes to value: decoding any valid move frame and re-encoding
/// the event yields the identical 9 bytes.
pub proof fn lemma_move_decode_encode(data: Seq<u8>)
    requires
        data.len() == MOVE_FRAME_LEN,
        data[0] == MOVE_TAG,
    ensures
        ({
            let e = decode_spec(data)->Ok_0->Some_0;
            encode_move_spec(e->Move_dx, e->Move_dy) == data
        }),
{
    lemma_auto_spec_u32_to_from_le_bytes();
    let ux = spec_u32_from_le_bytes(data.subrange(1, 5));
    let uy = spec_u32_from_le_bytes(data.subrange(5, 9));
    let dx = signed_of(ux) as i32;
    let dy = signed_of(uy) as i32;
    assert(unsigned_of(dx) == ux);
    assert(unsigned_of(dy) == uy);
    assert(encode_move_spec(dx, dy) =~= data);
}

/// Round trip for click frames: a click event survives encoding and decoding.
pub proof fn lemma_click_encode_decode(b: ButtonKind)
    ensures
        decode_spec(encode_click_spec(b)) == Ok::<_, ProtocolError>(
            Some(InputEvent::Click { button: b }),
        ),
{
}

} // verus!
