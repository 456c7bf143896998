//! Decoding of raw input-device records and their translation into logical
//! input symbols.
//!
//! A device read yields a fixed-size binary record: a timestamp of two
//! 32-bit words, a 16-bit type code, a 16-bit sub-code, and a 32-bit signed
//! magnitude, all little-endian. The layout is a bit-exact schema of fixed
//! field offsets and sizes; nothing here trusts a host compiler's layout.
use vstd::prelude::*;

use crate::ui::Input;

verus! {

/// Size in bytes of one raw event record.
pub const EVENT_SIZE: usize = 16;

/// The timestamp of a raw event: seconds and microseconds.
#[derive(Copy, Clone, Debug, PartialEq, Eq, Structural)]
pub struct Timeval {
    pub tv_sec: i32,
    pub tv_usec: i32,
}

/// One decoded event record from an input device.
#[derive(Copy, Clone, Debug, PartialEq, Eq, Structural)]
pub struct InputEvent {
    pub time: Timeval,
    pub type_: u16,
    pub code: u16,
    pub value: i32,
}

/// Why a raw record could not be decoded.
#[derive(Copy, Clone, Debug, PartialEq, Eq, Structural)]
pub enum InputError {
    /// The read returned a byte count different from the record size.
    InvalidData,
}

/// The unsigned value of two little-endian bytes.
pub open spec fn le_u16(b0: u8, b1: u8) -> int {
    b0 + 256 * b1
}

/// The two's-complement value of four little-endian bytes.
pub open spec fn le_i32(b0: u8, b1: u8, b2: u8, b3: u8) -> int {
    let raw = b0 + 256 * b1 + 65536 * b2 + 16777216 * b3;
    if raw >= 0x8000_0000 {
        raw - 0x1_0000_0000
    } else {
        raw
    }
}

/// The event a well-sized record denotes.
pub open spec fn event_of_bytes(b: Seq<u8>) -> InputEvent {
    InputEvent {
        time: Timeval {
            tv_sec: le_i32(b[0], b[1], b[2], b[3]) as i32,
            tv_usec: le_i32(b[4], b[5], b[6], b[7]) as i32,
        },
        type_: le_u16(b[8], b[9]) as u16,
        code: le_u16(b[10], b[11]) as u16,
        value: le_i32(b[12], b[13], b[14], b[15]) as i32,
    }
}

/// Reads two little-endian bytes.
fn read_u16(b0: u8, b1: u8) -> (r: u16)
    ensures
        r as int == le_u16(b0, b1),
{
    b0 as u16 + 256 * (b1 as u16)
}

/// Reads four little-endian bytes as a signed 32-bit value.
fn read_i32(b0: u8, b1: u8, b2: u8, b3: u8) -> (r: i32)
    ensures
        r as int == le_i32(b0, b1, b2, b3),
{
    let raw: u32 = b0 as u32 + 256 * (b1 as u32) + 65536 * (b2 as u32) + 16777216 * (b3 as u32);
    let signed: i64 = if raw >= 0x8000_0000 {
        raw as i64 - 0x1_0000_0000
    } else {
        raw as i64
    };
    signed as i32
}

/// Decodes one raw record. A buffer of any length other than `EVENT_SIZE`
/// is a decoding error, never a valid event.
pub fn decode_event(buf: &[u8]) -> (r: Result<InputEvent, InputError>)
    ensures
        buf@.len() == EVENT_SIZE ==> r == Ok::<InputEvent, InputError>(event_of_bytes(buf@)),
        buf@.len() != EVENT_SIZE ==> r == Err::<InputEvent, InputError>(InputError::InvalidData),
{
    if buf.len() != EVENT_SIZE {
        return Err(InputError::InvalidData);
    }
    Ok(
        InputEvent {
            time: Timeval {
                tv_sec: read_i32(buf[0], buf[1], buf[2], buf[3]),
                tv_usec: read_i32(buf[4], buf[5], buf[6], buf[7]),
            },
            type_: read_u16(buf[8], buf[9]),
            code: read_u16(buf[10], buf[11]),
            value: read_i32(buf[12], buf[13], buf[14], buf[15]),
        },
    )
}

/// The logical symbol a rotary-encoder event denotes: a reported magnitude
/// of plus one turns Right, minus one turns Left, anything else is ignored.
pub fn encoder_input(event: &InputEvent) -> (r: Option<Input>)
    ensures
        r == (if event.value == 1 {
            Some(Input::Right)
        } else if event.value == -1 {
            Some(Input::Left)
        } else {
            None::<Input>
        }),
{
    if event.value == 1 {
        Some(Input::Right)
    } else if event.value == -1 {
        Some(Input::Left)
    } else {
        None
    }
}

/// The logical symbol a button event denotes: a reported magnitude of plus
/// one is a press, anything else is ignored.
pub fn button_input(event: &InputEvent) -> (r: Option<Input>)
    ensures
        r == (if event.value == 1 {
            Some(Input::Press)
        } else {
            None::<Input>
        }),
{
    if event.value == 1 {
        Some(Input::Press)
    } else {
        None
    }
}

} // verus!
