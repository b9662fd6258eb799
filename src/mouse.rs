use vstd::prelude::*;
use crate::transfer::{actual_length, actual_length_spec};

verus! {

/// Full scale of the absolute coordinates of a boot-protocol report.
pub const COORD_RANGE: u64 = 32768;

/// A mouse sample in screen coordinates.
#[derive(Clone, Copy, Debug, PartialEq, Eq, Structural)]
pub struct MouseEvent {
    pub x: i32,
    pub y: i32,
    pub left_button: bool,
    pub middle_button: bool,
    pub right_button: bool,
}

/// Byte `i` of the report, or 0 past its end (the buffer was zeroed).
pub open spec fn byte_or_zero(b: Seq<u8>, i: int) -> u8 {
    if i < b.len() {
        b[i]
    } else {
        0
    }
}

/// An absolute coordinate scaled to a screen of `res` pixels, clamped to
/// `[0, res - 1]` (0 when `res` is 0).
pub open spec fn scale_spec(v: int, res: int) -> int {
    let s = v * res / 32768;
    if s > res - 1 {
        if res - 1 < 0 {
            0
        } else {
            res - 1
        }
    } else {
        s
    }
}

/// The event a boot-protocol report gives on an `xres` by `yres` screen.
pub open spec fn mouse_event_spec(b: Seq<u8>, xres: u16, yres: u16) -> MouseEvent {
    let buttons = byte_or_zero(b, 0);
    let x = byte_or_zero(b, 1) as int + 256 * byte_or_zero(b, 2) as int;
    let y = byte_or_zero(b, 3) as int + 256 * byte_or_zero(b, 4) as int;
    MouseEvent {
        x: scale_spec(x, xres as int) as i32,
        y: scale_spec(y, yres as int) as i32,
        left_button: buttons & 1 == 1,
        middle_button: buttons & 4 == 4,
        right_button: buttons & 2 == 2,
    }
}

fn byte_at(b: &Vec<u8>, i: usize) -> (r: u8)
    ensures
        r == byte_or_zero(b@, i as int),
{
    if i < b.len() {
        b[i]
    } else {
        0
    }
}

/// Scales one coordinate.
pub fn scale(v: u16, res: u16) -> (r: i32)
    ensures
        r as int == scale_spec(v as int, res as int),
        0 <= r,
        res > 0 ==> r < res,
{
    assert(v as u64 * res as u64 <= 0xffff * 0xffff) by (nonlinear_arith)
        requires
            v <= 0xffff,
            res <= 0xffff,
    ;
    let p: u64 = v as u64 * res as u64;
    let s: u64 = p / COORD_RANGE;
    assert(s <= 0x20000) by (nonlinear_arith)
        requires
            p == v as u64 * res as u64,
            s == p / 32768,
            v <= 0xffff,
            res <= 0xffff,
    ;
    if res == 0 {
        0
    } else if s > res as u64 - 1 {
        (res - 1) as i32
    } else {
        s as i32
    }
}

/// Decodes a boot-protocol mouse report: buttons byte (bit0 left, bit1
/// right, bit2 middle), then absolute X and Y as little-endian 16-bit words.
pub fn decode_mouse(report: &Vec<u8>, xres: u16, yres: u16) -> (r: MouseEvent)
    ensures
        r == mouse_event_spec(report@, xres, yres),
{
    let buttons = byte_at(report, 0);
    let x = byte_at(report, 1) as u16 + 256 * (byte_at(report, 2) as u16);
    let y = byte_at(report, 3) as u16 + 256 * (byte_at(report, 4) as u16);
    MouseEvent {
        x: scale(x, xres),
        y: scale(y, yres),
        left_button: buttons & 1 == 1,
        middle_button: buttons & 4 == 4,
        right_button: buttons & 2 == 2,
    }
}

/// The event of a completed interrupt-IN transfer: none when the TD moved
/// no bytes, else the decoded report.
pub fn mouse_event_for(ctrl_sts: u32, report: &Vec<u8>, xres: u16, yres: u16) -> (r: Option<
    MouseEvent,
>)
    ensures
        actual_length_spec(ctrl_sts) == 0 ==> r is None,
        actual_length_spec(ctrl_sts) != 0 ==> r == Some(mouse_event_spec(report@, xres, yres)),
{
    if actual_length(ctrl_sts) == 0 {
        None
    } else {
        Some(decode_mouse(report, xres, yres))
    }
}

} // verus!
