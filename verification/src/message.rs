//! The fixed 8-byte command messages the light understands.
//!
//! Every message is exactly 8 bytes. The wake message carries opcode
//! 0x80 and nothing else. A color message carries opcode 0x01, a 0xFF
//! marker in byte 1, and a 0x80 payload byte per lit channel: byte 2 is
//! the red channel, byte 3 the green channel, byte 4 the blue channel.
//! Yellow lights the red and green channels together.

use vstd::prelude::*;

verus! {

/// The colors the light can be switched to.
#[derive(Clone, Copy, Debug, PartialEq, Eq, Structural)]
pub enum Color {
    Red,
    Green,
    Yellow,
    Blue,
}

/// The wake message: opcode 0x80, payload all zero.
pub open spec fn wake_bytes() -> Seq<u8> {
    seq![0x80u8, 0u8, 0u8, 0u8, 0u8, 0u8, 0u8, 0u8]
}

/// The color message for `c`: opcode 0x01, marker 0xFF, then one 0x80
/// per lit channel (byte 2 red, byte 3 green, byte 4 blue).
pub open spec fn color_bytes(c: Color) -> Seq<u8> {
    match c {
        Color::Red => seq![0x01u8, 0xffu8, 0x80u8, 0u8, 0u8, 0u8, 0u8, 0u8],
        Color::Green => seq![0x01u8, 0xffu8, 0u8, 0x80u8, 0u8, 0u8, 0u8, 0u8],
        Color::Yellow => seq![0x01u8, 0xffu8, 0x80u8, 0x80u8, 0u8, 0u8, 0u8, 0u8],
        Color::Blue => seq![0x01u8, 0xffu8, 0u8, 0u8, 0x80u8, 0u8, 0u8, 0u8],
    }
}

/// The wake message sent before any color message.
pub fn get_first_message() -> (r: [u8; 8])
    ensures
        r@ =~= wake_bytes(),
{
    [0x80u8, 0u8, 0u8, 0u8, 0u8, 0u8, 0u8, 0u8]
}

/// The common prefix of every color message: opcode and marker set,
/// no channel lit yet.
pub fn get_color_message() -> (r: [u8; 8])
    ensures
        r@ =~= seq![0x01u8, 0xffu8, 0u8, 0u8, 0u8, 0u8, 0u8, 0u8],
{
    let mut buf = [0u8; 8];
    buf[0] = 0x01;
    buf[1] = 0xff;
    buf
}

/// The color message that lights the red channel.
pub fn get_red_message() -> (r: [u8; 8])
    ensures
        r@ =~= color_bytes(Color::Red),
{
    let mut buf = get_color_message();
    buf[2] = 0x80;
    buf
}

/// The color message that lights the green channel.
pub fn get_green_message() -> (r: [u8; 8])
    ensures
        r@ =~= color_bytes(Color::Green),
{
    let mut buf = get_color_message();
    buf[3] = 0x80;
    buf
}

/// The color message that lights the red and green channels together.
pub fn get_yellow_message() -> (r: [u8; 8])
    ensures
        r@ =~= color_bytes(Color::Yellow),
{
    let mut buf = get_color_message();
    buf[2] = 0x80;
    buf[3] = 0x80;
    buf
}

/// The color message that lights the blue channel.
pub fn get_blue_message() -> (r: [u8; 8])
    ensures
        r@ =~= color_bytes(Color::Blue),
{
    let mut buf = get_color_message();
    buf[4] = 0x80;
    buf
}

/// Every color message is exactly 8 bytes and matches the fixed
/// encoding: opcode 0x01, marker 0xFF, each channel byte either 0x80
/// (lit) or 0, and the trailing bytes zero.
pub proof fn lemma_color_message_shape(c: Color)
    ensures
        color_bytes(c).len() == 8,
        color_bytes(c)[0] == 0x01,
        color_bytes(c)[1] == 0xff,
        color_bytes(c)[2] == 0x80 <==> (c == Color::Red || c == Color::Yellow),
        color_bytes(c)[3] == 0x80 <==> (c == Color::Green || c == Color::Yellow),
        color_bytes(c)[4] == 0x80 <==> c == Color::Blue,
        color_bytes(c)[2] == 0x80 || color_bytes(c)[2] == 0,
        color_bytes(c)[3] == 0x80 || color_bytes(c)[3] == 0,
        color_bytes(c)[4] == 0x80 || color_bytes(c)[4] == 0,
        color_bytes(c)[5] == 0,
        color_bytes(c)[6] == 0,
        color_bytes(c)[7] == 0,
{
}

/// The wake message is 8 bytes: opcode 0x80, the rest zero. It does
/// not depend on the selected color.
pub proof fn lemma_wake_message_shape()
    ensures
        wake_bytes().len() == 8,
        wake_bytes()[0] == 0x80,
        forall|i: int| 1 <= i < 8 ==> wake_bytes()[i] == 0,
{
}

/// The color message for any selector.
pub fn color_message(c: Color) -> (r: [u8; 8])
    ensures
        r@ =~= color_bytes(c),
{
    match c {
        Color::Red => get_red_message(),
        Color::Green => get_green_message(),
        Color::Yellow => get_yellow_message(),
        Color::Blue => get_blue_message(),
    }
}

} // verus!
