//! The window messages that the window procedure tells apart.

use vstd::prelude::*;

verus! {

/// The identifier of the message sent while a window is created.
pub const WM_CREATE: u32 = 0x0001;

/// The identifier of the message sent when a window is destroyed.
pub const WM_DESTROY: u32 = 0x0002;

/// The identifier of the message sent after the size of a window changed.
pub const WM_SIZE: u32 = 0x0005;

/// The identifier of the message that asks a window to paint itself.
pub const WM_PAINT: u32 = 0x000F;

/// A window message, as far as the window procedure reads it.
#[derive(Clone, Copy, PartialEq, Eq, Debug)]
pub enum Message {
    /// The window is being created.
    Create,
    /// The window is being destroyed.
    Destroy,
    /// The client area has the given new size in pixels.
    Size { width: u32, height: u32 },
    /// The window is to paint itself.
    Paint,
    /// Any other message.
    Other,
}

/// The low-order word of a message parameter: its bits 0 to 15.
pub open spec fn low_word(l: int) -> int {
    l % 0x1_0000
}

/// The high-order word of a message parameter: its bits 16 to 31.
pub open spec fn high_word(l: int) -> int {
    (l / 0x1_0000) % 0x1_0000
}

/// The message with identifier `msg` and second parameter `l`. A size
/// message carries the new width in the low-order word of `l` and the new
/// height in the high-order word.
pub open spec fn decode(msg: u32, l: i64) -> Message {
    if msg == WM_CREATE {
        Message::Create
    } else if msg == WM_DESTROY {
        Message::Destroy
    } else if msg == WM_SIZE {
        Message::Size { width: low_word(l as int) as u32, height: high_word(l as int) as u32 }
    } else if msg == WM_PAINT {
        Message::Paint
    } else {
        Message::Other
    }
}

/// Reads bits 0 to 31 of a message parameter as two words: the low-order
/// word first.
fn words(l: i64) -> (pair: (u32, u32))
    ensures
        pair.0 == low_word(l as int),
        pair.1 == high_word(l as int),
{
    let bits: u64 = if l >= 0 {
        l as u64
    } else {
        ((l + 0x4000_0000_0000_0000) + 0x4000_0000_0000_0000) as u64 + 0x8000_0000_0000_0000
    };
    let low: u64 = bits % 0x1_0000;
    let high: u64 = (bits / 0x1_0000) % 0x1_0000;
    (low as u32, high as u32)
}

/// Tells the messages apart that the window procedure handles.
pub fn decode_message(msg: u32, l: i64) -> (message: Message)
    ensures
        message == decode(msg, l),
{
    if msg == WM_CREATE {
        Message::Create
    } else if msg == WM_DESTROY {
        Message::Destroy
    } else if msg == WM_SIZE {
        let (width, height) = words(l);
        Message::Size { width, height }
    } else if msg == WM_PAINT {
        Message::Paint
    } else {
        Message::Other
    }
}

} // verus!
