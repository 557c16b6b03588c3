//! Why a packet header could not be read.
use vstd::prelude::*;

verus! {

/// A header that cannot be parsed.
#[derive(Debug, Clone, Copy, PartialEq, Eq, Structural)]
pub enum PacketError {
    /// Fewer bytes than a header needs.
    WrongBufferSize,
    /// The channel byte names no channel; it is carried along.
    InvalidChannel(u8),
    /// The fragment byte names no fragment kind; it is carried along.
    InvalidFragmenttype(u8),
}

/// The uppercase hexadecimal digit of `n` (below 16).
pub open spec fn hex_digit(n: u8) -> char {
    if n < 10 {
        (48 + n) as char
    } else {
        (55 + n) as char
    }
}

/// A byte as `{:#04X}` prints it: `0x` and two uppercase hex digits.
pub open spec fn hex_byte(b: u8) -> Seq<char> {
    seq!['0', 'x', hex_digit(b / 16), hex_digit(b % 16)]
}

/// The text that describes an error.
pub open spec fn error_message(e: PacketError) -> Seq<char> {
    match e {
        PacketError::WrongBufferSize => "Buffer too short to parse packet"@,
        PacketError::InvalidChannel(b) => "Invalid channel byte received: "@ + hex_byte(b),
        PacketError::InvalidFragmenttype(b) => "Invalid fragment byte received: "@ + hex_byte(b),
    }
}

/// The one-character string of the hex digit of `n`.
fn hex_digit_str(n: u8) -> (s: &'static str)
    requires
        n < 16,
    ensures
        s@ == seq![hex_digit(n)],
{
    proof {
        reveal_strlit("0");
        reveal_strlit("1");
        reveal_strlit("2");
        reveal_strlit("3");
        reveal_strlit("4");
        reveal_strlit("5");
        reveal_strlit("6");
        reveal_strlit("7");
        reveal_strlit("8");
        reveal_strlit("9");
        reveal_strlit("A");
        reveal_strlit("B");
        reveal_strlit("C");
        reveal_strlit("D");
        reveal_strlit("E");
        reveal_strlit("F");
    }
    match n {
        0 => "0",
        1 => "1",
        2 => "2",
        3 => "3",
        4 => "4",
        5 => "5",
        6 => "6",
        7 => "7",
        8 => "8",
        9 => "9",
        10 => "A",
        11 => "B",
        12 => "C",
        13 => "D",
        14 => "E",
        _ => "F",
    }
}

/// Appends `b` as `{:#04X}` prints it.
fn append_hex_byte(text: &mut String, b: u8)
    ensures
        final(text)@ == old(text)@ + hex_byte(b),
{
    proof {
        reveal_strlit("0x");
    }
    text.append("0x");
    text.append(hex_digit_str(b / 16));
    text.append(hex_digit_str(b % 16));
    assert(text@ =~= old(text)@ + hex_byte(b));
}

impl PacketError {
    /// The text that describes the error, as it is shown to a user.
    pub fn to_string(&self) -> (s: String)
        ensures
            s@ == error_message(*self),
    {
        match self {
            PacketError::WrongBufferSize => String::from_str("Buffer too short to parse packet"),
            PacketError::InvalidChannel(b) => {
                let mut text = String::from_str("Invalid channel byte received: ");
                append_hex_byte(&mut text, *b);
                text
            },
            PacketError::InvalidFragmenttype(b) => {
                let mut text = String::from_str("Invalid fragment byte received: ");
                append_hex_byte(&mut text, *b);
                text
            },
        }
    }
}

} // verus!
