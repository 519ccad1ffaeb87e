use vstd::prelude::*;

use crate::text::{decimal, hex_digits, push_decimal, push_hex, push_str, string_of};

verus! {

/// Largest payload a single serial/TCP frame may carry.
pub const MAX_FRAME_PAYLOAD: usize = 512;

/// `std::io::Error`, carried through untouched.
#[verifier::external_type_specification]
#[verifier::external_body]
pub struct ExIoError(std::io::Error);

/// Why a byte buffer is not (yet) a complete frame.
#[derive(Debug)]
pub enum FrameError {
    /// The first two bytes are not the frame magic.
    BadMagic(u8, u8),
    /// The header announces a payload longer than `MAX_FRAME_PAYLOAD`.
    TooLarge(usize),
    /// This many more bytes are needed before the frame is complete.
    NeedMore(usize),
    /// The underlying stream failed.
    Io(std::io::Error),
}

/// `io::Error`'s `Display` text. Nothing is stated of it.
#[verifier::external_body]
pub(crate) fn io_error_text(e: &std::io::Error) -> String {
    format!("{e}")
}

/// A byte as `{:#04x}` writes it: "0x" and two lower-case hex digits.
pub open spec fn byte_hex_text(b: u8) -> Seq<char> {
    "0x"@ + hex_digits(b as nat, 2)
}

/// `text` is how `e` is shown: the fixed texts are stated in full; an I/O
/// failure is "io: " followed by the text of the underlying error.
pub open spec fn frame_message_ok(e: FrameError, text: Seq<char>) -> bool {
    match e {
        FrameError::BadMagic(a, b) => text == "bad magic: "@ + byte_hex_text(a) + " "@
            + byte_hex_text(b),
        FrameError::TooLarge(n) => text == "frame payload too large: "@ + decimal(n as nat)
            + " bytes (max 512)"@,
        FrameError::NeedMore(n) => text == "need "@ + decimal(n as nat) + " more bytes"@,
        FrameError::Io(_) => text.len() >= 4 && text.take(4) == "io: "@,
    }
}

impl FrameError {
    /// The text the error is shown with.
    pub fn message(&self) -> (r: String)
        ensures
            frame_message_ok(*self, r@),
    {
        proof {
            reveal_strlit("io: ");
        }
        match self {
            FrameError::BadMagic(a, b) => {
                let mut s = string_of("bad magic: ");
                push_str(&mut s, "0x");
                push_hex(&mut s, *a as u64, 2);
                push_str(&mut s, " ");
                push_str(&mut s, "0x");
                push_hex(&mut s, *b as u64, 2);
                assert(s@ =~= "bad magic: "@ + byte_hex_text(*a) + " "@ + byte_hex_text(*b));
                s
            },
            FrameError::TooLarge(n) => {
                let mut s = string_of("frame payload too large: ");
                push_decimal(&mut s, *n as u64);
                push_str(&mut s, " bytes (max 512)");
                s
            },
            FrameError::NeedMore(n) => {
                let mut s = string_of("need ");
                push_decimal(&mut s, *n as u64);
                push_str(&mut s, " more bytes");
                s
            },
            FrameError::Io(e) => {
                let mut s = string_of("io: ");
                let t = io_error_text(e);
                push_str(&mut s, t.as_str());
                assert(s@.take(4) =~= "io: "@);
                s
            },
        }
    }
}

} // verus!
