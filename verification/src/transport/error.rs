use vstd::prelude::*;

use crate::codec::error::{frame_message_ok, io_error_text, FrameError};
use crate::text::{push_str, string_of};

verus! {

#[verifier::external_type_specification]
#[verifier::external_body]
pub struct ExSerialError(tokio_serial::Error);

/// Why a link to a radio failed after it was opened.
#[derive(Debug)]
pub enum TransportError {
    Io(std::io::Error),
    Serial(tokio_serial::Error),
    Ble(String),
    Frame(FrameError),
    Closed,
}

/// `tokio_serial::Error`'s `Display` text. Nothing is stated of it.
#[verifier::external_body]
pub(crate) fn serial_error_text(e: &tokio_serial::Error) -> String {
    format!("{e}")
}

/// `text` is how `e` is shown: a prefix naming the layer, then the cause.
pub open spec fn transport_message_ok(e: TransportError, text: Seq<char>) -> bool {
    match e {
        TransportError::Io(_) => text.len() >= 4 && text.take(4) == "io: "@,
        TransportError::Serial(_) => text.len() >= 8 && text.take(8) == "serial: "@,
        TransportError::Ble(m) => text == "ble: "@ + m@,
        TransportError::Frame(f) => text.len() >= 7 && text.take(7) == "frame: "@
            && frame_message_ok(f, text.skip(7)),
        TransportError::Closed => text == "closed"@,
    }
}

impl TransportError {
    /// The text the error is shown with.
    pub fn message(&self) -> (r: String)
        ensures
            transport_message_ok(*self, r@),
    {
        proof {
            reveal_strlit("io: ");
            reveal_strlit("serial: ");
            reveal_strlit("frame: ");
        }
        match self {
            TransportError::Io(e) => {
                let mut s = string_of("io: ");
                let t = io_error_text(e);
                push_str(&mut s, t.as_str());
                assert(s@.take(4) =~= "io: "@);
                s
            },
            TransportError::Serial(e) => {
                let mut s = string_of("serial: ");
                let t = serial_error_text(e);
                push_str(&mut s, t.as_str());
                assert(s@.take(8) =~= "serial: "@);
                s
            },
            TransportError::Ble(m) => {
                let mut s = string_of("ble: ");
                push_str(&mut s, m.as_str());
                s
            },
            TransportError::Frame(f) => {
                let mut s = string_of("frame: ");
                let t = f.message();
                push_str(&mut s, t.as_str());
                assert(s@.skip(7) =~= t@);
                assert(s@.take(7) =~= "frame: "@);
                s
            },
            TransportError::Closed => string_of("closed"),
        }
    }
}

} // verus!
