use vstd::prelude::*;

use crate::codec::error::{frame_message_ok, io_error_text, FrameError};
use crate::persist::error::{persist_message_ok, PersistError};
use crate::text::{push_str, string_of};
use crate::transport::error::{serial_error_text, transport_message_ok, TransportError};

verus! {

#[verifier::external_type_specification]
#[verifier::external_body]
pub struct ExEncodeError(prost::EncodeError);

#[verifier::external_type_specification]
#[verifier::external_body]
pub struct ExProtoDecodeError(prost::DecodeError);

/// What the user has to do to pair a radio on this platform.
#[derive(Debug, Copy, Clone, PartialEq, Eq, Structural)]
pub enum PairingHint {
    Macos,
    Windows,
    LinuxBluetoothctl,
}

/// Why a link to a radio could not be opened or used.
#[derive(Debug)]
pub enum ConnectError {
    BleAdapterUnavailable,
    BleDeviceNotFound(String),
    BlePairingRequired(PairingHint),
    BlePairingFailed(String),
    BleGatt(String),
    Serial(tokio_serial::Error),
    Tcp(std::io::Error),
    HandshakeTimeout,
    Codec(FrameError),
    Transport(TransportError),
    Encode(prost::EncodeError),
    Decode(prost::DecodeError),
}

/// Any failure the application reports.
#[derive(Debug)]
pub enum AppError {
    Connect(ConnectError),
    Transport(TransportError),
    Persist(PersistError),
}

/// `prost::EncodeError`'s `Display` text. Nothing is stated of it.
#[verifier::external_body]
fn encode_error_text(e: &prost::EncodeError) -> String {
    format!("{e}")
}

/// `prost::DecodeError`'s `Display` text. Nothing is stated of it.
#[verifier::external_body]
fn proto_decode_error_text(e: &prost::DecodeError) -> String {
    format!("{e}")
}

/// How a pairing hint is named in messages.
pub open spec fn hint_name(h: PairingHint) -> Seq<char> {
    match h {
        PairingHint::Macos => "Macos"@,
        PairingHint::Windows => "Windows"@,
        PairingHint::LinuxBluetoothctl => "LinuxBluetoothctl"@,
    }
}

fn hint_text(h: PairingHint) -> (r: &'static str)
    ensures
        r@ == hint_name(h),
{
    match h {
        PairingHint::Macos => "Macos",
        PairingHint::Windows => "Windows",
        PairingHint::LinuxBluetoothctl => "LinuxBluetoothctl",
    }
}

/// `text` begins with `prefix`.
pub open spec fn starts_with(text: Seq<char>, prefix: Seq<char>) -> bool {
    text.len() >= prefix.len() && text.take(prefix.len() as int) == prefix
}

/// `text` is how `e` is shown: the fixed texts are stated in full; errors
/// of the layers below are shown after a prefix naming them.
pub open spec fn connect_message_ok(e: ConnectError, text: Seq<char>) -> bool {
    match e {
        ConnectError::BleAdapterUnavailable => text == "BLE adapter unavailable"@,
        ConnectError::BleDeviceNotFound(m) => text == "BLE device not found: "@ + m@,
        ConnectError::BlePairingRequired(h) => text == "BLE pairing required ("@ + hint_name(h)
            + ")"@,
        ConnectError::BlePairingFailed(m) => text == "BLE pairing failed: "@ + m@,
        ConnectError::BleGatt(m) => text == "BLE GATT: "@ + m@,
        ConnectError::Serial(_) => starts_with(text, "serial: "@),
        ConnectError::Tcp(_) => starts_with(text, "tcp: "@),
        ConnectError::HandshakeTimeout => text == "handshake timeout"@,
        ConnectError::Codec(f) => starts_with(text, "codec: "@) && frame_message_ok(
            f,
            text.skip(7),
        ),
        ConnectError::Transport(t) => starts_with(text, "transport: "@) && transport_message_ok(
            t,
            text.skip(11),
        ),
        ConnectError::Encode(_) => starts_with(text, "encode: "@),
        ConnectError::Decode(_) => starts_with(text, "decode: "@),
    }
}

/// `s` is `prefix` followed by `rest`.
fn joined(prefix: &str, rest: &str) -> (s: String)
    ensures
        s@ == prefix@ + rest@,
{
    let mut s = string_of(prefix);
    push_str(&mut s, rest);
    s
}

impl ConnectError {
    /// The text the error is shown with.
    pub fn message(&self) -> (r: String)
        ensures
            connect_message_ok(*self, r@),
    {
        proof {
            reveal_strlit("serial: ");
            reveal_strlit("tcp: ");
            reveal_strlit("codec: ");
            reveal_strlit("transport: ");
            reveal_strlit("encode: ");
            reveal_strlit("decode: ");
        }
        match self {
            ConnectError::BleAdapterUnavailable => string_of("BLE adapter unavailable"),
            ConnectError::BleDeviceNotFound(m) => joined("BLE device not found: ", m.as_str()),
            ConnectError::BlePairingRequired(h) => {
                let mut s = string_of("BLE pairing required (");
                push_str(&mut s, hint_text(*h));
                push_str(&mut s, ")");
                s
            },
            ConnectError::BlePairingFailed(m) => joined("BLE pairing failed: ", m.as_str()),
            ConnectError::BleGatt(m) => joined("BLE GATT: ", m.as_str()),
            ConnectError::Serial(e) => {
                let t = serial_error_text(e);
                let s = joined("serial: ", t.as_str());
                assert(s@.take(8) =~= "serial: "@);
                s
            },
            ConnectError::Tcp(e) => {
                let t = io_error_text(e);
                let s = joined("tcp: ", t.as_str());
                assert(s@.take(5) =~= "tcp: "@);
                s
            },
            ConnectError::HandshakeTimeout => string_of("handshake timeout"),
            ConnectError::Codec(f) => {
                let t = f.message();
                let s = joined("codec: ", t.as_str());
                assert(s@.take(7) =~= "codec: "@);
                assert(s@.skip(7) =~= t@);
                s
            },
            ConnectError::Transport(x) => {
                let t = x.message();
                let s = joined("transport: ", t.as_str());
                assert(s@.take(11) =~= "transport: "@);
                assert(s@.skip(11) =~= t@);
                s
            },
            ConnectError::Encode(e) => {
                let t = encode_error_text(e);
                let s = joined("encode: ", t.as_str());
                assert(s@.take(8) =~= "encode: "@);
                s
            },
            ConnectError::Decode(e) => {
                let t = proto_decode_error_text(e);
                let s = joined("decode: ", t.as_str());
                assert(s@.take(8) =~= "decode: "@);
                s
            },
        }
    }
}

/// `text` is how `e` is shown: the layer's name, then its own message.
pub open spec fn app_message_ok(e: AppError, text: Seq<char>) -> bool {
    match e {
        AppError::Connect(c) => starts_with(text, "connect: "@) && connect_message_ok(
            c,
            text.skip(9),
        ),
        AppError::Transport(t) => starts_with(text, "transport: "@) && transport_message_ok(
            t,
            text.skip(11),
        ),
        AppError::Persist(p) => starts_with(text, "persist: "@) && persist_message_ok(
            p,
            text.skip(9),
        ),
    }
}

impl AppError {
    /// The text the error is shown with.
    pub fn message(&self) -> (r: String)
        ensures
            app_message_ok(*self, r@),
    {
        proof {
            reveal_strlit("connect: ");
            reveal_strlit("transport: ");
            reveal_strlit("persist: ");
        }
        match self {
            AppError::Connect(c) => {
                let t = c.message();
                let s = joined("connect: ", t.as_str());
                assert(s@.take(9) =~= "connect: "@);
                assert(s@.skip(9) =~= t@);
                s
            },
            AppError::Transport(x) => {
                let t = x.message();
                let s = joined("transport: ", t.as_str());
                assert(s@.take(11) =~= "transport: "@);
                assert(s@.skip(11) =~= t@);
                s
            },
            AppError::Persist(p) => {
                let t = p.message();
                let s = joined("persist: ", t.as_str());
                assert(s@.take(9) =~= "persist: "@);
                assert(s@.skip(9) =~= t@);
                s
            },
        }
    }
}

} // verus!
