use vstd::prelude::*;

use crate::proto::port::string_from_utf8;
use crate::proto::wire::{
    copy_range, fields_spec, fields_view, lemma_varint_spec_bound, read_fields, read_varint,
    varint64, FieldSpec, FieldVal, FieldValue,
};
use vstd::utf8::valid_utf8;

verus! {

// ---------------------------------------------------------------------------
// Message schemas: what each known field of the radio's messages must hold
// ---------------------------------------------------------------------------

/// The messages whose fields this library checks. `Opaque` stands for a
/// nested message none of whose fields it reads: only its wire encoding is
/// checked.
#[derive(Copy, Clone, Debug, PartialEq, Eq, Structural)]
pub enum MsgKind {
    /// `Position`: a fix and its quality.
    Position,
    /// `User`: a node's identity.
    User,
    /// `Routing`: a route request or reply, or a delivery outcome.
    Routing,
    /// `RouteDiscovery`: the hops of a route and their signal.
    RouteDiscovery,
    /// `Telemetry`: a time and one family of metrics.
    Telemetry,
    /// `DeviceMetrics`: battery, voltage, channel use, uptime.
    DeviceMetrics,
    /// `AdminMessage`: the owner and configuration requests this client knows.
    AdminMessage,
    /// `Config`: one configuration section.
    Config,
    /// `Config.DeviceConfig`.
    DeviceConfig,
    /// `Config.PositionConfig`.
    PositionConfig,
    /// `Config.PowerConfig`.
    PowerConfig,
    /// `Config.NetworkConfig`.
    NetworkConfig,
    /// `Config.DisplayConfig`.
    DisplayConfig,
    /// `Config.LoRaConfig`.
    LoRaConfig,
    /// `Config.BluetoothConfig`.
    BluetoothConfig,
    /// A nested message none of whose fields this library reads.
    Opaque,
}

/// What a known field holds, and so which wire types it accepts.
#[derive(Copy, Clone, Debug, PartialEq, Eq, Structural)]
pub enum FieldKind {
    /// An integer, enum or bool: a varint.
    Varint,
    /// A `fixed32`, `sfixed32` or `float`: four bytes.
    Fixed32,
    /// A `string`: length-delimited, valid UTF-8.
    Text,
    /// `bytes`: length-delimited.
    Bytes,
    /// A nested message: length-delimited, itself fitting its schema.
    Message(MsgKind),
    /// A repeated varint: one varint, or a packed run of varints.
    PackedVarint,
    /// A repeated `fixed32`: four bytes, or a packed run of four-byte values.
    PackedFixed32,
}

/// The kind of field `n` of message `m`; `None` for a field number the
/// schema does not list, which is skipped as an unknown field.
pub open spec fn field_kind(m: MsgKind, n: nat) -> Option<FieldKind> {
    match m {
        MsgKind::Position => {
            if n == 1 || n == 2 || n == 4 || n == 7 {
                Some(FieldKind::Fixed32)
            } else if n == 3 || n == 5 || n == 6 || (8 <= n && n <= 23) {
                Some(FieldKind::Varint)
            } else {
                None
            }
        },
        MsgKind::User => {
            if (1 <= n && n <= 3) {
                Some(FieldKind::Text)
            } else if n == 4 || n == 8 {
                Some(FieldKind::Bytes)
            } else if (5 <= n && n <= 7) || n == 9 {
                Some(FieldKind::Varint)
            } else {
                None
            }
        },
        MsgKind::Routing => {
            if n == 1 || n == 2 {
                Some(FieldKind::Message(MsgKind::RouteDiscovery))
            } else if n == 3 {
                Some(FieldKind::Varint)
            } else {
                None
            }
        },
        MsgKind::RouteDiscovery => {
            if n == 1 || n == 3 {
                Some(FieldKind::PackedFixed32)
            } else if n == 2 || n == 4 {
                Some(FieldKind::PackedVarint)
            } else {
                None
            }
        },
        MsgKind::Telemetry => {
            if n == 1 {
                Some(FieldKind::Fixed32)
            } else if n == 2 {
                Some(FieldKind::Message(MsgKind::DeviceMetrics))
            } else if (3 <= n && n <= 8) {
                Some(FieldKind::Message(MsgKind::Opaque))
            } else {
                None
            }
        },
        MsgKind::DeviceMetrics => {
            if n == 1 || n == 5 {
                Some(FieldKind::Varint)
            } else if (2 <= n && n <= 4) {
                Some(FieldKind::Fixed32)
            } else {
                None
            }
        },
        MsgKind::AdminMessage => {
            if n == 32 {
                Some(FieldKind::Message(MsgKind::User))
            } else if n == 34 {
                Some(FieldKind::Message(MsgKind::Config))
            } else {
                None
            }
        },
        MsgKind::Config => {
            if n == 1 {
                Some(FieldKind::Message(MsgKind::DeviceConfig))
            } else if n == 2 {
                Some(FieldKind::Message(MsgKind::PositionConfig))
            } else if n == 3 {
                Some(FieldKind::Message(MsgKind::PowerConfig))
            } else if n == 4 {
                Some(FieldKind::Message(MsgKind::NetworkConfig))
            } else if n == 5 {
                Some(FieldKind::Message(MsgKind::DisplayConfig))
            } else if n == 6 {
                Some(FieldKind::Message(MsgKind::LoRaConfig))
            } else if n == 7 {
                Some(FieldKind::Message(MsgKind::BluetoothConfig))
            } else if (8 <= n && n <= 10) {
                Some(FieldKind::Bytes)
            } else {
                None
            }
        },
        MsgKind::DeviceConfig => {
            if n == 1 || n == 6 || n == 7 || n == 10 || n == 12 {
                Some(FieldKind::Varint)
            } else if n == 11 {
                Some(FieldKind::Text)
            } else {
                None
            }
        },
        MsgKind::PositionConfig => {
            if (1 <= n && n <= 3) || n == 5 || n == 10 || n == 11 || n == 13 {
                Some(FieldKind::Varint)
            } else {
                None
            }
        },
        MsgKind::PowerConfig => {
            if n == 1 || n == 2 || n == 4 || n == 7 || n == 8 {
                Some(FieldKind::Varint)
            } else {
                None
            }
        },
        MsgKind::NetworkConfig => {
            if n == 1 || n == 6 {
                Some(FieldKind::Varint)
            } else if (3 <= n && n <= 5) {
                Some(FieldKind::Text)
            } else {
                None
            }
        },
        MsgKind::DisplayConfig => {
            if n == 1 || n == 3 || n == 5 || n == 6 || n == 9 || n == 10 || n == 12 {
                Some(FieldKind::Varint)
            } else {
                None
            }
        },
        MsgKind::LoRaConfig => {
            if (1 <= n && n <= 5) || (7 <= n && n <= 13) || n == 15 || n == 104 || n == 105 {
                Some(FieldKind::Varint)
            } else if n == 6 || n == 14 {
                Some(FieldKind::Fixed32)
            } else if n == 103 {
                Some(FieldKind::PackedVarint)
            } else {
                None
            }
        },
        MsgKind::BluetoothConfig => {
            if (1 <= n && n <= 3) {
                Some(FieldKind::Varint)
            } else {
                None
            }
        },
        MsgKind::Opaque => None,
    }
}

/// How deep a message's nested messages go.
pub open spec fn rank(m: MsgKind) -> nat {
    match m {
        MsgKind::AdminMessage => 2,
        MsgKind::Routing => 1,
        MsgKind::Telemetry => 1,
        MsgKind::Config => 1,
        _ => 0,
    }
}

/// Whether `x` is a run of whole varints.
pub open spec fn packed_varints(x: Seq<u8>) -> bool
    decreases x.len(),
{
    if x.len() == 0 {
        true
    } else {
        match varint64(x) {
            Some((_, n)) => 1 <= n <= x.len() && packed_varints(x.skip(n as int)),
            None => false,
        }
    }
}

/// Whether the value `v` is what a field of kind `k` may hold, given what
/// nested messages must fit.
pub open spec fn value_fits(k: FieldKind, v: FieldValue) -> bool {
    match k {
        FieldKind::Varint => v is Varint,
        FieldKind::Fixed32 => v is Fixed32,
        FieldKind::Text => v matches FieldValue::Bytes(x) && valid_utf8(x),
        FieldKind::Bytes => v is Bytes,
        FieldKind::Message(_) => v is Bytes,
        FieldKind::PackedVarint => v is Varint || (v matches FieldValue::Bytes(x) && packed_varints(x)),
        FieldKind::PackedFixed32 => v is Fixed32 || (v matches FieldValue::Bytes(x) && x.len() % 4 == 0),
    }
}

/// Whether the field `f` of message `m` fits the schema: an unknown field
/// always does; a known one holds what its kind calls for, and a nested
/// message fits its own schema.
pub open spec fn field_fits(m: MsgKind, f: FieldSpec) -> bool
    decreases rank(m), 0nat,
{
    match field_kind(m, f.number) {
        None => true,
        Some(k) => value_fits(k, f.value) && match (k, f.value) {
            (FieldKind::Message(m2), FieldValue::Bytes(x)) => if rank(m2) < rank(m) {
                message_fits(m2, x)
            } else {
                false
            },
            _ => true,
        },
    }
}

/// Whether `b` decodes as message `m`: it is a well-formed run of fields
/// and each of them fits the schema.
pub open spec fn message_fits(m: MsgKind, b: Seq<u8>) -> bool
    decreases rank(m), 1nat,
{
    match fields_spec(b) {
        Some(fs) => forall|i: int| 0 <= i < fs.len() ==> field_fits(m, #[trigger] fs[i]),
        None => false,
    }
}

/// A nested message always sits lower than the message that holds it.
proof fn lemma_nested_rank(m: MsgKind, n: nat)
    ensures
        field_kind(m, n) matches Some(FieldKind::Message(m2)) ==> rank(m2) < rank(m),
{
}

/// The kind of field `n` of message `m`.
fn field_kind_of(m: MsgKind, n: u32) -> (r: Option<FieldKind>)
    ensures
        r == field_kind(m, n as nat),
{
    match m {
        MsgKind::Position => {
            if n == 1 || n == 2 || n == 4 || n == 7 {
                Some(FieldKind::Fixed32)
            } else if n == 3 || n == 5 || n == 6 || (8 <= n && n <= 23) {
                Some(FieldKind::Varint)
            } else {
                None
            }
        },
        MsgKind::User => {
            if (1 <= n && n <= 3) {
                Some(FieldKind::Text)
            } else if n == 4 || n == 8 {
                Some(FieldKind::Bytes)
            } else if (5 <= n && n <= 7) || n == 9 {
                Some(FieldKind::Varint)
            } else {
                None
            }
        },
        MsgKind::Routing => {
            if n == 1 || n == 2 {
                Some(FieldKind::Message(MsgKind::RouteDiscovery))
            } else if n == 3 {
                Some(FieldKind::Varint)
            } else {
                None
            }
        },
        MsgKind::RouteDiscovery => {
            if n == 1 || n == 3 {
                Some(FieldKind::PackedFixed32)
            } else if n == 2 || n == 4 {
                Some(FieldKind::PackedVarint)
            } else {
                None
            }
        },
        MsgKind::Telemetry => {
            if n == 1 {
                Some(FieldKind::Fixed32)
            } else if n == 2 {
                Some(FieldKind::Message(MsgKind::DeviceMetrics))
            } else if (3 <= n && n <= 8) {
                Some(FieldKind::Message(MsgKind::Opaque))
            } else {
                None
            }
        },
        MsgKind::DeviceMetrics => {
            if n == 1 || n == 5 {
                Some(FieldKind::Varint)
            } else if (2 <= n && n <= 4) {
                Some(FieldKind::Fixed32)
            } else {
                None
            }
        },
        MsgKind::AdminMessage => {
            if n == 32 {
                Some(FieldKind::Message(MsgKind::User))
            } else if n == 34 {
                Some(FieldKind::Message(MsgKind::Config))
            } else {
                None
            }
        },
        MsgKind::Config => {
            if n == 1 {
                Some(FieldKind::Message(MsgKind::DeviceConfig))
            } else if n == 2 {
                Some(FieldKind::Message(MsgKind::PositionConfig))
            } else if n == 3 {
                Some(FieldKind::Message(MsgKind::PowerConfig))
            } else if n == 4 {
                Some(FieldKind::Message(MsgKind::NetworkConfig))
            } else if n == 5 {
                Some(FieldKind::Message(MsgKind::DisplayConfig))
            } else if n == 6 {
                Some(FieldKind::Message(MsgKind::LoRaConfig))
            } else if n == 7 {
                Some(FieldKind::Message(MsgKind::BluetoothConfig))
            } else if (8 <= n && n <= 10) {
                Some(FieldKind::Bytes)
            } else {
                None
            }
        },
        MsgKind::DeviceConfig => {
            if n == 1 || n == 6 || n == 7 || n == 10 || n == 12 {
                Some(FieldKind::Varint)
            } else if n == 11 {
                Some(FieldKind::Text)
            } else {
                None
            }
        },
        MsgKind::PositionConfig => {
            if (1 <= n && n <= 3) || n == 5 || n == 10 || n == 11 || n == 13 {
                Some(FieldKind::Varint)
            } else {
                None
            }
        },
        MsgKind::PowerConfig => {
            if n == 1 || n == 2 || n == 4 || n == 7 || n == 8 {
                Some(FieldKind::Varint)
            } else {
                None
            }
        },
        MsgKind::NetworkConfig => {
            if n == 1 || n == 6 {
                Some(FieldKind::Varint)
            } else if (3 <= n && n <= 5) {
                Some(FieldKind::Text)
            } else {
                None
            }
        },
        MsgKind::DisplayConfig => {
            if n == 1 || n == 3 || n == 5 || n == 6 || n == 9 || n == 10 || n == 12 {
                Some(FieldKind::Varint)
            } else {
                None
            }
        },
        MsgKind::LoRaConfig => {
            if (1 <= n && n <= 5) || (7 <= n && n <= 13) || n == 15 || n == 104 || n == 105 {
                Some(FieldKind::Varint)
            } else if n == 6 || n == 14 {
                Some(FieldKind::Fixed32)
            } else if n == 103 {
                Some(FieldKind::PackedVarint)
            } else {
                None
            }
        },
        MsgKind::BluetoothConfig => {
            if (1 <= n && n <= 3) {
                Some(FieldKind::Varint)
            } else {
                None
            }
        },
        MsgKind::Opaque => None,
    }
}

/// Whether `x` is a run of whole varints.
fn is_packed_varints(x: &[u8]) -> (r: bool)
    ensures
        r == packed_varints(x@),
{
    let mut pos: usize = 0;
    assert(x@.skip(0) =~= x@);
    while pos < x.len()
        invariant
            pos <= x@.len(),
            packed_varints(x@) == packed_varints(x@.skip(pos as int)),
        decreases x@.len() - pos,
    {
        proof {
            lemma_varint_spec_bound(x@.skip(pos as int), 10);
        }
        match read_varint(x, pos, 10) {
            Some((_, n)) => {
                assert(x@.skip(pos as int).skip(n as int) =~= x@.skip(pos + n));
                pos = pos + n;
            },
            None => {
                return false;
            },
        }
    }
    true
}

/// Whether the bytes `x` are valid UTF-8.
fn is_utf8(x: &[u8]) -> (r: bool)
    ensures
        r == valid_utf8(x@),
{
    let copy = copy_range(x, 0, x.len());
    assert(copy@ =~= x@);
    match string_from_utf8(copy) {
        Some(_) => true,
        None => false,
    }
}

/// Whether `b` decodes as message `m` (see `message_fits`).
pub fn check_message(m: MsgKind, b: &[u8]) -> (r: bool)
    ensures
        r == message_fits(m, b@),
    decreases rank(m),
{
    let fields = match read_fields(b) {
        Some(fs) => fs,
        None => {
            return false;
        },
    };
    let ghost sfs = fields_view(fields@);
    let mut i: usize = 0;
    while i < fields.len()
        invariant
            i <= fields@.len(),
            sfs == fields_view(fields@),
            fields_spec(b@) == Some(sfs),
            forall|j: int| 0 <= j < i ==> field_fits(m, #[trigger] sfs[j]),
        decreases fields@.len() - i,
    {
        let f = &fields[i];
        assert(sfs[i as int] == f@);
        let ok = match field_kind_of(m, f.number) {
            None => true,
            Some(k) => {
                proof {
                    lemma_nested_rank(m, f.number as nat);
                }
                match (k, &f.value) {
                    (FieldKind::Varint, FieldVal::Varint(_)) => true,
                    (FieldKind::Fixed32, FieldVal::Fixed32(_)) => true,
                    (FieldKind::Text, FieldVal::Bytes(x)) => is_utf8(x.as_slice()),
                    (FieldKind::Bytes, FieldVal::Bytes(_)) => true,
                    (FieldKind::Message(m2), FieldVal::Bytes(x)) => check_message(m2, x.as_slice()),
                    (FieldKind::PackedVarint, FieldVal::Varint(_)) => true,
                    (FieldKind::PackedVarint, FieldVal::Bytes(x)) => is_packed_varints(x.as_slice()),
                    (FieldKind::PackedFixed32, FieldVal::Fixed32(_)) => true,
                    (FieldKind::PackedFixed32, FieldVal::Bytes(x)) => x.len() % 4 == 0,
                    _ => false,
                }
            },
        };
        if !ok {
            assert(!field_fits(m, sfs[i as int]));
            proof {
                let fs = fields_spec(b@)->Some_0;
                assert(fs == sfs);
                assert(!field_fits(m, fs[i as int]));
                assert(0 <= i < fs.len());
            }
            return false;
        }
        i = i + 1;
    }
    true
}

} // verus!
