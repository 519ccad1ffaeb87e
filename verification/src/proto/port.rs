use vstd::prelude::*;

use crate::proto::schema::{check_message, message_fits, MsgKind};
use crate::proto::wire::{read_fields, fields_spec, fields_view, Field, FieldSpec, FieldVal, FieldValue};
use vstd::utf8::{decode_utf8, valid_utf8};

verus! {

/// Port number of plain text messages.
pub const TEXT_MESSAGE_APP: i32 = 1;
/// Port number of position reports.
pub const POSITION_APP: i32 = 3;
/// Port number of node identity announcements.
pub const NODEINFO_APP: i32 = 4;
/// Port number of routing (acknowledgement) messages.
pub const ROUTING_APP: i32 = 5;
/// Port number of administration messages.
pub const ADMIN_APP: i32 = 6;
/// Port number of telemetry reports.
pub const TELEMETRY_APP: i32 = 67;

/// Why a packet payload could not be read.
#[derive(Debug, Clone, Copy, PartialEq, Eq, Structural)]
pub enum ParseError {
    /// A text payload that is not valid UTF-8.
    Utf8,
    /// A protobuf payload that is not a well-formed message.
    Proto,
}

/// The outcome a routing message reports.
#[derive(Debug, Clone, Copy, PartialEq, Eq, Structural)]
pub enum RoutingVariant {
    RouteRequest,
    RouteReply,
    /// Delivery outcome: 0 is success, anything else an error code.
    ErrorReason(i32),
}

/// A routing message.
#[derive(Debug, Clone, Copy, PartialEq, Eq, Structural)]
pub struct Routing {
    pub variant: Option<RoutingVariant>,
}

/// A packet payload, by port. Position, node-info, telemetry and admin
/// payloads are kept as their protobuf bytes, checked to decode as their
/// message.
#[derive(Debug)]
pub enum PortPayload {
    Text(String),
    Position(Vec<u8>),
    NodeInfo(Vec<u8>),
    Telemetry(Vec<u8>),
    Routing(Routing),
    Admin(Vec<u8>),
    Unknown { port: i32, bytes: Vec<u8> },
}

/// `String::from_utf8`: the text the bytes encode, when they are valid UTF-8.
#[verifier::external_body]
pub(crate) fn string_from_utf8(bytes: Vec<u8>) -> (r: Option<String>)
    ensures
        r is Some <==> valid_utf8(bytes@),
        r matches Some(s) ==> s@ == decode_utf8(bytes@),
{
    String::from_utf8(bytes).ok()
}

/// One field's effect on the routing message read so far (`None`: the
/// message is malformed). The last variant field wins; other fields are
/// skipped.
pub open spec fn routing_step(cur: Option<Option<RoutingVariant>>, f: FieldSpec) -> Option<
    Option<RoutingVariant>,
> {
    match cur {
        None => None,
        Some(v) => if f.number == 1 {
            if f.value is Bytes {
                Some(Some(RoutingVariant::RouteRequest))
            } else {
                None
            }
        } else if f.number == 2 {
            if f.value is Bytes {
                Some(Some(RoutingVariant::RouteReply))
            } else {
                None
            }
        } else if f.number == 3 {
            match f.value {
                FieldValue::Varint(x) => Some(Some(RoutingVariant::ErrorReason(x as i32))),
                _ => None,
            }
        } else {
            Some(v)
        },
    }
}

/// The routing variant the fields `fs` describe.
pub open spec fn routing_of_fields(fs: Seq<FieldSpec>) -> Option<Option<RoutingVariant>>
    decreases fs.len(),
{
    if fs.len() == 0 {
        Some(None)
    } else {
        routing_step(routing_of_fields(fs.drop_last()), fs.last())
    }
}

/// The routing message the bytes `b` hold, if they hold one.
pub open spec fn routing_spec(b: Seq<u8>) -> Option<Routing> {
    match fields_spec(b) {
        Some(fs) => match routing_of_fields(fs) {
            Some(v) => Some(Routing { variant: v }),
            None => None,
        },
        None => None,
    }
}

/// Reads a routing message.
pub fn decode_routing(b: &[u8]) -> (r: Option<Routing>)
    ensures
        r == routing_spec(b@),
{
    let fields = match read_fields(b) {
        Some(fs) => fs,
        None => {
            return None;
        },
    };
    let ghost sfs = fields_view(fields@);
    let mut cur: Option<RoutingVariant> = None;
    let mut i: usize = 0;
    while i < fields.len()
        invariant
            i <= fields@.len(),
            sfs == fields_view(fields@),
            fields_spec(b@) == Some(sfs),
            routing_of_fields(sfs.take(i as int)) == Some(cur),
        decreases fields@.len() - i,
    {
        assert(sfs.take(i + 1).drop_last() =~= sfs.take(i as int));
        assert(sfs.take(i + 1).last() == fields@[i as int]@);
        match routing_field(cur, &fields[i]) {
            Some(next) => {
                cur = next;
            },
            None => {
                proof {
                    lemma_routing_none_sticks(sfs, i as int + 1);
                }
                return None;
            },
        }
        i = i + 1;
    }
    assert(sfs.take(sfs.len() as int) =~= sfs);
    Some(Routing { variant: cur })
}

fn routing_field(cur: Option<RoutingVariant>, f: &Field) -> (r: Option<Option<RoutingVariant>>)
    ensures
        r == routing_step(Some(cur), f@),
{
    if f.number == 1 {
        match f.value {
            FieldVal::Bytes(_) => Some(Some(RoutingVariant::RouteRequest)),
            _ => None,
        }
    } else if f.number == 2 {
        match f.value {
            FieldVal::Bytes(_) => Some(Some(RoutingVariant::RouteReply)),
            _ => None,
        }
    } else if f.number == 3 {
        match f.value {
            FieldVal::Varint(x) => Some(Some(RoutingVariant::ErrorReason(x as i32))),
            _ => None,
        }
    } else {
        Some(cur)
    }
}

proof fn lemma_routing_none_sticks(fs: Seq<FieldSpec>, k: int)
    requires
        0 <= k <= fs.len(),
        routing_of_fields(fs.take(k)) is None,
    ensures
        routing_of_fields(fs) is None,
    decreases fs.len() - k,
{
    if k < fs.len() {
        assert(fs.take(k + 1).drop_last() =~= fs.take(k));
        lemma_routing_none_sticks(fs, k + 1);
    } else {
        assert(fs.take(k) =~= fs);
    }
}

/// The message a payload on `port` carries, for the ports whose payload is
/// kept as bytes.
pub open spec fn port_message(port: i32) -> MsgKind {
    if port == POSITION_APP {
        MsgKind::Position
    } else if port == NODEINFO_APP {
        MsgKind::User
    } else if port == TELEMETRY_APP {
        MsgKind::Telemetry
    } else {
        MsgKind::AdminMessage
    }
}

/// What `parse` makes of the payload `b` received on `port`.
pub open spec fn parse_ok(port: i32, b: Seq<u8>, r: Result<PortPayload, ParseError>) -> bool {
    if port == TEXT_MESSAGE_APP {
        if valid_utf8(b) {
            r matches Ok(PortPayload::Text(t)) && t@ == decode_utf8(b)
        } else {
            r == Err::<PortPayload, ParseError>(ParseError::Utf8)
        }
    } else if port == ROUTING_APP {
        match routing_spec(b) {
            Some(rt) => if message_fits(MsgKind::Routing, b) {
                r == Ok::<PortPayload, ParseError>(PortPayload::Routing(rt))
            } else {
                r == Err::<PortPayload, ParseError>(ParseError::Proto)
            },
            None => r == Err::<PortPayload, ParseError>(ParseError::Proto),
        }
    } else if port == POSITION_APP || port == NODEINFO_APP || port == TELEMETRY_APP || port
        == ADMIN_APP {
        if message_fits(port_message(port), b) {
            r matches Ok(p) && match p {
                PortPayload::Position(x) => port == POSITION_APP && x@ == b,
                PortPayload::NodeInfo(x) => port == NODEINFO_APP && x@ == b,
                PortPayload::Telemetry(x) => port == TELEMETRY_APP && x@ == b,
                PortPayload::Admin(x) => port == ADMIN_APP && x@ == b,
                _ => false,
            }
        } else {
            r == Err::<PortPayload, ParseError>(ParseError::Proto)
        }
    } else {
        r matches Ok(PortPayload::Unknown { port: p, bytes }) && p == port && bytes@ == b
    }
}

/// Interprets a packet payload by its port: text must be UTF-8, routing
/// messages are decoded, other known protobuf payloads must decode as their
/// message (see `message_fits`), and payloads on other ports are passed on
/// as they are.
pub fn parse(port: i32, bytes: &[u8]) -> (r: Result<PortPayload, ParseError>)
    ensures
        parse_ok(port, bytes@, r),
{
    let owned = crate::proto::wire::copy_range(bytes, 0, bytes.len());
    assert(owned@ =~= bytes@);
    if port == TEXT_MESSAGE_APP {
        match string_from_utf8(owned) {
            Some(s) => Ok(PortPayload::Text(s)),
            None => Err(ParseError::Utf8),
        }
    } else if port == ROUTING_APP {
        match decode_routing(bytes) {
            Some(rt) => if check_message(MsgKind::Routing, bytes) {
                Ok(PortPayload::Routing(rt))
            } else {
                Err(ParseError::Proto)
            },
            None => Err(ParseError::Proto),
        }
    } else if port == POSITION_APP || port == NODEINFO_APP || port == TELEMETRY_APP || port
        == ADMIN_APP {
        let kind = if port == POSITION_APP {
            MsgKind::Position
        } else if port == NODEINFO_APP {
            MsgKind::User
        } else if port == TELEMETRY_APP {
            MsgKind::Telemetry
        } else {
            MsgKind::AdminMessage
        };
        if !check_message(kind, bytes) {
            return Err(ParseError::Proto);
        }
        if port == POSITION_APP {
            Ok(PortPayload::Position(owned))
        } else if port == NODEINFO_APP {
            Ok(PortPayload::NodeInfo(owned))
        } else if port == TELEMETRY_APP {
            Ok(PortPayload::Telemetry(owned))
        } else {
            Ok(PortPayload::Admin(owned))
        }
    } else {
        Ok(PortPayload::Unknown { port, bytes: owned })
    }
}

} // verus!
