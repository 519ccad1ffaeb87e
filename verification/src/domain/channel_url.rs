use vstd::prelude::*;

use base64::engine::general_purpose::URL_SAFE_NO_PAD;
use base64::Engine;

use crate::domain::channel::{Channel, ChannelRole, ChannelView};
use crate::domain::ids::ChannelIndex;
use crate::proto::meshtastic::{ChannelSettings, ModuleSettings};
use crate::proto::port::string_from_utf8;
use crate::proto::schema::{check_message, message_fits, MsgKind};
use crate::proto::wire::{
    fields_bytes, fields_spec, fields_view, lemma_fields_roundtrip, read_fields, write_bytes_field,
    write_varint_field, field_bytes, field_ok, Field, FieldSpec, FieldVal, FieldValue,
};
use crate::text::{
    chars_of, first_non_white, is_white, last_non_white_end, matches_at, push_str, string_from_chars,
    string_of, trim_chars, trimmed,
};
use vstd::utf8::{decode_utf8, encode_utf8, valid_utf8};

verus! {

broadcast use {vstd::utf8::encode_utf8_valid_utf8, vstd::utf8::encode_utf8_decode_utf8};

// ---------------------------------------------------------------------------
// The channel set a share link carries
// ---------------------------------------------------------------------------
//
// A share link carries a protobuf `ChannelSet`: repeated `ChannelSettings`
// (field 1) and an optional LoRa section (field 2). `ChannelSettings` has
// channel_num (1, varint), psk (2, bytes), name (3, UTF-8 string), id (4,
// fixed32), uplink_enabled (5, bool), downlink_enabled (6, bool) and
// module_settings (7, message); `ModuleSettings` has position_precision
// (1, varint) and is_muted (2, bool). As protobuf prescribes, a scalar field
// met twice keeps its last value, a message field met twice is merged, an
// unknown field is skipped and a known field with the wrong wire type makes
// the message malformed.

/// The settings of one channel as a share link carries them.
pub struct SharedChannel {
    pub psk: Seq<u8>,
    pub name: Seq<char>,
    pub uplink: bool,
    pub downlink: bool,
    /// `module_settings`, when present: position precision and muting.
    pub module: Option<(u32, bool)>,
}

/// Settings with every field at its default.
pub open spec fn empty_shared() -> SharedChannel {
    SharedChannel {
        psk: Seq::empty(),
        name: Seq::empty(),
        uplink: false,
        downlink: false,
        module: None,
    }
}

/// One field's effect on the module settings read so far.
pub open spec fn module_step(cur: Option<(u32, bool)>, f: FieldSpec) -> Option<(u32, bool)> {
    match cur {
        None => None,
        Some((p, m)) => if f.number == 1 {
            match f.value {
                FieldValue::Varint(v) => Some(((v % 0x1_0000_0000) as u32, m)),
                _ => None,
            }
        } else if f.number == 2 {
            match f.value {
                FieldValue::Varint(v) => Some((p, v != 0)),
                _ => None,
            }
        } else {
            Some((p, m))
        },
    }
}

/// The module settings after reading the fields `fs`, in order, from `cur`.
pub open spec fn module_fold(cur: Option<(u32, bool)>, fs: Seq<FieldSpec>) -> Option<(u32, bool)>
    decreases fs.len(),
{
    if fs.len() == 0 {
        cur
    } else {
        module_fold(module_step(cur, fs[0]), fs.drop_first())
    }
}

/// One field's effect on the channel settings read so far.
pub open spec fn shared_step(cur: Option<SharedChannel>, f: FieldSpec) -> Option<SharedChannel> {
    match cur {
        None => None,
        Some(c) => if f.number == 1 {
            if f.value is Varint {
                Some(c)
            } else {
                None
            }
        } else if f.number == 2 {
            match f.value {
                FieldValue::Bytes(x) => Some(SharedChannel { psk: x, ..c }),
                _ => None,
            }
        } else if f.number == 3 {
            match f.value {
                FieldValue::Bytes(x) => if valid_utf8(x) {
                    Some(SharedChannel { name: decode_utf8(x), ..c })
                } else {
                    None
                },
                _ => None,
            }
        } else if f.number == 4 {
            if f.value is Fixed32 {
                Some(c)
            } else {
                None
            }
        } else if f.number == 5 {
            match f.value {
                FieldValue::Varint(v) => Some(SharedChannel { uplink: v != 0, ..c }),
                _ => None,
            }
        } else if f.number == 6 {
            match f.value {
                FieldValue::Varint(v) => Some(SharedChannel { downlink: v != 0, ..c }),
                _ => None,
            }
        } else if f.number == 7 {
            match f.value {
                FieldValue::Bytes(x) => match fields_spec(x) {
                    Some(mfs) => {
                        let start = match c.module {
                            Some(m) => m,
                            None => (0u32, false),
                        };
                        match module_fold(Some(start), mfs) {
                            Some(m) => Some(SharedChannel { module: Some(m), ..c }),
                            None => None,
                        }
                    },
                    None => None,
                },
                _ => None,
            }
        } else {
            Some(c)
        },
    }
}

/// The channel settings after reading the fields `fs`, in order, from `cur`.
pub open spec fn shared_fold(cur: Option<SharedChannel>, fs: Seq<FieldSpec>) -> Option<
    SharedChannel,
>
    decreases fs.len(),
{
    if fs.len() == 0 {
        cur
    } else {
        shared_fold(shared_step(cur, fs[0]), fs.drop_first())
    }
}

/// One field's effect on the channel list read so far. The LoRa section is
/// checked to decode as a `LoRaConfig` and otherwise not read.
pub open spec fn set_step(cur: Option<Seq<SharedChannel>>, f: FieldSpec) -> Option<
    Seq<SharedChannel>,
> {
    match cur {
        None => None,
        Some(cs) => if f.number == 1 {
            match f.value {
                FieldValue::Bytes(x) => match fields_spec(x) {
                    Some(sfs) => match shared_fold(Some(empty_shared()), sfs) {
                        Some(c) => Some(cs.push(c)),
                        None => None,
                    },
                    None => None,
                },
                _ => None,
            }
        } else if f.number == 2 {
            match f.value {
                FieldValue::Bytes(x) => if message_fits(MsgKind::LoRaConfig, x) {
                    Some(cs)
                } else {
                    None
                },
                _ => None,
            }
        } else {
            Some(cs)
        },
    }
}

/// The channel list after reading the fields `fs`, in order, from `cur`.
pub open spec fn set_fold(cur: Option<Seq<SharedChannel>>, fs: Seq<FieldSpec>) -> Option<
    Seq<SharedChannel>,
>
    decreases fs.len(),
{
    if fs.len() == 0 {
        cur
    } else {
        set_fold(set_step(cur, fs[0]), fs.drop_first())
    }
}

/// The channels a `ChannelSet` message `b` carries, in order; `None` when
/// `b` is malformed.
pub open spec fn channel_set_spec(b: Seq<u8>) -> Option<Seq<SharedChannel>> {
    match fields_spec(b) {
        Some(fs) => set_fold(Some(Seq::empty()), fs),
        None => None,
    }
}

proof fn lemma_module_none(fs: Seq<FieldSpec>)
    ensures
        module_fold(None, fs) is None,
    decreases fs.len(),
{
    if fs.len() > 0 {
        lemma_module_none(fs.drop_first());
    }
}

proof fn lemma_shared_none(fs: Seq<FieldSpec>)
    ensures
        shared_fold(None, fs) is None,
    decreases fs.len(),
{
    if fs.len() > 0 {
        lemma_shared_none(fs.drop_first());
    }
}

proof fn lemma_set_none(fs: Seq<FieldSpec>)
    ensures
        set_fold(None, fs) is None,
    decreases fs.len(),
{
    if fs.len() > 0 {
        lemma_set_none(fs.drop_first());
    }
}

// ---------------------------------------------------------------------------
// Reading a channel set
// ---------------------------------------------------------------------------

/// The plain values of decoded channel settings.
pub open spec fn shared_of(s: ChannelSettings) -> SharedChannel {
    SharedChannel {
        psk: s.psk@,
        name: s.name@,
        uplink: s.uplink_enabled,
        downlink: s.downlink_enabled,
        module: match s.module_settings {
            Some(m) => Some((m.position_precision, m.is_muted)),
            None => None,
        },
    }
}

fn read_module(b: &[u8], start: ModuleSettings) -> (r: Option<ModuleSettings>)
    ensures
        match (r, fields_spec(b@)) {
            (Some(m), Some(fs)) => module_fold(
                Some((start.position_precision, start.is_muted)),
                fs,
            ) == Some((m.position_precision, m.is_muted)),
            (None, Some(fs)) => module_fold(
                Some((start.position_precision, start.is_muted)),
                fs,
            ) is None,
            (None, None) => true,
            _ => false,
        },
{
    let fields = match read_fields(b) {
        Some(fs) => fs,
        None => {
            return None;
        },
    };
    let ghost sfs = fields_view(fields@);
    let mut cur = start;
    let mut i: usize = 0;
    assert(sfs.skip(0) =~= sfs);
    while i < fields.len()
        invariant
            i <= fields@.len(),
            sfs == fields_view(fields@),
            fields_spec(b@) == Some(sfs),
            module_fold(Some((start.position_precision, start.is_muted)), sfs) == module_fold(
                Some((cur.position_precision, cur.is_muted)),
                sfs.skip(i as int),
            ),
        decreases fields@.len() - i,
    {
        assert(sfs.skip(i as int).drop_first() =~= sfs.skip(i + 1));
        assert(sfs.skip(i as int)[0] == fields@[i as int]@);
        let f = &fields[i];
        if f.number == 1 {
            match f.value {
                FieldVal::Varint(v) => {
                    assert(v as u32 == (v % 0x1_0000_0000) as u32) by (bit_vector);
                    cur = ModuleSettings { position_precision: v as u32, ..cur };
                },
                _ => {
                    proof {
                        lemma_module_none(sfs.skip(i + 1));
                    }
                    return None;
                },
            }
        } else if f.number == 2 {
            match f.value {
                FieldVal::Varint(v) => {
                    cur = ModuleSettings { is_muted: v != 0, ..cur };
                },
                _ => {
                    proof {
                        lemma_module_none(sfs.skip(i + 1));
                    }
                    return None;
                },
            }
        }
        i = i + 1;
    }
    Some(cur)
}

fn read_settings(b: &[u8]) -> (r: Option<ChannelSettings>)
    ensures
        match (r, fields_spec(b@)) {
            (Some(s), Some(fs)) => shared_fold(Some(empty_shared()), fs) == Some(shared_of(s)),
            (None, Some(fs)) => shared_fold(Some(empty_shared()), fs) is None,
            (None, None) => true,
            _ => false,
        },
{
    let fields = match read_fields(b) {
        Some(fs) => fs,
        None => {
            return None;
        },
    };
    let ghost sfs = fields_view(fields@);
    let mut cur = ChannelSettings {
        psk: Vec::new(),
        name: String::new(),
        uplink_enabled: false,
        downlink_enabled: false,
        module_settings: None,
    };
    assert(shared_of(cur) =~= empty_shared());
    let mut i: usize = 0;
    assert(sfs.skip(0) =~= sfs);
    while i < fields.len()
        invariant
            i <= fields@.len(),
            sfs == fields_view(fields@),
            fields_spec(b@) == Some(sfs),
            shared_fold(Some(empty_shared()), sfs) == shared_fold(
                Some(shared_of(cur)),
                sfs.skip(i as int),
            ),
        decreases fields@.len() - i,
    {
        assert(sfs.skip(i as int).drop_first() =~= sfs.skip(i + 1));
        assert(sfs.skip(i as int)[0] == fields@[i as int]@);
        let f = &fields[i];
        let ok: bool = if f.number == 1 {
            match f.value {
                FieldVal::Varint(_) => true,
                _ => false,
            }
        } else if f.number == 2 {
            match &f.value {
                FieldVal::Bytes(x) => {
                    cur.psk = x.clone();
                    assert(cur.psk@ =~= x@);
                    true
                },
                _ => false,
            }
        } else if f.number == 3 {
            match &f.value {
                FieldVal::Bytes(x) => {
                    match string_from_utf8(x.clone()) {
                        Some(s) => {
                            cur.name = s;
                            true
                        },
                        None => false,
                    }
                },
                _ => false,
            }
        } else if f.number == 4 {
            match f.value {
                FieldVal::Fixed32(_) => true,
                _ => false,
            }
        } else if f.number == 5 {
            match f.value {
                FieldVal::Varint(v) => {
                    cur.uplink_enabled = v != 0;
                    true
                },
                _ => false,
            }
        } else if f.number == 6 {
            match f.value {
                FieldVal::Varint(v) => {
                    cur.downlink_enabled = v != 0;
                    true
                },
                _ => false,
            }
        } else if f.number == 7 {
            match &f.value {
                FieldVal::Bytes(x) => {
                    let start = match cur.module_settings {
                        Some(m) => m,
                        None => ModuleSettings { position_precision: 0, is_muted: false },
                    };
                    match read_module(x.as_slice(), start) {
                        Some(m) => {
                            cur.module_settings = Some(m);
                            true
                        },
                        None => false,
                    }
                },
                _ => false,
            }
        } else {
            true
        };
        if !ok {
            proof {
                lemma_shared_none(sfs.skip(i + 1));
            }
            return None;
        }
        i = i + 1;
    }
    Some(cur)
}

/// Reads a `ChannelSet` message: the channel settings it carries, in order.
pub fn decode_channel_set(b: &[u8]) -> (r: Option<Vec<ChannelSettings>>)
    ensures
        match (r, channel_set_spec(b@)) {
            (Some(v), Some(cs)) => v@.map_values(|s: ChannelSettings| shared_of(s)) == cs,
            (None, None) => true,
            _ => false,
        },
{
    let fields = match read_fields(b) {
        Some(fs) => fs,
        None => {
            return None;
        },
    };
    let ghost sfs = fields_view(fields@);
    let mut out: Vec<ChannelSettings> = Vec::new();
    let mut i: usize = 0;
    assert(sfs.skip(0) =~= sfs);
    assert(out@.map_values(|s: ChannelSettings| shared_of(s)) =~= Seq::<SharedChannel>::empty());
    while i < fields.len()
        invariant
            i <= fields@.len(),
            sfs == fields_view(fields@),
            fields_spec(b@) == Some(sfs),
            set_fold(Some(Seq::empty()), sfs) == set_fold(
                Some(out@.map_values(|s: ChannelSettings| shared_of(s))),
                sfs.skip(i as int),
            ),
        decreases fields@.len() - i,
    {
        assert(sfs.skip(i as int).drop_first() =~= sfs.skip(i + 1));
        assert(sfs.skip(i as int)[0] == fields@[i as int]@);
        let f = &fields[i];
        let ok: bool = if f.number == 1 {
            match &f.value {
                FieldVal::Bytes(x) => {
                    match read_settings(x.as_slice()) {
                        Some(s) => {
                            let ghost before = out@;
                            out.push(s);
                            assert(out@.map_values(|s: ChannelSettings| shared_of(s))
                                =~= before.map_values(|s: ChannelSettings| shared_of(s)).push(
                                shared_of(s),
                            ));
                            true
                        },
                        None => false,
                    }
                },
                _ => false,
            }
        } else if f.number == 2 {
            match &f.value {
                FieldVal::Bytes(x) => check_message(MsgKind::LoRaConfig, x.as_slice()),
                _ => false,
            }
        } else {
            true
        };
        if !ok {
            proof {
                lemma_set_none(sfs.skip(i + 1));
            }
            return None;
        }
        i = i + 1;
    }
    Some(out)
}

// ---------------------------------------------------------------------------
// Writing a channel set
// ---------------------------------------------------------------------------

/// `f` alone when `present`, else nothing.
pub open spec fn optional_field(present: bool, f: FieldSpec) -> Seq<FieldSpec> {
    if present {
        seq![f]
    } else {
        Seq::empty()
    }
}

/// The fields of the module settings that carry position precision `p`
/// (muting off); a field at its default value is not written.
pub open spec fn module_fields(p: u32) -> Seq<FieldSpec> {
    optional_field(p != 0, FieldSpec { number: 1, value: FieldValue::Varint(p as nat) })
}

/// The fields of the channel settings that carry the channel `c`, in field
/// order; fields at their default value are not written, the module
/// settings always are.
pub open spec fn settings_fields(c: ChannelView) -> Seq<FieldSpec> {
    optional_field(c.psk.len() > 0, FieldSpec { number: 2, value: FieldValue::Bytes(c.psk) })
        + optional_field(
        c.name.len() > 0,
        FieldSpec { number: 3, value: FieldValue::Bytes(encode_utf8(c.name)) },
    ) + optional_field(c.uplink_enabled, FieldSpec { number: 5, value: FieldValue::Varint(1) })
        + optional_field(
        c.downlink_enabled,
        FieldSpec { number: 6, value: FieldValue::Varint(1) },
    ) + seq![
        FieldSpec {
            number: 7,
            value: FieldValue::Bytes(fields_bytes(module_fields(c.position_precision))),
        },
    ]
}

/// The bytes of the channel settings that carry `c`.
pub open spec fn settings_bytes(c: ChannelView) -> Seq<u8> {
    fields_bytes(settings_fields(c))
}

/// The fields of a channel set carrying the channels `cs`, in order.
pub open spec fn set_fields(cs: Seq<ChannelView>) -> Seq<FieldSpec> {
    cs.map_values(|c: ChannelView| FieldSpec { number: 1, value: FieldValue::Bytes(settings_bytes(c)) })
}

/// The bytes of a channel set carrying the channels `cs` (and no LoRa
/// section).
pub open spec fn channel_set_bytes(cs: Seq<ChannelView>) -> Seq<u8> {
    fields_bytes(set_fields(cs))
}

/// What a channel written to a share link reads back as.
pub open spec fn shared_of_channel(c: ChannelView) -> SharedChannel {
    SharedChannel {
        psk: c.psk,
        name: c.name,
        uplink: c.uplink_enabled,
        downlink: c.downlink_enabled,
        module: Some((c.position_precision, false)),
    }
}

/// The channel fits in memory when written: its key, its name's bytes and
/// its whole settings message each have at most `usize::MAX` bytes.
pub open spec fn writable(c: ChannelView) -> bool {
    &&& c.psk.len() <= usize::MAX
    &&& encode_utf8(c.name).len() <= usize::MAX
    &&& settings_bytes(c).len() <= usize::MAX
}

proof fn lemma_fields_bytes_append(a: Seq<FieldSpec>, b: Seq<FieldSpec>)
    ensures
        fields_bytes(a + b) == fields_bytes(a) + fields_bytes(b),
    decreases a.len(),
{
    if a.len() == 0 {
        assert(a + b =~= b);
        assert(fields_bytes(a) =~= Seq::<u8>::empty());
        assert(fields_bytes(a) + fields_bytes(b) =~= fields_bytes(b));
    } else {
        lemma_fields_bytes_append(a.drop_first(), b);
        assert((a + b).drop_first() =~= a.drop_first() + b);
        assert((a + b)[0] == a[0]);
        assert(fields_bytes(a + b) =~= fields_bytes(a) + fields_bytes(b));
    }
}

proof fn lemma_fields_bytes_one(f: FieldSpec)
    ensures
        fields_bytes(seq![f]) == field_bytes(f),
{
    reveal_with_fuel(fields_bytes, 2);
    assert(seq![f].drop_first() =~= Seq::<FieldSpec>::empty());
    assert(seq![f][0] == f);
    assert(field_bytes(f) + Seq::<u8>::empty() =~= field_bytes(f));
}

/// Appends `f` to the bytes of `prefix`.
proof fn lemma_fields_bytes_push(prefix: Seq<FieldSpec>, f: FieldSpec)
    ensures
        fields_bytes(prefix.push(f)) == fields_bytes(prefix) + field_bytes(f),
{
    lemma_fields_bytes_append(prefix, seq![f]);
    lemma_fields_bytes_one(f);
    assert(prefix + seq![f] =~= prefix.push(f));
}

fn encode_module(p: u32) -> (r: Vec<u8>)
    ensures
        r@ == fields_bytes(module_fields(p)),
{
    let mut out: Vec<u8> = Vec::new();
    if p != 0 {
        write_varint_field(&mut out, 1, p as u64);
        proof {
            lemma_fields_bytes_one(FieldSpec { number: 1, value: FieldValue::Varint(p as nat) });
        }
    }
    assert(out@ =~= fields_bytes(module_fields(p)));
    out
}

fn encode_settings(c: &Channel) -> (r: Vec<u8>)
    ensures
        r@ == settings_bytes(c@),
{
    let ghost v = c@;
    let ghost p1 = optional_field(
        v.psk.len() > 0,
        FieldSpec { number: 2, value: FieldValue::Bytes(v.psk) },
    );
    let ghost p2 = optional_field(
        v.name.len() > 0,
        FieldSpec { number: 3, value: FieldValue::Bytes(encode_utf8(v.name)) },
    );
    let ghost p3 = optional_field(
        v.uplink_enabled,
        FieldSpec { number: 5, value: FieldValue::Varint(1) },
    );
    let ghost p4 = optional_field(
        v.downlink_enabled,
        FieldSpec { number: 6, value: FieldValue::Varint(1) },
    );
    let ghost f7 = FieldSpec {
        number: 7,
        value: FieldValue::Bytes(fields_bytes(module_fields(v.position_precision))),
    };
    let mut out: Vec<u8> = Vec::new();
    if c.psk.len() > 0 {
        write_bytes_field(&mut out, 2, c.psk.as_slice());
        proof {
            lemma_fields_bytes_push(Seq::empty(), FieldSpec { number: 2, value: FieldValue::Bytes(v.psk) });
            assert(Seq::<FieldSpec>::empty().push(FieldSpec { number: 2, value: FieldValue::Bytes(v.psk) }) =~= p1);
        }
    }
    assert(out@ =~= fields_bytes(p1));
    if !c.name.as_str().is_empty() {
        let ghost before = out@;
        write_bytes_field(&mut out, 3, c.name.as_str().as_bytes());
        proof {
            lemma_fields_bytes_push(p1, FieldSpec { number: 3, value: FieldValue::Bytes(encode_utf8(v.name)) });
            assert(p1.push(FieldSpec { number: 3, value: FieldValue::Bytes(encode_utf8(v.name)) }) =~= p1 + p2);
        }
    } else {
        assert(p1 + p2 =~= p1);
    }
    assert(out@ =~= fields_bytes(p1 + p2));
    if c.uplink_enabled {
        write_varint_field(&mut out, 5, 1);
        proof {
            lemma_fields_bytes_push(p1 + p2, FieldSpec { number: 5, value: FieldValue::Varint(1) });
            assert((p1 + p2).push(FieldSpec { number: 5, value: FieldValue::Varint(1) }) =~= p1 + p2 + p3);
        }
    } else {
        assert(p1 + p2 + p3 =~= p1 + p2);
    }
    assert(out@ =~= fields_bytes(p1 + p2 + p3));
    if c.downlink_enabled {
        write_varint_field(&mut out, 6, 1);
        proof {
            lemma_fields_bytes_push(p1 + p2 + p3, FieldSpec { number: 6, value: FieldValue::Varint(1) });
            assert((p1 + p2 + p3).push(FieldSpec { number: 6, value: FieldValue::Varint(1) }) =~= p1 + p2 + p3 + p4);
        }
    } else {
        assert(p1 + p2 + p3 + p4 =~= p1 + p2 + p3);
    }
    assert(out@ =~= fields_bytes(p1 + p2 + p3 + p4));
    let module = encode_module(c.position_precision);
    write_bytes_field(&mut out, 7, module.as_slice());
    proof {
        lemma_fields_bytes_push(p1 + p2 + p3 + p4, f7);
        assert((p1 + p2 + p3 + p4).push(f7) =~= settings_fields(v));
    }
    out
}

/// The views of the enabled channels of `cs`, in order.
pub open spec fn enabled_views(cs: Seq<Channel>) -> Seq<ChannelView>
    decreases cs.len(),
{
    if cs.len() == 0 {
        Seq::empty()
    } else if cs.last().role == ChannelRole::Disabled {
        enabled_views(cs.drop_last())
    } else {
        enabled_views(cs.drop_last()).push(cs.last()@)
    }
}

/// Writes a channel set carrying the enabled channels of `cs`, in order.
pub fn encode_channel_set(cs: &[Channel]) -> (r: Vec<u8>)
    ensures
        r@ == channel_set_bytes(enabled_views(cs@)),
        forall|i: int| 0 <= i < enabled_views(cs@).len() ==> writable(#[trigger] enabled_views(cs@)[i]),
{
    let mut out: Vec<u8> = Vec::new();
    let mut i: usize = 0;
    assert(cs@.take(0) =~= Seq::<Channel>::empty());
    while i < cs.len()
        invariant
            i <= cs@.len(),
            out@ == channel_set_bytes(enabled_views(cs@.take(i as int))),
            forall|k: int|
                0 <= k < enabled_views(cs@.take(i as int)).len() ==> writable(
                    #[trigger] enabled_views(cs@.take(i as int))[k],
                ),
        decreases cs@.len() - i,
    {
        let ghost prev = enabled_views(cs@.take(i as int));
        assert(cs@.take(i + 1).drop_last() =~= cs@.take(i as int));
        assert(cs@.take(i + 1).last() == cs@[i as int]);
        let c = &cs[i];
        match c.role {
            ChannelRole::Disabled => {},
            _ => {
                let settings = encode_settings(c);
                let _settings_len = settings.len();
                let _psk_len = c.psk.len();
                let _name_len = c.name.as_str().as_bytes().len();
                let ghost f = FieldSpec { number: 1, value: FieldValue::Bytes(settings_bytes(c@)) };
                write_bytes_field(&mut out, 1, settings.as_slice());
                proof {
                    assert(set_fields(prev.push(c@)) =~= set_fields(prev).push(f));
                    lemma_fields_bytes_push(set_fields(prev), f);
                    assert(writable(c@));
                    assert forall|k: int|
                        0 <= k < prev.push(c@).len() implies writable(#[trigger] prev.push(c@)[k]) by {
                        if k < prev.len() {
                            assert(prev.push(c@)[k] == prev[k]);
                        }
                    }
                }
            },
        }
        i = i + 1;
    }
    assert(cs@.take(cs@.len() as int) =~= cs@);
    out
}

proof fn lemma_module_roundtrip(p: u32)
    ensures
        fields_spec(fields_bytes(module_fields(p))) == Some(module_fields(p)),
        module_fold(Some((0u32, false)), module_fields(p)) == Some((p, false)),
{
    let mf = module_fields(p);
    assert forall|i: int| 0 <= i < mf.len() implies field_ok(#[trigger] mf[i]) by {}
    lemma_fields_roundtrip(mf);
    reveal_with_fuel(module_fold, 2);
    if p != 0 {
        assert(mf.drop_first() =~= Seq::<FieldSpec>::empty());
        assert(mf[0] == FieldSpec { number: 1, value: FieldValue::Varint(p as nat) });
        assert(((p as nat) % 0x1_0000_0000) as u32 == p);
    } else {
        assert(mf =~= Seq::<FieldSpec>::empty());
    }
}

proof fn lemma_fold_front(cur: Option<SharedChannel>, f: FieldSpec, rest: Seq<FieldSpec>)
    ensures
        shared_fold(cur, seq![f] + rest) == shared_fold(shared_step(cur, f), rest),
{
    assert((seq![f] + rest).drop_first() =~= rest);
    assert((seq![f] + rest)[0] == f);
}

proof fn lemma_fold_optional(
    cur: Option<SharedChannel>,
    present: bool,
    f: FieldSpec,
    rest: Seq<FieldSpec>,
)
    ensures
        shared_fold(cur, optional_field(present, f) + rest) == if present {
            shared_fold(shared_step(cur, f), rest)
        } else {
            shared_fold(cur, rest)
        },
{
    if present {
        lemma_fold_front(cur, f, rest);
    } else {
        assert(optional_field(present, f) + rest =~= rest);
    }
}

#[verifier::rlimit(40)]
proof fn lemma_settings_roundtrip(c: ChannelView)
    requires
        writable(c),
    ensures
        fields_spec(settings_bytes(c)) == Some(settings_fields(c)),
        shared_fold(Some(empty_shared()), settings_fields(c)) == Some(shared_of_channel(c)),
{
    let sf = settings_fields(c);
    let mb = fields_bytes(module_fields(c.position_precision));
    lemma_module_roundtrip(c.position_precision);
    assert(mb.len() <= 20) by {
        if c.position_precision != 0 {
            lemma_fields_bytes_one(FieldSpec { number: 1, value: FieldValue::Varint(c.position_precision as nat) });
            crate::proto::wire::lemma_varint_bytes_len(c.position_precision as nat);
            crate::proto::wire::lemma_varint_bytes_len(8);
        } else {
            assert(module_fields(c.position_precision) =~= Seq::<FieldSpec>::empty());
        }
    }
    assert forall|i: int| 0 <= i < sf.len() implies field_ok(#[trigger] sf[i]) by {}
    lemma_fields_roundtrip(sf);
    let p1 = optional_field(c.psk.len() > 0, FieldSpec { number: 2, value: FieldValue::Bytes(c.psk) });
    let p2 = optional_field(
        c.name.len() > 0,
        FieldSpec { number: 3, value: FieldValue::Bytes(encode_utf8(c.name)) },
    );
    let p3 = optional_field(c.uplink_enabled, FieldSpec { number: 5, value: FieldValue::Varint(1) });
    let p4 = optional_field(c.downlink_enabled, FieldSpec { number: 6, value: FieldValue::Varint(1) });
    let f7 = FieldSpec { number: 7, value: FieldValue::Bytes(mb) };
    let t7 = seq![f7];
    let t4 = p4 + t7;
    let t3 = p3 + t4;
    let t2 = p2 + t3;
    assert(sf =~= p1 + t2);
    let s0 = empty_shared();
    let s1 = if c.psk.len() > 0 { SharedChannel { psk: c.psk, ..s0 } } else { s0 };
    let s2 = if c.name.len() > 0 { SharedChannel { name: c.name, ..s1 } } else { s1 };
    let s3 = if c.uplink_enabled { SharedChannel { uplink: true, ..s2 } } else { s2 };
    let s4 = if c.downlink_enabled { SharedChannel { downlink: true, ..s3 } } else { s3 };
    lemma_fold_optional(Some(s0), c.psk.len() > 0, FieldSpec { number: 2, value: FieldValue::Bytes(c.psk) }, t2);
    lemma_fold_optional(
        Some(s1),
        c.name.len() > 0,
        FieldSpec { number: 3, value: FieldValue::Bytes(encode_utf8(c.name)) },
        t3,
    );
    lemma_fold_optional(Some(s2), c.uplink_enabled, FieldSpec { number: 5, value: FieldValue::Varint(1) }, t4);
    lemma_fold_optional(Some(s3), c.downlink_enabled, FieldSpec { number: 6, value: FieldValue::Varint(1) }, t7);
    lemma_fold_front(Some(s4), f7, Seq::empty());
    assert(seq![f7] + Seq::<FieldSpec>::empty() =~= t7);
    assert(c.psk.len() == 0 ==> c.psk =~= Seq::<u8>::empty());
    assert(c.name.len() == 0 ==> c.name =~= Seq::<char>::empty());
    assert(shared_step(Some(s4), f7) == Some(SharedChannel { module: Some((c.position_precision, false)), ..s4 }));
    assert(SharedChannel { module: Some((c.position_precision, false)), ..s4 } == shared_of_channel(c));
}

proof fn lemma_set_fold_roundtrip(acc: Seq<SharedChannel>, cs: Seq<ChannelView>)
    requires
        forall|i: int| 0 <= i < cs.len() ==> writable(#[trigger] cs[i]),
    ensures
        set_fold(Some(acc), set_fields(cs)) == Some(acc + cs.map_values(|c: ChannelView| shared_of_channel(c))),
    decreases cs.len(),
{
    if cs.len() == 0 {
        assert(set_fields(cs) =~= Seq::<FieldSpec>::empty());
        assert(acc + cs.map_values(|c: ChannelView| shared_of_channel(c)) =~= acc);
    } else {
        assert(writable(cs[0]));
        lemma_settings_roundtrip(cs[0]);
        assert(set_fields(cs).drop_first() =~= set_fields(cs.drop_first()));
        assert forall|i: int| 0 <= i < cs.drop_first().len() implies writable(#[trigger] cs.drop_first()[i]) by {
            assert(cs.drop_first()[i] == cs[i + 1]);
        }
        lemma_set_fold_roundtrip(acc.push(shared_of_channel(cs[0])), cs.drop_first());
        assert(acc.push(shared_of_channel(cs[0])) + cs.drop_first().map_values(
            |c: ChannelView| shared_of_channel(c),
        ) =~= acc + cs.map_values(|c: ChannelView| shared_of_channel(c)));
    }
}

/// A channel set written by `encode_channel_set` reads back as the channels
/// it was written from.
pub proof fn lemma_channel_set_roundtrip(cs: Seq<ChannelView>)
    requires
        forall|i: int| 0 <= i < cs.len() ==> writable(#[trigger] cs[i]),
    ensures
        channel_set_spec(channel_set_bytes(cs)) == Some(
            cs.map_values(|c: ChannelView| shared_of_channel(c)),
        ),
{
    let fs = set_fields(cs);
    assert forall|i: int| 0 <= i < fs.len() implies field_ok(#[trigger] fs[i]) by {
        assert(writable(cs[i]));
    }
    lemma_fields_roundtrip(fs);
    lemma_set_fold_roundtrip(Seq::empty(), cs);
    assert(Seq::<SharedChannel>::empty() + cs.map_values(|c: ChannelView| shared_of_channel(c))
        =~= cs.map_values(|c: ChannelView| shared_of_channel(c)));
}

// ---------------------------------------------------------------------------
// Base64url text
// ---------------------------------------------------------------------------

#[verifier::external_type_specification]
#[verifier::external_body]
pub struct ExDecodeError(base64::DecodeError);

/// The symbol of the URL-safe base64 alphabet (RFC 4648, section 5) for
/// the six-bit value `v`.
pub open spec fn base64url_symbol(v: nat) -> char {
    if v < 26 {
        (65 + v) as char
    } else if v < 52 {
        (97 + (v - 26)) as char
    } else if v < 62 {
        (48 + (v - 52)) as char
    } else if v == 62 {
        '-'
    } else {
        '_'
    }
}

/// Unpadded URL-safe base64 of the bytes `b` (RFC 4648, section 5, without
/// `=`): each three bytes become four symbols of six bits each, most
/// significant first; a last one or two bytes become two or three symbols,
/// the unused low bits zero.
pub open spec fn base64url_text(b: Seq<u8>) -> Seq<char>
    decreases b.len(),
{
    if b.len() == 0 {
        Seq::empty()
    } else if b.len() == 1 {
        seq![base64url_symbol(b[0] as nat / 4), base64url_symbol((b[0] as nat % 4) * 16)]
    } else if b.len() == 2 {
        seq![
            base64url_symbol(b[0] as nat / 4),
            base64url_symbol((b[0] as nat % 4) * 16 + b[1] as nat / 16),
            base64url_symbol((b[1] as nat % 16) * 4),
        ]
    } else {
        seq![
            base64url_symbol(b[0] as nat / 4),
            base64url_symbol((b[0] as nat % 4) * 16 + b[1] as nat / 16),
            base64url_symbol((b[1] as nat % 16) * 4 + b[2] as nat / 64),
            base64url_symbol(b[2] as nat % 64),
        ] + base64url_text(b.skip(3))
    }
}

/// The bytes `URL_SAFE_NO_PAD.decode` makes of the text bytes `t`; `None`
/// when it rejects them.
pub uninterp spec fn base64url_decoding(t: Seq<u8>) -> Option<Seq<u8>>;

/// A symbol of the URL-safe base64 alphabet (RFC 4648, section 5).
pub open spec fn url_safe_symbol(c: char) -> bool {
    ('A' <= c && c <= 'Z') || ('a' <= c && c <= 'z') || ('0' <= c && c <= '9') || c == '-' || c
        == '_'
}

/// `base64::engine::general_purpose::URL_SAFE_NO_PAD.encode(bytes)`: the
/// unpadded URL-safe base64 text of `bytes`, as RFC 4648 defines it (see
/// `base64url_text`). The contract also states that every symbol is from the
/// URL-safe alphabet and that decoding the text with the same engine gives
/// the bytes back.
/// The crate panics when the text's length overflows `usize`, which
/// `requires` rules out.
#[verifier::external_body]
fn base64url_encode(bytes: &[u8]) -> (r: String)
    requires
        bytes@.len() <= isize::MAX,
    ensures
        r@ == base64url_text(bytes@),
        forall|i: int| 0 <= i < r@.len() ==> url_safe_symbol(#[trigger] r@[i]),
        base64url_decoding(encode_utf8(r@)) == Some(bytes@),
{
    URL_SAFE_NO_PAD.encode(bytes)
}

/// `base64::engine::general_purpose::URL_SAFE_NO_PAD.decode(text)`: the bytes
/// that unpadded URL-safe base64 `text` stands for, or the crate's error. The
/// contract names the outcome; the crate's buffer estimate overflows for
/// inputs longer than `isize::MAX`, which `requires` rules out.
#[verifier::external_body]
fn base64url_decode(text: &[u8]) -> (r: Result<Vec<u8>, base64::DecodeError>)
    requires
        text@.len() <= isize::MAX,
    ensures
        r is Ok <==> base64url_decoding(text@) is Some,
        r matches Ok(v) ==> base64url_decoding(text@) == Some(v@),
{
    URL_SAFE_NO_PAD.decode(text)
}

/// `DecodeError`'s `Display` text. Nothing is stated of it.
#[verifier::external_body]
fn decode_error_text(e: &base64::DecodeError) -> String {
    format!("{e}")
}

// ---------------------------------------------------------------------------
// Share links
// ---------------------------------------------------------------------------

/// The start of a channel share link.
pub open spec fn url_prefix() -> Seq<char> {
    "https://meshtastic.org/e/#"@
}

/// The start of a share link written without its scheme.
pub open spec fn url_prefix_alt() -> Seq<char> {
    "meshtastic.org/e/#"@
}

/// What follows `p` in `t`, when `t` starts with `p`.
pub open spec fn after_prefix(t: Seq<char>, p: Seq<char>) -> Option<Seq<char>> {
    if p.len() <= t.len() && t.take(p.len() as int) == p {
        Some(t.skip(p.len() as int))
    } else {
        None
    }
}

/// The base64 part of the link `t`: what follows the full prefix, or else
/// what follows the prefix without scheme.
pub open spec fn link_fragment(t: Seq<char>) -> Option<Seq<char>> {
    match after_prefix(t, url_prefix()) {
        Some(f) => Some(f),
        None => after_prefix(t, url_prefix_alt()),
    }
}

/// What reading a share link comes to.
pub enum LinkReading {
    Empty,
    BadPrefix,
    Base64,
    Proto,
    NoChannels,
    Channels(Seq<SharedChannel>),
}

/// What reading the share link `url` comes to: it is trimmed of white
/// space; an empty link, a missing prefix, bad base64, a malformed channel
/// set and a set without channels are each rejected; otherwise the channels
/// it carries.
pub open spec fn link_reading(url: Seq<char>) -> LinkReading {
    let t = trimmed(url);
    if t.len() == 0 {
        LinkReading::Empty
    } else {
        match link_fragment(t) {
            None => LinkReading::BadPrefix,
            Some(frag) => match base64url_decoding(encode_utf8(frag)) {
                None => LinkReading::Base64,
                Some(bytes) => match channel_set_spec(bytes) {
                    None => LinkReading::Proto,
                    Some(ss) => if ss.len() == 0 {
                        LinkReading::NoChannels
                    } else {
                        LinkReading::Channels(ss)
                    },
                },
            },
        }
    }
}

/// Why a share link could not be read.
#[derive(Debug)]
pub enum ChannelUrlError {
    Empty,
    BadPrefix,
    Base64(base64::DecodeError),
    /// The decoded bytes are not a well-formed channel set.
    Proto,
    NoChannels,
}

impl ChannelUrlError {
    /// The text the error is shown with.
    pub fn message(&self) -> (r: String)
        ensures
            match self {
                ChannelUrlError::Empty => r@ == "URL is empty"@,
                ChannelUrlError::BadPrefix => r@
                    == "URL does not look like a meshtastic channel share link"@,
                ChannelUrlError::Base64(_) => r@.len() >= 33 && r@.take(33)
                    == "fragment is not valid base64url: "@,
                ChannelUrlError::Proto => r@ == "fragment is not a valid ChannelSet proto"@,
                ChannelUrlError::NoChannels => r@ == "share URL carries no channels"@,
            },
    {
        match self {
            ChannelUrlError::Empty => string_of("URL is empty"),
            ChannelUrlError::BadPrefix => string_of(
                "URL does not look like a meshtastic channel share link",
            ),
            ChannelUrlError::Base64(e) => {
                let mut s = string_of("fragment is not valid base64url: ");
                let detail = decode_error_text(e);
                push_str(&mut s, detail.as_str());
                proof {
                    reveal_strlit("fragment is not valid base64url: ");
                    assert(s@.take(33) =~= "fragment is not valid base64url: "@);
                }
                s
            },
            ChannelUrlError::Proto => string_of("fragment is not a valid ChannelSet proto"),
            ChannelUrlError::NoChannels => string_of("share URL carries no channels"),
        }
    }
}

/// The channel `c` is slot `i` of a link's channel list, read from `s`: the
/// first slot is primary, the others secondary; the position precision is
/// that of the module settings (0 without them).
pub open spec fn channel_from_shared(i: int, s: SharedChannel, c: Channel) -> bool {
    &&& c.index.value() == i
    &&& c.role == if i == 0 {
        ChannelRole::Primary
    } else {
        ChannelRole::Secondary
    }
    &&& c@.name == s.name
    &&& c@.psk == s.psk
    &&& c.uplink_enabled == s.uplink
    &&& c.downlink_enabled == s.downlink
    &&& c.position_precision == match s.module {
        Some((p, _)) => p,
        None => 0u32,
    }
}

/// `r` is the channel list a link carrying `ss` gives: one channel per entry
/// for the first eight (the slots a radio has); later entries are dropped.
pub open spec fn channels_from_shared_ok(ss: Seq<SharedChannel>, r: Seq<Channel>) -> bool {
    &&& r.len() == if ss.len() < 8 {
        ss.len()
    } else {
        8
    }
    &&& forall|i: int| 0 <= i < r.len() ==> channel_from_shared(i, ss[i], #[trigger] r[i])
}

/// The channels of a decoded channel set, each in the slot of its position.
pub fn channels_from_set(set: &Vec<ChannelSettings>) -> (r: Vec<Channel>)
    ensures
        channels_from_shared_ok(set@.map_values(|s: ChannelSettings| shared_of(s)), r@),
{
    let ghost ss = set@.map_values(|s: ChannelSettings| shared_of(s));
    let mut out: Vec<Channel> = Vec::new();
    let mut i: usize = 0;
    while i < set.len() && i < 8
        invariant
            i <= set@.len(),
            i <= 8,
            out@.len() == i,
            ss == set@.map_values(|s: ChannelSettings| shared_of(s)),
            forall|k: int| 0 <= k < i ==> channel_from_shared(k, ss[k], #[trigger] out@[k]),
        decreases set@.len() - i,
    {
        let s = &set[i];
        let index = match ChannelIndex::new(i as u8) {
            Some(ix) => ix,
            None => {
                return out;
            },
        };
        let role = if i == 0 {
            ChannelRole::Primary
        } else {
            ChannelRole::Secondary
        };
        let position_precision = match s.module_settings {
            Some(m) => m.position_precision,
            None => 0,
        };
        let psk = s.psk.clone();
        assert(psk@ =~= s.psk@);
        out.push(
            Channel {
                index,
                role,
                name: s.name.clone(),
                psk,
                uplink_enabled: s.uplink_enabled,
                downlink_enabled: s.downlink_enabled,
                position_precision,
            },
        );
        i = i + 1;
    }
    out
}

fn after_prefix_chars(t: &Vec<char>, p: &Vec<char>) -> (r: Option<Vec<char>>)
    ensures
        match (r, after_prefix(t@, p@)) {
            (Some(v), Some(f)) => v@ == f,
            (None, None) => true,
            _ => false,
        },
{
    if p.len() > t.len() {
        return None;
    }
    if !matches_at(t, p, 0) {
        assert(t@.subrange(0, p@.len() as int) =~= t@.take(p@.len() as int));
        return None;
    }
    assert(t@.subrange(0, p@.len() as int) =~= t@.take(p@.len() as int));
    let mut out: Vec<char> = Vec::new();
    let mut k: usize = p.len();
    while k < t.len()
        invariant
            p@.len() <= k <= t@.len(),
            out@ == t@.subrange(p@.len() as int, k as int),
        decreases t@.len() - k,
    {
        out.push(t[k]);
        k = k + 1;
        assert(out@ =~= t@.subrange(p@.len() as int, k as int));
    }
    assert(out@ =~= t@.skip(p@.len() as int));
    Some(out)
}

proof fn lemma_encode_utf8_append(a: Seq<char>, b: Seq<char>)
    ensures
        encode_utf8(a + b) == encode_utf8(a) + encode_utf8(b),
    decreases a.len(),
{
    if a.len() == 0 {
        assert(a + b =~= b);
        assert(encode_utf8(a) + encode_utf8(b) =~= encode_utf8(b));
    } else {
        lemma_encode_utf8_append(a.drop_first(), b);
        assert((a + b).drop_first() =~= a.drop_first() + b);
        assert((a + b)[0] == a[0]);
        assert(encode_utf8(a + b) =~= encode_utf8(a) + encode_utf8(b));
    }
}

proof fn lemma_encode_utf8_subrange(s: Seq<char>, i: int, j: int)
    requires
        0 <= i <= j <= s.len(),
    ensures
        encode_utf8(s.subrange(i, j)).len() <= encode_utf8(s).len(),
{
    lemma_encode_utf8_append(s.take(i), s.skip(i));
    assert(s.take(i) + s.skip(i) =~= s);
    lemma_encode_utf8_append(s.skip(i).take(j - i), s.skip(i).skip(j - i));
    assert(s.skip(i).take(j - i) + s.skip(i).skip(j - i) =~= s.skip(i));
    assert(s.skip(i).take(j - i) =~= s.subrange(i, j));
}

proof fn lemma_trimmed_is_subrange(s: Seq<char>)
    ensures
        exists|i: int, j: int| 0 <= i <= j <= s.len() && trimmed(s) == s.subrange(i, j),
{
    let lo = first_non_white(s, 0);
    let hi = last_non_white_end(s, s.len() as int);
    lemma_first_non_white_range(s, 0);
    lemma_last_non_white_end_range(s, s.len() as int);
    if lo >= hi {
        assert(trimmed(s) =~= s.subrange(0, 0));
    } else {
        assert(trimmed(s) == s.subrange(lo, hi));
    }
}

proof fn lemma_first_non_white_range(s: Seq<char>, from: int)
    requires
        0 <= from,
    ensures
        0 <= first_non_white(s, from) <= s.len(),
    decreases s.len() - from,
{
    if from < s.len() && is_white(s[from]) {
        lemma_first_non_white_range(s, from + 1);
    }
}

proof fn lemma_last_non_white_end_range(s: Seq<char>, to: int)
    requires
        to <= s.len(),
    ensures
        0 <= last_non_white_end(s, to) <= s.len(),
        to >= 0 ==> last_non_white_end(s, to) <= to,
    decreases to,
{
    if 0 < to && is_white(s[to - 1]) {
        lemma_last_non_white_end_range(s, to - 1);
    }
}

/// `r` is what reading the link `url` gives: the error its reading names,
/// or the channels it carries.
pub open spec fn decoded_as(url: Seq<char>, r: Result<Vec<Channel>, ChannelUrlError>) -> bool {
    match link_reading(url) {
        LinkReading::Empty => r matches Err(ChannelUrlError::Empty),
        LinkReading::BadPrefix => r matches Err(ChannelUrlError::BadPrefix),
        LinkReading::Base64 => r matches Err(ChannelUrlError::Base64(_)),
        LinkReading::Proto => r matches Err(ChannelUrlError::Proto),
        LinkReading::NoChannels => r matches Err(ChannelUrlError::NoChannels),
        LinkReading::Channels(ss) => r matches Ok(v) && channels_from_shared_ok(ss, v@),
    }
}

/// Reads a channel share link: the channels it carries, each in the slot of
/// its position (at most eight), or why it cannot be read.
pub fn decode(url: &str) -> (r: Result<Vec<Channel>, ChannelUrlError>)
    requires
        encode_utf8(url@).len() <= isize::MAX,
    ensures
        decoded_as(url@, r),
{
    let t = trim_chars(url);
    if t.len() == 0 {
        return Err(ChannelUrlError::Empty);
    }
    let full = chars_of("https://meshtastic.org/e/#");
    let alt = chars_of("meshtastic.org/e/#");
    let frag = match after_prefix_chars(&t, &full) {
        Some(f) => f,
        None => match after_prefix_chars(&t, &alt) {
            Some(f) => f,
            None => {
                return Err(ChannelUrlError::BadPrefix);
            },
        },
    };
    let frag_text = string_from_chars(&frag);
    let text_bytes = frag_text.as_str().as_bytes();
    proof {
        lemma_trimmed_is_subrange(url@);
        let (i, j) = choose|i: int, j: int|
            0 <= i <= j <= url@.len() && trimmed(url@) == url@.subrange(i, j);
        let k = (t@.len() - frag@.len()) as int;
        assert(frag@ =~= url@.subrange(i + k, j));
        lemma_encode_utf8_subrange(url@, i + k, j);
    }
    let bytes = match base64url_decode(text_bytes) {
        Ok(b) => b,
        Err(e) => {
            return Err(ChannelUrlError::Base64(e));
        },
    };
    let set = match decode_channel_set(bytes.as_slice()) {
        Some(s) => s,
        None => {
            return Err(ChannelUrlError::Proto);
        },
    };
    if set.len() == 0 {
        return Err(ChannelUrlError::NoChannels);
    }
    Ok(channels_from_set(&set))
}

proof fn lemma_trimmed_unchanged(s: Seq<char>)
    requires
        s.len() > 0,
        !is_white(s[0]),
        !is_white(s[s.len() - 1]),
    ensures
        trimmed(s) == s,
{
    assert(first_non_white(s, 0) == 0);
    assert(last_non_white_end(s, s.len() as int) == s.len());
    assert(s.subrange(0, s.len() as int) =~= s);
}

/// How the link written for `cs` reads: its enabled channels, in order, or
/// no channels when none is enabled.
pub open spec fn written_reading(cs: Seq<Channel>) -> LinkReading {
    if enabled_views(cs).len() == 0 {
        LinkReading::NoChannels
    } else {
        LinkReading::Channels(enabled_views(cs).map_values(|c: ChannelView| shared_of_channel(c)))
    }
}

/// A link written for channels with at least one enabled reads back as the
/// enabled ones, in order, up to the eight slots of a radio: the k-th in
/// slot k, primary first and secondary after, with its name, key, uplink
/// and downlink flags and position precision. Stated over what `encode`
/// promises of the link it writes and what `decode` promises of its result.
pub proof fn lemma_share_link_roundtrip(cs: Seq<Channel>, url: Seq<char>, r: Result<Vec<Channel>, ChannelUrlError>)
    requires
        link_reading(url) == written_reading(cs),
        decoded_as(url, r),
        enabled_views(cs).len() >= 1,
    ensures
        r matches Ok(v) && {
            let e = enabled_views(cs);
            &&& v@.len() == if e.len() < 8 { e.len() } else { 8 }
            &&& forall|i: int| 0 <= i < v@.len() ==> {
                &&& (#[trigger] v@[i]).index.value() == i
                &&& v@[i].role == if i == 0 { ChannelRole::Primary } else { ChannelRole::Secondary }
                &&& v@[i]@.name == e[i].name
                &&& v@[i]@.psk == e[i].psk
                &&& v@[i].uplink_enabled == e[i].uplink_enabled
                &&& v@[i].downlink_enabled == e[i].downlink_enabled
                &&& v@[i].position_precision == e[i].position_precision
            }
        },
{
    let e = enabled_views(cs);
    let ss = e.map_values(|c: ChannelView| shared_of_channel(c));
    assert(link_reading(url) == LinkReading::Channels(ss));
    let v = r->Ok_0;
    assert forall|i: int| 0 <= i < v@.len() implies channel_from_shared(i, ss[i], #[trigger] v@[i]) by {
    }
}

/// Writes the share link for the enabled channels of `channels`, in order.
/// The link reads back (see `decode`) as exactly those channels, or as a
/// link without channels when none is enabled.
pub fn encode(channels: &[Channel]) -> (r: String)
    requires
        channel_set_bytes(enabled_views(channels@)).len() <= isize::MAX,
    ensures
        r@ == url_prefix() + base64url_text(channel_set_bytes(enabled_views(channels@))),
        link_reading(r@) == written_reading(channels@),
{
    let buf = encode_channel_set(channels);
    let b64 = base64url_encode(buf.as_slice());
    let mut url = string_of("https://meshtastic.org/e/#");
    push_str(&mut url, b64.as_str());
    proof {
        let vs = enabled_views(channels@);
        lemma_channel_set_roundtrip(vs);
        reveal_strlit("https://meshtastic.org/e/#");
        reveal_strlit("meshtastic.org/e/#");
        let u = url@;
        let p = url_prefix();
        assert(u.len() > 0);
        assert(u[0] == 'h');
        if b64@.len() > 0 {
            assert(u[u.len() - 1] == b64@[b64@.len() - 1]);
            assert(url_safe_symbol(b64@[b64@.len() - 1]));
        } else {
            assert(u[u.len() - 1] == '#');
        }
        lemma_trimmed_unchanged(u);
        assert(u.take(p.len() as int) =~= p);
        assert(u.skip(p.len() as int) =~= b64@);
    }
    url
}

} // verus!
