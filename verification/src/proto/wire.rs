use vstd::prelude::*;

verus! {

// ---------------------------------------------------------------------------
// Protobuf wire format: varints and fields
// ---------------------------------------------------------------------------

/// Exclusive upper bound of the value a varint of at most `budget` bytes can
/// carry when its last permitted byte may only be 0 or 1 (so that ten bytes
/// hold exactly 64 bits).
pub open spec fn varint_bound(budget: nat) -> nat
    decreases budget,
{
    if budget <= 1 {
        2
    } else {
        128 * varint_bound((budget - 1) as nat)
    }
}

/// The varint at the start of `b`, read with at most `budget` bytes: its value
/// and length. With a budget of ten this is protobuf's 64-bit varint: each
/// byte carries seven bits, least significant first; a set top bit means
/// another byte follows; the tenth byte may only be 0 or 1.
pub open spec fn varint_spec(b: Seq<u8>, budget: nat) -> Option<(nat, nat)>
    decreases budget,
{
    if budget == 0 || b.len() == 0 {
        None
    } else if b[0] < 128 {
        if budget == 1 && b[0] > 1 {
            None
        } else {
            Some((b[0] as nat, 1))
        }
    } else {
        match varint_spec(b.drop_first(), (budget - 1) as nat) {
            Some((v, n)) => Some((((b[0] - 128) as nat) + 128 * v, n + 1)),
            None => None,
        }
    }
}

/// Protobuf's encoding of the varint `v`.
pub open spec fn varint_bytes(v: nat) -> Seq<u8>
    decreases v,
{
    if v < 128 {
        seq![v as u8]
    } else {
        seq![((v % 128) + 128) as u8] + varint_bytes(v / 128)
    }
}

/// The 64-bit varint at the start of `b`.
pub open spec fn varint64(b: Seq<u8>) -> Option<(nat, nat)> {
    varint_spec(b, 10)
}

proof fn lemma_varint_bound_10()
    ensures
        varint_bound(10) == 0x1_0000_0000_0000_0000,
{
    reveal_with_fuel(varint_bound, 11);
}

pub(crate) proof fn lemma_varint_spec_bound(b: Seq<u8>, budget: nat)
    ensures
        varint_spec(b, budget) matches Some((v, n)) ==> v < varint_bound(budget) && 1 <= n
            <= budget && n <= b.len(),
    decreases budget,
{
    if budget > 0 && b.len() > 0 && b[0] >= 128 {
        lemma_varint_spec_bound(b.drop_first(), (budget - 1) as nat);
        if let Some((v, n)) = varint_spec(b.drop_first(), (budget - 1) as nat) {
            assert(budget >= 2);
            let x = (b[0] - 128) as nat;
            let bd = varint_bound((budget - 1) as nat);
            assert(x < 128);
            assert(x + 128 * v < 128 * bd) by (nonlinear_arith)
                requires
                    v < bd,
                    x < 128,
            ;
        }
    } else if budget > 1 {
        lemma_varint_bound_ge_2(budget);
    }
}

proof fn lemma_varint_bound_ge_2(budget: nat)
    ensures
        varint_bound(budget) >= 2,
        budget >= 2 ==> varint_bound(budget) >= 256,
    decreases budget,
{
    if budget > 1 {
        lemma_varint_bound_ge_2((budget - 1) as nat);
    }
}

/// A varint written by `varint_bytes` reads back as the same value and
/// length, whatever follows it.
pub proof fn lemma_varint_roundtrip(v: nat, rest: Seq<u8>, budget: nat)
    requires
        v < varint_bound(budget),
        budget >= 1,
    ensures
        varint_spec(varint_bytes(v) + rest, budget) == Some((v, varint_bytes(v).len())),
        varint_bytes(v).len() <= budget,
    decreases v,
{
    let b = varint_bytes(v) + rest;
    if v < 128 {
        if budget == 1 {
            assert(varint_bound(1) == 2);
        }
    } else {
        lemma_varint_bound_ge_2(budget);
        if budget == 1 {
            assert(false);
        }
        assert(v / 128 < varint_bound((budget - 1) as nat)) by (nonlinear_arith)
            requires
                v < 128 * varint_bound((budget - 1) as nat),
        ;
        lemma_varint_roundtrip(v / 128, rest, (budget - 1) as nat);
        assert(b.drop_first() =~= varint_bytes(v / 128) + rest);
        assert(((v % 128) + 128) as u8 - 128 == v % 128);
    }
}

/// A 64-bit varint takes at most ten bytes.
pub proof fn lemma_varint_bytes_len(v: nat)
    requires
        v < 0x1_0000_0000_0000_0000,
    ensures
        varint_bytes(v).len() <= 10,
{
    lemma_varint_bound_10();
    lemma_varint_roundtrip(v, Seq::empty(), 10);
}

/// Reads the varint at `b[pos..]` with at most `budget` bytes.
pub fn read_varint(b: &[u8], pos: usize, budget: u32) -> (r: Option<(u64, usize)>)
    requires
        pos <= b@.len(),
        budget <= 10,
    ensures
        match (r, varint_spec(b@.skip(pos as int), budget as nat)) {
            (Some((v, n)), Some((sv, sn))) => v as nat == sv && n as nat == sn,
            (None, None) => true,
            _ => false,
        },
    decreases budget,
{
    proof {
        lemma_varint_spec_bound(b@.skip(pos as int), budget as nat);
        lemma_varint_bound_10();
        lemma_varint_bound_mono(budget as nat, 10);
    }
    if budget == 0 || pos >= b.len() {
        return None;
    }
    let byte = b[pos];
    if byte < 128 {
        if budget == 1 && byte > 1 {
            return None;
        }
        return Some((byte as u64, 1));
    }
    assert(b@.skip(pos as int).drop_first() =~= b@.skip(pos + 1));
    match read_varint(b, pos + 1, budget - 1) {
        Some((v, n)) => {
            proof {
                lemma_varint_spec_bound(b@.skip(pos + 1), (budget - 1) as nat);
                lemma_varint_bound_mono((budget - 1) as nat, 9);
                assert(varint_bound(9) == 0x200_0000_0000_0000) by {
                    reveal_with_fuel(varint_bound, 10);
                }
                assert(128 * v + 127 < 0x1_0000_0000_0000_0000) by (nonlinear_arith)
                    requires
                        v < 0x200_0000_0000_0000,
                ;
            }
            Some((((byte - 128) as u64) + 128 * v, n + 1))
        },
        None => None,
    }
}

proof fn lemma_varint_bound_mono(a: nat, b: nat)
    requires
        a <= b,
    ensures
        varint_bound(a) <= varint_bound(b),
    decreases b,
{
    if a < b {
        lemma_varint_bound_mono(a, (b - 1) as nat);
        lemma_varint_bound_ge_2((b - 1) as nat);
    }
}

/// `prost::encoding::encode_varint` into a `Vec<u8>`: appends the LEB128
/// encoding of `v`, seven bits at a time from the lowest, every byte but the
/// last with its high bit set (at most ten bytes, as the crate's loop
/// writes them with `BufMut::put_u8`, which on a `Vec` is a push).
#[verifier::external_body]
fn prost_encode_varint(out: &mut Vec<u8>, v: u64)
    ensures
        final(out)@ == old(out)@ + varint_bytes(v as nat),
{
    prost::encoding::encode_varint(v, out)
}

/// Appends the varint encoding of `v`.
pub fn write_varint(out: &mut Vec<u8>, v: u64)
    ensures
        final(out)@ == old(out)@ + varint_bytes(v as nat),
{
    prost_encode_varint(out, v)
}

/// A field value as read off the wire: a varint, eight or four raw bytes,
/// or a length-delimited byte string.
pub enum FieldValue {
    Varint(nat),
    Fixed64(Seq<u8>),
    Bytes(Seq<u8>),
    Fixed32(Seq<u8>),
}

/// One field of a protobuf message: its number and value.
pub struct FieldSpec {
    pub number: nat,
    pub value: FieldValue,
}

/// The wire type that carries a value of this shape.
pub open spec fn wire_type_of(v: FieldValue) -> nat {
    match v {
        FieldValue::Varint(_) => 0,
        FieldValue::Fixed64(_) => 1,
        FieldValue::Bytes(_) => 2,
        FieldValue::Fixed32(_) => 5,
    }
}

/// The field at the start of `b` and the number of bytes it spans: a key
/// varint (field number times eight plus wire type, at most 32 bits, field
/// number at least 1) followed by the value its wire type calls for.
pub open spec fn field_spec(b: Seq<u8>) -> Option<(FieldSpec, nat)> {
    match varint64(b) {
        None => None,
        Some((key, n)) => {
            let rest = b.skip(n as int);
            let num = key / 8;
            let wt = key % 8;
            if key > 0xFFFF_FFFF || num == 0 {
                None
            } else if wt == 0 {
                match varint64(rest) {
                    Some((v, m)) => Some(
                        (FieldSpec { number: num, value: FieldValue::Varint(v) }, n + m),
                    ),
                    None => None,
                }
            } else if wt == 1 {
                if rest.len() >= 8 {
                    Some(
                        (
                            FieldSpec { number: num, value: FieldValue::Fixed64(rest.take(8)) },
                            n + 8,
                        ),
                    )
                } else {
                    None
                }
            } else if wt == 2 {
                match varint64(rest) {
                    Some((len, m)) => if m + len <= rest.len() {
                        Some(
                            (
                                FieldSpec {
                                    number: num,
                                    value: FieldValue::Bytes(rest.subrange(m as int, (m + len) as int)),
                                },
                                n + m + len,
                            ),
                        )
                    } else {
                        None
                    },
                    None => None,
                }
            } else if wt == 5 {
                if rest.len() >= 4 {
                    Some(
                        (
                            FieldSpec { number: num, value: FieldValue::Fixed32(rest.take(4)) },
                            n + 4,
                        ),
                    )
                } else {
                    None
                }
            } else {
                None
            }
        },
    }
}

/// All fields of the message `b`, in wire order; `None` when `b` is not a
/// sequence of well-formed fields.
pub open spec fn fields_spec(b: Seq<u8>) -> Option<Seq<FieldSpec>>
    decreases b.len(),
{
    if b.len() == 0 {
        Some(Seq::empty())
    } else {
        match field_spec(b) {
            Some((f, n)) => if n == 0 || n > b.len() {
                None
            } else {
                match fields_spec(b.skip(n as int)) {
                    Some(fs) => Some(seq![f] + fs),
                    None => None,
                }
            },
            None => None,
        }
    }
}

/// The bytes of one field.
pub open spec fn field_bytes(f: FieldSpec) -> Seq<u8> {
    varint_bytes(f.number * 8 + wire_type_of(f.value)) + match f.value {
        FieldValue::Varint(v) => varint_bytes(v),
        FieldValue::Fixed64(x) => x,
        FieldValue::Bytes(x) => varint_bytes(x.len()) + x,
        FieldValue::Fixed32(x) => x,
    }
}

/// The bytes of a message made of the fields `fs`, in order.
pub open spec fn fields_bytes(fs: Seq<FieldSpec>) -> Seq<u8>
    decreases fs.len(),
{
    if fs.len() == 0 {
        Seq::empty()
    } else {
        field_bytes(fs[0]) + fields_bytes(fs.drop_first())
    }
}

/// A field that can be written: its number fits a 32-bit key and its value
/// has the size its wire type calls for.
pub open spec fn field_ok(f: FieldSpec) -> bool {
    &&& 1 <= f.number < 0x2000_0000
    &&& match f.value {
        FieldValue::Varint(v) => v < 0x1_0000_0000_0000_0000,
        FieldValue::Fixed64(x) => x.len() == 8,
        FieldValue::Bytes(x) => x.len() < 0x1_0000_0000_0000_0000,
        FieldValue::Fixed32(x) => x.len() == 4,
    }
}

/// A field written by `field_bytes` reads back as itself, whatever follows.
pub proof fn lemma_field_roundtrip(f: FieldSpec, rest: Seq<u8>)
    requires
        field_ok(f),
    ensures
        field_spec(field_bytes(f) + rest) == Some((f, field_bytes(f).len())),
{
    lemma_varint_bound_10();
    let key = f.number * 8 + wire_type_of(f.value);
    let kb = varint_bytes(key);
    let payload = match f.value {
        FieldValue::Varint(v) => varint_bytes(v),
        FieldValue::Fixed64(x) => x,
        FieldValue::Bytes(x) => varint_bytes(x.len()) + x,
        FieldValue::Fixed32(x) => x,
    };
    let b = field_bytes(f) + rest;
    assert(b =~= kb + (payload + rest));
    lemma_varint_roundtrip(key, payload + rest, 10);
    assert(key / 8 == f.number);
    assert(key % 8 == wire_type_of(f.value));
    let n = kb.len();
    assert(b.skip(n as int) =~= payload + rest);
    match f.value {
        FieldValue::Varint(v) => {
            lemma_varint_roundtrip(v, rest, 10);
        },
        FieldValue::Fixed64(x) => {
            assert((payload + rest).take(8) =~= x);
        },
        FieldValue::Bytes(x) => {
            let lb = varint_bytes(x.len());
            assert(payload + rest =~= lb + (x + rest));
            lemma_varint_roundtrip(x.len(), x + rest, 10);
            assert((payload + rest).subrange(lb.len() as int, (lb.len() + x.len()) as int) =~= x);
        },
        FieldValue::Fixed32(x) => {
            assert((payload + rest).take(4) =~= x);
        },
    }
}

/// A message written by `fields_bytes` reads back as the same fields.
pub proof fn lemma_fields_roundtrip(fs: Seq<FieldSpec>)
    requires
        forall|i: int| 0 <= i < fs.len() ==> field_ok(#[trigger] fs[i]),
    ensures
        fields_spec(fields_bytes(fs)) == Some(fs),
    decreases fs.len(),
{
    if fs.len() > 0 {
        let b = fields_bytes(fs);
        let fb = field_bytes(fs[0]);
        let tail = fields_bytes(fs.drop_first());
        assert(b == fb + tail);
        assert(field_ok(fs[0]));
        lemma_field_roundtrip(fs[0], tail);
        lemma_varint_bound_10();
        lemma_varint_roundtrip(fs[0].number * 8 + wire_type_of(fs[0].value), Seq::empty(), 10);
        assert(fb.len() > 0);
        assert(b.skip(fb.len() as int) =~= tail);
        assert forall|i: int| 0 <= i < fs.drop_first().len() implies field_ok(
            #[trigger] fs.drop_first()[i],
        ) by {
            assert(fs.drop_first()[i] == fs[i + 1]);
        }
        lemma_fields_roundtrip(fs.drop_first());
        assert(seq![fs[0]] + fs.drop_first() =~= fs);
    }
}


// ---------------------------------------------------------------------------
// Executable reader and writer
// ---------------------------------------------------------------------------

/// A field value, executable.
#[derive(Debug)]
pub enum FieldVal {
    Varint(u64),
    Fixed64(Vec<u8>),
    Bytes(Vec<u8>),
    Fixed32(Vec<u8>),
}

/// A field of a protobuf message, executable.
#[derive(Debug)]
pub struct Field {
    pub number: u32,
    pub value: FieldVal,
}

impl View for Field {
    type V = FieldSpec;

    open spec fn view(&self) -> FieldSpec {
        FieldSpec {
            number: self.number as nat,
            value: match self.value {
                FieldVal::Varint(v) => FieldValue::Varint(v as nat),
                FieldVal::Fixed64(x) => FieldValue::Fixed64(x@),
                FieldVal::Bytes(x) => FieldValue::Bytes(x@),
                FieldVal::Fixed32(x) => FieldValue::Fixed32(x@),
            },
        }
    }
}

/// The views of a list of fields.
pub open spec fn fields_view(fs: Seq<Field>) -> Seq<FieldSpec> {
    fs.map_values(|f: Field| f@)
}

/// A copy of `b[start..end]`.
pub fn copy_range(b: &[u8], start: usize, end: usize) -> (r: Vec<u8>)
    requires
        start <= end <= b@.len(),
    ensures
        r@ == b@.subrange(start as int, end as int),
{
    let mut r: Vec<u8> = Vec::with_capacity(end - start);
    let mut i: usize = start;
    while i < end
        invariant
            start <= i <= end <= b@.len(),
            r@ == b@.subrange(start as int, i as int),
        decreases end - i,
    {
        r.push(b[i]);
        i = i + 1;
        assert(r@ =~= b@.subrange(start as int, i as int));
    }
    r
}

/// Reads the field at `b[pos..]`: the field and the number of bytes it spans.
pub fn read_field(b: &[u8], pos: usize) -> (r: Option<(Field, usize)>)
    requires
        pos <= b@.len(),
    ensures
        match (r, field_spec(b@.skip(pos as int))) {
            (Some((f, n)), Some((sf, sn))) => f@ == sf && n as nat == sn,
            (None, None) => true,
            _ => false,
        },
{
    let ghost s = b@.skip(pos as int);
    proof {
        lemma_varint_spec_bound(s, 10);
    }
    let (key, n) = match read_varint(b, pos, 10) {
        Some(p) => p,
        None => {
            return None;
        },
    };
    if key > 0xFFFF_FFFF || key / 8 == 0 {
        return None;
    }
    let num: u32 = (key / 8) as u32;
    let wt = key % 8;
    assert(n as nat <= s.len());
    assert(pos + n <= b.len());
    let vpos = pos + n;
    assert(s.skip(n as int) =~= b@.skip(vpos as int));
    proof {
        lemma_varint_spec_bound(b@.skip(vpos as int), 10);
    }
    if wt == 0 {
        match read_varint(b, vpos, 10) {
            Some((v, m)) => Some((Field { number: num, value: FieldVal::Varint(v) }, n + m)),
            None => None,
        }
    } else if wt == 1 {
        if b.len() - vpos >= 8 {
            let x = copy_range(b, vpos, vpos + 8);
            assert(x@ =~= b@.skip(vpos as int).take(8));
            Some((Field { number: num, value: FieldVal::Fixed64(x) }, n + 8))
        } else {
            None
        }
    } else if wt == 2 {
        match read_varint(b, vpos, 10) {
            Some((len, m)) => {
                let avail: usize = b.len() - vpos;
                assert(m as nat <= b@.skip(vpos as int).len());
                if len <= (avail - m) as u64 {
                    let start = vpos + m;
                    let end = start + (len as usize);
                    let x = copy_range(b, start, end);
                    assert(x@ =~= b@.skip(vpos as int).subrange(m as int, (m + len) as int));
                    Some((Field { number: num, value: FieldVal::Bytes(x) }, n + m + (len as usize)))
                } else {
                    None
                }
            },
            None => None,
        }
    } else if wt == 5 {
        if b.len() - vpos >= 4 {
            let x = copy_range(b, vpos, vpos + 4);
            assert(x@ =~= b@.skip(vpos as int).take(4));
            Some((Field { number: num, value: FieldVal::Fixed32(x) }, n + 4))
        } else {
            None
        }
    } else {
        None
    }
}

/// Splits the message `b` into its fields, in wire order; `None` when `b` is
/// not a sequence of well-formed fields.
pub fn read_fields(b: &[u8]) -> (r: Option<Vec<Field>>)
    ensures
        match (r, fields_spec(b@)) {
            (Some(fs), Some(sfs)) => fields_view(fs@) == sfs,
            (None, None) => true,
            _ => false,
        },
{
    let mut out: Vec<Field> = Vec::new();
    let mut pos: usize = 0;
    assert(b@.skip(0) =~= b@);
    while pos < b.len()
        invariant
            pos <= b@.len(),
            fields_spec(b@) == match fields_spec(b@.skip(pos as int)) {
                Some(rest) => Some(fields_view(out@) + rest),
                None => None::<Seq<FieldSpec>>,
            },
        decreases b@.len() - pos,
    {
        let ghost s = b@.skip(pos as int);
        match read_field(b, pos) {
            Some((f, n)) => {
                if n == 0 || n > b.len() - pos {
                    return None;
                }
                assert(s.skip(n as int) =~= b@.skip(pos + n));
                let ghost old_out = out@;
                out.push(f);
                proof {
                    assert(fields_view(out@) =~= fields_view(old_out) + seq![f@]);
                    match fields_spec(b@.skip(pos + n)) {
                        Some(rest) => {
                            assert(fields_view(old_out) + (seq![f@] + rest) =~= fields_view(out@)
                                + rest);
                        },
                        None => {},
                    }
                }
                pos = pos + n;
            },
            None => {
                return None;
            },
        }
    }
    assert(b@.skip(pos as int) =~= Seq::<u8>::empty());
    assert(fields_view(out@) + Seq::<FieldSpec>::empty() =~= fields_view(out@));
    Some(out)
}

/// Appends `x`.
pub fn append_bytes(out: &mut Vec<u8>, x: &[u8])
    ensures
        final(out)@ == old(out)@ + x@,
{
    let mut i: usize = 0;
    while i < x.len()
        invariant
            i <= x@.len(),
            out@ == old(out)@ + x@.take(i as int),
        decreases x@.len() - i,
    {
        out.push(x[i]);
        i = i + 1;
        assert(out@ =~= old(out)@ + x@.take(i as int));
    }
    assert(x@.take(x@.len() as int) =~= x@);
}

/// Appends a varint field.
pub fn write_varint_field(out: &mut Vec<u8>, number: u32, v: u64)
    requires
        1 <= number < 0x2000_0000,
    ensures
        final(out)@ == old(out)@ + field_bytes(
            FieldSpec { number: number as nat, value: FieldValue::Varint(v as nat) },
        ),
{
    write_varint(out, (number as u64) * 8);
    write_varint(out, v);
    assert(out@ =~= old(out)@ + field_bytes(
        FieldSpec { number: number as nat, value: FieldValue::Varint(v as nat) },
    ));
}

/// Appends a length-delimited field.
pub fn write_bytes_field(out: &mut Vec<u8>, number: u32, x: &[u8])
    requires
        1 <= number < 0x2000_0000,
    ensures
        final(out)@ == old(out)@ + field_bytes(
            FieldSpec { number: number as nat, value: FieldValue::Bytes(x@) },
        ),
{
    write_varint(out, (number as u64) * 8 + 2);
    write_varint(out, x.len() as u64);
    append_bytes(out, x);
    assert(out@ =~= old(out)@ + field_bytes(
        FieldSpec { number: number as nat, value: FieldValue::Bytes(x@) },
    ));
}

} // verus!
