//! A reference encoding of field values, written as spec functions, and the
//! proof that the decoder inverts it.
use vstd::prelude::*;
use crate::error::FrameDecodeErr;
use crate::field::{
    spec_array_values, spec_field_array, spec_field_name, spec_field_table, spec_field_value, spec_table_entries,
    valid_field_name, Decimal, FieldTableView, FieldValueView,
};
use crate::util::{be32, bit, spec_long_str, spec_short_str, spec_u16, spec_u32, spec_u64, spec_u8};

verus! {

/// The two big-endian octets of `x`.
#[verifier::opaque]
pub open spec fn be16_octets(x: u16) -> Seq<u8> {
    seq![(x / 0x100) as u8, (x % 0x100) as u8]
}

/// The four big-endian octets of `x`.
#[verifier::opaque]
pub open spec fn be32_octets(x: u32) -> Seq<u8> {
    seq![(x / 0x100_0000) as u8, (x / 0x1_0000 % 0x100) as u8, (x / 0x100 % 0x100) as u8, (x % 0x100) as u8]
}

/// The eight big-endian octets of `x`.
pub open spec fn be64_octets(x: u64) -> Seq<u8> {
    be32_octets((x / 0x1_0000_0000) as u32) + be32_octets((x % 0x1_0000_0000) as u32)
}

/// Two's-complement octet of a signed value.
pub open spec fn unsigned8(x: i8) -> u8 {
    if x >= 0 { x as u8 } else { (x + 0x100) as u8 }
}

pub open spec fn unsigned16(x: i16) -> u16 {
    if x >= 0 { x as u16 } else { (x + 0x1_0000) as u16 }
}

pub open spec fn unsigned32(x: i32) -> u32 {
    if x >= 0 { x as u32 } else { (x + 0x1_0000_0000) as u32 }
}

pub open spec fn unsigned64(x: i64) -> u64 {
    if x >= 0 { x as u64 } else { (x + 0x1_0000_0000_0000_0000) as u64 }
}

/// Octets prefixed with their 32-bit length.
pub open spec fn framed(b: Seq<u8>) -> Seq<u8> {
    be32_octets(b.len() as u32) + b
}

/// The encoding of a field value: its type tag, then its octets.
pub open spec fn encode_value(v: FieldValueView) -> Seq<u8>
    decreases v,
{
    match v {
        FieldValueView::Boolean(b) => seq![0x74u8, if b { 1u8 } else { 0u8 }],
        FieldValueView::I8(x) => seq![0x62u8, unsigned8(x)],
        FieldValueView::U8(x) => seq![0x42u8, x],
        FieldValueView::I16(x) => seq![0x73u8] + be16_octets(unsigned16(x)),
        FieldValueView::U16(x) => seq![0x75u8] + be16_octets(x),
        FieldValueView::I32(x) => seq![0x49u8] + be32_octets(unsigned32(x)),
        FieldValueView::U32(x) => seq![0x69u8] + be32_octets(x),
        FieldValueView::I64(x) => seq![0x6cu8] + be64_octets(unsigned64(x)),
        FieldValueView::U64(x) => seq![0x4cu8] + be64_octets(x),
        FieldValueView::F32(x) => seq![0x66u8] + be32_octets(x),
        FieldValueView::F64(x) => seq![0x64u8] + be64_octets(x),
        FieldValueView::Decimal(d) => seq![0x44u8, d.scale] + be32_octets(d.value),
        FieldValueView::LongStr(b) => seq![0x53u8] + framed(b),
        FieldValueView::ByteArray(b) => seq![0x78u8] + framed(b),
        FieldValueView::FieldArray(a) => seq![0x41u8] + framed(value_encodings(a).flatten()),
        FieldValueView::Timestamp(x) => seq![0x54u8] + be64_octets(x),
        FieldValueView::FieldTable(t) => seq![0x46u8] + framed(entry_encodings(t).flatten()),
        FieldValueView::Void => seq![0x56u8],
    }
}

/// The encoding of each value of an array.
pub open spec fn value_encodings(a: Seq<FieldValueView>) -> Seq<Seq<u8>>
    decreases a,
{
    Seq::new(
        a.len(),
        |i: int|
            if 0 <= i < a.len() {
                encode_value(a[i])
            } else {
                Seq::empty()
            },
    )
}

/// The encoding of each entry of a table: a short-string name, then the value.
pub open spec fn entry_encodings(t: FieldTableView) -> Seq<Seq<u8>>
    decreases t,
{
    Seq::new(
        t.len(),
        |i: int|
            if 0 <= i < t.len() {
                seq![t[i].0.len() as u8] + t[i].0 + encode_value(t[i].1)
            } else {
                Seq::empty()
            },
    )
}

/// The encodings of the values of an array, one after the other.
pub open spec fn values_octets(a: Seq<FieldValueView>) -> Seq<u8> {
    value_encodings(a).flatten()
}

/// The encodings of the entries of a table, one after the other.
pub open spec fn entries_octets(t: FieldTableView) -> Seq<u8> {
    entry_encodings(t).flatten()
}

/// A value that the encoding can carry: every length fits its prefix and
/// every table entry has a valid name.
pub open spec fn encodable(v: FieldValueView) -> bool
    decreases v,
{
    match v {
        FieldValueView::LongStr(b) => b.len() < 0x1_0000_0000,
        FieldValueView::ByteArray(b) => b.len() < 0x1_0000_0000,
        FieldValueView::FieldArray(a) => {
            &&& forall|i: int| 0 <= i < a.len() ==> encodable(#[trigger] a[i])
            &&& value_encodings(a).flatten().len() < 0x1_0000_0000
        },
        FieldValueView::FieldTable(t) => {
            &&& forall|i: int| 0 <= i < t.len() ==> valid_field_name(#[trigger] t[i].0) && encodable(t[i].1)
            &&& entry_encodings(t).flatten().len() < 0x1_0000_0000
        },
        _ => true,
    }
}

/// The encoding of `v` followed by `tail` decodes to `v`, leaving `tail`.
pub open spec fn decodes_back(v: FieldValueView, tail: Seq<u8>) -> bool {
    spec_field_value(encode_value(v) + tail) == Ok::<(Seq<u8>, FieldValueView), FrameDecodeErr>((tail, v))
}

pub(crate) proof fn lemma_u16_octets(x: u16, t: Seq<u8>)
    ensures
        spec_u16(be16_octets(x) + t) == Ok::<(Seq<u8>, u16), FrameDecodeErr>((t, x)),
{
    reveal(be16_octets);
    let s = be16_octets(x) + t;
    assert(s.skip(2) =~= t);
    assert(s[0] == (x / 0x100) as u8 && s[1] == (x % 0x100) as u8);
}

pub(crate) proof fn lemma_u32_octets(x: u32, t: Seq<u8>)
    ensures
        spec_u32(be32_octets(x) + t) == Ok::<(Seq<u8>, u32), FrameDecodeErr>((t, x)),
{
    reveal(be32_octets);
    let s = be32_octets(x) + t;
    assert(s.skip(4) =~= t);
    assert(s[0] == (x / 0x100_0000) as u8 && s[1] == (x / 0x1_0000 % 0x100) as u8);
    assert(s[2] == (x / 0x100 % 0x100) as u8 && s[3] == (x % 0x100) as u8);
}

pub(crate) proof fn lemma_u64_octets(x: u64, t: Seq<u8>)
    ensures
        spec_u64(be64_octets(x) + t) == Ok::<(Seq<u8>, u64), FrameDecodeErr>((t, x)),
{
    let hi = (x / 0x1_0000_0000) as u32;
    let lo = (x % 0x1_0000_0000) as u32;
    let s = be64_octets(x) + t;
    let low = be32_octets(lo) + t;
    assert(s =~= be32_octets(hi) + low);
    lemma_u32_octets(hi, low);
    lemma_u32_octets(lo, t);
    assert(be32(s) == hi);
    assert(s.skip(4) =~= low);
    assert(be32(s.skip(4)) == lo);
    assert(s.skip(8) =~= t);
    assert(hi as int * 0x1_0000_0000 + lo as int == x) by (nonlinear_arith)
        requires
            hi == x / 0x1_0000_0000,
            lo == x % 0x1_0000_0000,
    ;
}

pub(crate) proof fn lemma_framed(b: Seq<u8>, t: Seq<u8>)
    requires
        b.len() < 0x1_0000_0000,
    ensures
        spec_u32(framed(b) + t) == Ok::<(Seq<u8>, u32), FrameDecodeErr>((b + t, b.len() as u32)),
        (b + t).take(b.len() as int) == b,
        (b + t).skip(b.len() as int) == t,
{
    lemma_u32_octets(b.len() as u32, b + t);
    assert(framed(b) + t =~= be32_octets(b.len() as u32) + (b + t));
    assert((b + t).take(b.len() as int) =~= b);
    assert((b + t).skip(b.len() as int) =~= t);
}

proof fn lemma_value_encodings_cons(a: Seq<FieldValueView>)
    requires
        a.len() > 0,
    ensures
        values_octets(a) == encode_value(a[0]) + values_octets(a.drop_first()),
{
    assert(value_encodings(a).drop_first() =~= value_encodings(a.drop_first()));
}

proof fn lemma_entry_encodings_cons(t: FieldTableView)
    requires
        t.len() > 0,
    ensures
        entries_octets(t) == seq![t[0].0.len() as u8] + t[0].0 + encode_value(t[0].1) + entries_octets(t.drop_first()),
{
    assert(entry_encodings(t).drop_first() =~= entry_encodings(t.drop_first()));
}

proof fn lemma_encoding_nonempty(v: FieldValueView)
    ensures
        encode_value(v).len() >= 1,
{
}

proof fn lemma_boolean_round_trip(b: bool, tail: Seq<u8>)
    ensures
        decodes_back(FieldValueView::Boolean(b), tail),
{
    let e = encode_value(FieldValueView::Boolean(b));
    let body = e.skip(1);
    assert(e + tail =~= seq![e[0]] + (body + tail));
    assert((e + tail).skip(1) =~= body + tail);
    assert((body + tail).skip(1) =~= tail);
    assert((body + tail)[0] == body[0]);
}

proof fn lemma_i8_round_trip(x: i8, tail: Seq<u8>)
    ensures
        decodes_back(FieldValueView::I8(x), tail),
{
    let e = encode_value(FieldValueView::I8(x));
    let body = e.skip(1);
    assert(e + tail =~= seq![e[0]] + (body + tail));
    assert((e + tail).skip(1) =~= body + tail);
    assert((body + tail).skip(1) =~= tail);
    assert((body + tail)[0] == body[0]);
}

proof fn lemma_u8_round_trip(x: u8, tail: Seq<u8>)
    ensures
        decodes_back(FieldValueView::U8(x), tail),
{
    let e = encode_value(FieldValueView::U8(x));
    let body = e.skip(1);
    assert(e + tail =~= seq![e[0]] + (body + tail));
    assert((e + tail).skip(1) =~= body + tail);
    assert((body + tail).skip(1) =~= tail);
    assert((body + tail)[0] == body[0]);
}

proof fn lemma_i16_round_trip(x: i16, tail: Seq<u8>)
    ensures
        decodes_back(FieldValueView::I16(x), tail),
{
    let e = encode_value(FieldValueView::I16(x));
    let body = e.skip(1);
    assert(e + tail =~= seq![e[0]] + (body + tail));
    assert((e + tail).skip(1) =~= body + tail);
    assert(body =~= be16_octets(unsigned16(x)));
    lemma_u16_octets(unsigned16(x), tail);
}

proof fn lemma_u16_round_trip(x: u16, tail: Seq<u8>)
    ensures
        decodes_back(FieldValueView::U16(x), tail),
{
    let e = encode_value(FieldValueView::U16(x));
    let body = e.skip(1);
    assert(e + tail =~= seq![e[0]] + (body + tail));
    assert((e + tail).skip(1) =~= body + tail);
    assert(body =~= be16_octets(x));
    lemma_u16_octets(x, tail);
}

proof fn lemma_i32_round_trip(x: i32, tail: Seq<u8>)
    ensures
        decodes_back(FieldValueView::I32(x), tail),
{
    let e = encode_value(FieldValueView::I32(x));
    let body = e.skip(1);
    assert(e + tail =~= seq![e[0]] + (body + tail));
    assert((e + tail).skip(1) =~= body + tail);
    assert(body =~= be32_octets(unsigned32(x)));
    lemma_u32_octets(unsigned32(x), tail);
}

proof fn lemma_u32_round_trip(x: u32, tail: Seq<u8>)
    ensures
        decodes_back(FieldValueView::U32(x), tail),
{
    let e = encode_value(FieldValueView::U32(x));
    let body = e.skip(1);
    assert(e + tail =~= seq![e[0]] + (body + tail));
    assert((e + tail).skip(1) =~= body + tail);
    assert(body =~= be32_octets(x));
    lemma_u32_octets(x, tail);
}

proof fn lemma_i64_round_trip(x: i64, tail: Seq<u8>)
    ensures
        decodes_back(FieldValueView::I64(x), tail),
{
    let e = encode_value(FieldValueView::I64(x));
    let body = e.skip(1);
    assert(e + tail =~= seq![e[0]] + (body + tail));
    assert((e + tail).skip(1) =~= body + tail);
    assert(body =~= be64_octets(unsigned64(x)));
    lemma_u64_octets(unsigned64(x), tail);
}

proof fn lemma_u64_round_trip(x: u64, tail: Seq<u8>)
    ensures
        decodes_back(FieldValueView::U64(x), tail),
{
    let e = encode_value(FieldValueView::U64(x));
    let body = e.skip(1);
    assert(e + tail =~= seq![e[0]] + (body + tail));
    assert((e + tail).skip(1) =~= body + tail);
    assert(body =~= be64_octets(x));
    lemma_u64_octets(x, tail);
}

proof fn lemma_f32_round_trip(x: u32, tail: Seq<u8>)
    ensures
        decodes_back(FieldValueView::F32(x), tail),
{
    let e = encode_value(FieldValueView::F32(x));
    let body = e.skip(1);
    assert(e + tail =~= seq![e[0]] + (body + tail));
    assert((e + tail).skip(1) =~= body + tail);
    assert(body =~= be32_octets(x));
    lemma_u32_octets(x, tail);
}

proof fn lemma_f64_round_trip(x: u64, tail: Seq<u8>)
    ensures
        decodes_back(FieldValueView::F64(x), tail),
{
    let e = encode_value(FieldValueView::F64(x));
    let body = e.skip(1);
    assert(e + tail =~= seq![e[0]] + (body + tail));
    assert((e + tail).skip(1) =~= body + tail);
    assert(body =~= be64_octets(x));
    lemma_u64_octets(x, tail);
}

proof fn lemma_decimal_round_trip(d: Decimal, tail: Seq<u8>)
    ensures
        decodes_back(FieldValueView::Decimal(d), tail),
{
    let e = encode_value(FieldValueView::Decimal(d));
    let body = e.skip(1);
    assert(e + tail =~= seq![e[0]] + (body + tail));
    assert((e + tail).skip(1) =~= body + tail);
    assert(body + tail =~= seq![d.scale] + (be32_octets(d.value) + tail));
    assert((body + tail).skip(1) =~= be32_octets(d.value) + tail);
    lemma_u32_octets(d.value, tail);
}

proof fn lemma_long_str_round_trip(b: Seq<u8>, tail: Seq<u8>)
    requires
        encodable(FieldValueView::LongStr(b)),
    ensures
        decodes_back(FieldValueView::LongStr(b), tail),
{
    let e = encode_value(FieldValueView::LongStr(b));
    let body = e.skip(1);
    assert(e + tail =~= seq![e[0]] + (body + tail));
    assert((e + tail).skip(1) =~= body + tail);
    assert(body =~= framed(b));
    lemma_framed(b, tail);
}

proof fn lemma_byte_array_round_trip(b: Seq<u8>, tail: Seq<u8>)
    requires
        encodable(FieldValueView::ByteArray(b)),
    ensures
        decodes_back(FieldValueView::ByteArray(b), tail),
{
    let e = encode_value(FieldValueView::ByteArray(b));
    let body = e.skip(1);
    assert(e + tail =~= seq![e[0]] + (body + tail));
    assert((e + tail).skip(1) =~= body + tail);
    assert(body =~= framed(b));
    lemma_framed(b, tail);
}

proof fn lemma_timestamp_round_trip(x: u64, tail: Seq<u8>)
    ensures
        decodes_back(FieldValueView::Timestamp(x), tail),
{
    let e = encode_value(FieldValueView::Timestamp(x));
    let body = e.skip(1);
    assert(e + tail =~= seq![e[0]] + (body + tail));
    assert((e + tail).skip(1) =~= body + tail);
    assert(body =~= be64_octets(x));
    lemma_u64_octets(x, tail);
}

proof fn lemma_void_round_trip(tail: Seq<u8>)
    ensures
        decodes_back(FieldValueView::Void, tail),
{
    let e = encode_value(FieldValueView::Void);
    let body = e.skip(1);
    assert(e + tail =~= seq![e[0]] + (body + tail));
    assert((e + tail).skip(1) =~= body + tail);
    assert(body + tail =~= tail);
}

proof fn lemma_array_round_trip(a: Seq<FieldValueView>, tail: Seq<u8>)
    requires
        encodable(FieldValueView::FieldArray(a)),
    ensures
        decodes_back(FieldValueView::FieldArray(a), tail),
    decreases encode_value(FieldValueView::FieldArray(a)).len(), 0nat,
{
    let e = encode_value(FieldValueView::FieldArray(a));
    let body = e.skip(1);
    let w = values_octets(a);
    assert(e + tail =~= seq![e[0]] + (body + tail));
    assert((e + tail).skip(1) =~= body + tail);
    assert(body =~= framed(w));
    lemma_framed(w, tail);
    lemma_values_round_trip(a);
}

proof fn lemma_table_round_trip(t: FieldTableView, tail: Seq<u8>)
    requires
        encodable(FieldValueView::FieldTable(t)),
    ensures
        decodes_back(FieldValueView::FieldTable(t), tail),
    decreases encode_value(FieldValueView::FieldTable(t)).len(), 0nat,
{
    let e = encode_value(FieldValueView::FieldTable(t));
    let body = e.skip(1);
    let w = entries_octets(t);
    reveal(spec_field_table);
    assert(e + tail =~= seq![e[0]] + (body + tail));
    assert((e + tail).skip(1) =~= body + tail);
    assert(body =~= framed(w));
    lemma_framed(w, tail);
    lemma_entries_round_trip(t);
}

/// Decoding the encoding of an encodable value, followed by any octets,
/// gives back the value and leaves exactly those octets.
pub proof fn lemma_value_round_trip(v: FieldValueView, tail: Seq<u8>)
    requires
        encodable(v),
    ensures
        decodes_back(v, tail),
    decreases encode_value(v).len(), 1nat,
{
    match v {
        FieldValueView::Boolean(b) => lemma_boolean_round_trip(b, tail),
        FieldValueView::I8(x) => lemma_i8_round_trip(x, tail),
        FieldValueView::U8(x) => lemma_u8_round_trip(x, tail),
        FieldValueView::I16(x) => lemma_i16_round_trip(x, tail),
        FieldValueView::U16(x) => lemma_u16_round_trip(x, tail),
        FieldValueView::I32(x) => lemma_i32_round_trip(x, tail),
        FieldValueView::U32(x) => lemma_u32_round_trip(x, tail),
        FieldValueView::I64(x) => lemma_i64_round_trip(x, tail),
        FieldValueView::U64(x) => lemma_u64_round_trip(x, tail),
        FieldValueView::F32(x) => lemma_f32_round_trip(x, tail),
        FieldValueView::F64(x) => lemma_f64_round_trip(x, tail),
        FieldValueView::Decimal(d) => lemma_decimal_round_trip(d, tail),
        FieldValueView::LongStr(b) => lemma_long_str_round_trip(b, tail),
        FieldValueView::ByteArray(b) => lemma_byte_array_round_trip(b, tail),
        FieldValueView::Timestamp(x) => lemma_timestamp_round_trip(x, tail),
        FieldValueView::Void => lemma_void_round_trip(tail),
        FieldValueView::FieldArray(a) => lemma_array_round_trip(a, tail),
        FieldValueView::FieldTable(t) => lemma_table_round_trip(t, tail),
    }
}

/// The values of an array, encoded one after the other, decode back to
/// exactly those values.
pub proof fn lemma_values_round_trip(a: Seq<FieldValueView>)
    requires
        forall|i: int| 0 <= i < a.len() ==> encodable(#[trigger] a[i]),
    ensures
        spec_array_values(values_octets(a)) == Ok::<Seq<FieldValueView>, FrameDecodeErr>(a),
    decreases values_octets(a).len(), 2nat,
{
    if a.len() == 0 {
        assert(values_octets(a) =~= Seq::<u8>::empty());
        assert(a =~= Seq::<FieldValueView>::empty());
    } else {
        let rest = a.drop_first();
        lemma_value_encodings_cons(a);
        lemma_encoding_nonempty(a[0]);
        lemma_value_round_trip(a[0], values_octets(rest));
        assert(forall|i: int| 0 <= i < rest.len() ==> #[trigger] rest[i] == a[i + 1]);
        lemma_values_round_trip(rest);
        assert(seq![a[0]] + rest =~= a);
    }
}

/// The entries of a table, encoded one after the other, decode back to
/// exactly those entries.
pub proof fn lemma_entries_round_trip(t: FieldTableView)
    requires
        forall|i: int| 0 <= i < t.len() ==> valid_field_name(#[trigger] t[i].0) && encodable(t[i].1),
    ensures
        spec_table_entries(entries_octets(t)) == Ok::<FieldTableView, FrameDecodeErr>(t),
    decreases entries_octets(t).len(), 2nat,
{
    if t.len() == 0 {
        assert(entries_octets(t) =~= Seq::<u8>::empty());
        assert(t =~= Seq::<(Seq<u8>, FieldValueView)>::empty());
    } else {
        let rest = t.drop_first();
        let name = t[0].0;
        let v = t[0].1;
        let after = encode_value(v) + entries_octets(rest);
        lemma_entry_encodings_cons(t);
        let s = entries_octets(t);
        assert(s =~= seq![name.len() as u8] + (name + after));
        assert(s.skip(1) =~= name + after);
        assert(s.skip(1).take(name.len() as int) =~= name);
        assert(s.skip(1).skip(name.len() as int) =~= after);
        assert(spec_field_name(s) == Ok::<(Seq<u8>, Seq<u8>), FrameDecodeErr>((after, name)));
        lemma_encoding_nonempty(v);
        lemma_value_round_trip(v, entries_octets(rest));
        assert(forall|i: int| 0 <= i < rest.len() ==> #[trigger] rest[i] == t[i + 1]);
        lemma_entries_round_trip(rest);
        assert(seq![(name, v)] + rest =~= t);
    }
}

/// A field table whose entries have valid names and encodable values, and
/// whose encoding fits a 32-bit length, decodes from its length-prefixed
/// encoding back to exactly those entries, leaving whatever follows.
pub proof fn lemma_field_table_round_trip(t: FieldTableView, tail: Seq<u8>)
    requires
        forall|i: int| 0 <= i < t.len() ==> valid_field_name(#[trigger] t[i].0) && encodable(t[i].1),
        entries_octets(t).len() < 0x1_0000_0000,
    ensures
        spec_field_table(framed(entries_octets(t)) + tail) == Ok::<(Seq<u8>, FieldTableView), FrameDecodeErr>((tail, t)),
{
    reveal(spec_field_table);
    lemma_framed(entries_octets(t), tail);
    lemma_entries_round_trip(t);
}

/// Concatenation of octet strings is associative.
pub proof fn lemma_concat_assoc(a: Seq<u8>, b: Seq<u8>, c: Seq<u8>)
    ensures
        (a + b) + c == a + (b + c),
{
    assert((a + b) + c =~= a + (b + c));
}

/// A short string: its octet length, then its octets.
pub open spec fn short_octets(b: Seq<u8>) -> Seq<u8> {
    seq![b.len() as u8] + b
}

/// Up to five flags packed into one octet, flag 0 in bit 0.
pub open spec fn pack_bits(b0: bool, b1: bool, b2: bool, b3: bool, b4: bool) -> u8 {
    ((if b0 { 1u8 } else { 0u8 }) | (if b1 { 2u8 } else { 0u8 }) | (if b2 { 4u8 } else { 0u8 })
        | (if b3 { 8u8 } else { 0u8 }) | (if b4 { 16u8 } else { 0u8 })) as u8
}

pub(crate) proof fn lemma_pack_bits(b0: bool, b1: bool, b2: bool, b3: bool, b4: bool)
    ensures
        bit(pack_bits(b0, b1, b2, b3, b4), 0) == b0,
        bit(pack_bits(b0, b1, b2, b3, b4), 1) == b1,
        bit(pack_bits(b0, b1, b2, b3, b4), 2) == b2,
        bit(pack_bits(b0, b1, b2, b3, b4), 3) == b3,
        bit(pack_bits(b0, b1, b2, b3, b4), 4) == b4,
{
    let x0: u8 = if b0 { 1u8 } else { 0u8 };
    let x1: u8 = if b1 { 2u8 } else { 0u8 };
    let x2: u8 = if b2 { 4u8 } else { 0u8 };
    let x3: u8 = if b3 { 8u8 } else { 0u8 };
    let x4: u8 = if b4 { 16u8 } else { 0u8 };
    let f = pack_bits(b0, b1, b2, b3, b4);
    assert(f == x0 | x1 | x2 | x3 | x4);
    assert((x0 == 0u8 || x0 == 1u8) && (x1 == 0u8 || x1 == 2u8) && (x2 == 0u8 || x2 == 4u8)
        && (x3 == 0u8 || x3 == 8u8) && (x4 == 0u8 || x4 == 16u8) ==> {
        let g = x0 | x1 | x2 | x3 | x4;
        &&& ((g >> 0u8) & 1u8 == 1u8) == (x0 == 1u8)
        &&& ((g >> 1u8) & 1u8 == 1u8) == (x1 == 2u8)
        &&& ((g >> 2u8) & 1u8 == 1u8) == (x2 == 4u8)
        &&& ((g >> 3u8) & 1u8 == 1u8) == (x3 == 8u8)
        &&& ((g >> 4u8) & 1u8 == 1u8) == (x4 == 16u8)
    }) by (bit_vector);
}

pub(crate) proof fn lemma_u8_octet(x: u8, t: Seq<u8>)
    ensures
        spec_u8(seq![x] + t) == Ok::<(Seq<u8>, u8), FrameDecodeErr>((t, x)),
{
    assert((seq![x] + t).skip(1) =~= t);
}

pub(crate) proof fn lemma_short_octets(b: Seq<u8>, t: Seq<u8>)
    requires
        b.len() < 0x100,
    ensures
        spec_short_str(short_octets(b) + t) == Ok::<(Seq<u8>, Seq<u8>), FrameDecodeErr>((t, b)),
{
    let s = short_octets(b) + t;
    assert(s.skip(1) =~= b + t);
    assert((b + t).take(b.len() as int) =~= b);
    assert((b + t).skip(b.len() as int) =~= t);
}

pub(crate) proof fn lemma_long_octets(b: Seq<u8>, t: Seq<u8>)
    requires
        b.len() < 0x1_0000_0000,
    ensures
        spec_long_str(framed(b) + t) == Ok::<(Seq<u8>, Seq<u8>), FrameDecodeErr>((t, b)),
{
    lemma_framed(b, t);
}

} // verus!
