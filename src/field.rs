//! The field-table type system: tagged field values, field arrays and field
//! tables, each table or array parsed inside a window of exactly its declared
//! length.
use vstd::prelude::*;
use crate::error::{DomainError, FrameDecodeErr};
use crate::util::{
    be32, read_u8, read_u16, read_u32, read_u64, parse_short_string, parse_long_string,
    bytes_read_view, Read, signed8, signed16, signed32, signed64, spec_u8, spec_u16, spec_u32,
    spec_u64, spec_long_str, spec_short_str,
};

verus! {

/// A decimal number `value * 10^-scale`.
#[derive(Debug, Clone, Copy, PartialEq, Eq, Structural)]
pub struct Decimal {
    pub scale: u8,
    pub value: u32,
}

/// A field value as decoded. Floats are kept as their IEEE-754 bit patterns.
#[derive(Debug, PartialEq)]
pub enum FieldValue {
    Boolean(bool),
    I8(i8),
    U8(u8),
    I16(i16),
    U16(u16),
    I32(i32),
    U32(u32),
    I64(i64),
    U64(u64),
    F32(u32),
    F64(u64),
    Decimal(Decimal),
    LongStr(Vec<u8>),
    ByteArray(Vec<u8>),
    FieldArray(Vec<FieldValue>),
    Timestamp(u64),
    FieldTable(FieldTable),
    Void,
}

/// A field table: (name, value) pairs in wire order.
#[derive(Debug, PartialEq)]
pub struct FieldTable {
    pub entries: Vec<(Vec<u8>, FieldValue)>,
}

/// The mathematical value of a `FieldValue`.
pub enum FieldValueView {
    Boolean(bool),
    I8(i8),
    U8(u8),
    I16(i16),
    U16(u16),
    I32(i32),
    U32(u32),
    I64(i64),
    U64(u64),
    F32(u32),
    F64(u64),
    Decimal(Decimal),
    LongStr(Seq<u8>),
    ByteArray(Seq<u8>),
    FieldArray(Seq<FieldValueView>),
    Timestamp(u64),
    FieldTable(Seq<(Seq<u8>, FieldValueView)>),
    Void,
}

/// The mathematical value of a `FieldTable`.
pub type FieldTableView = Seq<(Seq<u8>, FieldValueView)>;

impl FieldValue {
    pub open spec fn view(&self) -> FieldValueView
        decreases self,
    {
        match self {
            FieldValue::Boolean(b) => FieldValueView::Boolean(*b),
            FieldValue::I8(x) => FieldValueView::I8(*x),
            FieldValue::U8(x) => FieldValueView::U8(*x),
            FieldValue::I16(x) => FieldValueView::I16(*x),
            FieldValue::U16(x) => FieldValueView::U16(*x),
            FieldValue::I32(x) => FieldValueView::I32(*x),
            FieldValue::U32(x) => FieldValueView::U32(*x),
            FieldValue::I64(x) => FieldValueView::I64(*x),
            FieldValue::U64(x) => FieldValueView::U64(*x),
            FieldValue::F32(x) => FieldValueView::F32(*x),
            FieldValue::F64(x) => FieldValueView::F64(*x),
            FieldValue::Decimal(d) => FieldValueView::Decimal(*d),
            FieldValue::LongStr(b) => FieldValueView::LongStr(b@),
            FieldValue::ByteArray(b) => FieldValueView::ByteArray(b@),
            FieldValue::FieldArray(a) => FieldValueView::FieldArray(
                Seq::new(
                    a.len() as nat,
                    |i: int|
                        if 0 <= i < a.len() {
                            a[i].view()
                        } else {
                            FieldValueView::Void
                        },
                ),
            ),
            FieldValue::Timestamp(t) => FieldValueView::Timestamp(*t),
            FieldValue::FieldTable(t) => FieldValueView::FieldTable(
                Seq::new(
                    t.entries.len() as nat,
                    |i: int|
                        if 0 <= i < t.entries.len() {
                            (t.entries[i].0@, t.entries[i].1.view())
                        } else {
                            (Seq::empty(), FieldValueView::Void)
                        },
                ),
            ),
            FieldValue::Void => FieldValueView::Void,
        }
    }
}

/// The views of a sequence of field values.
pub open spec fn values_view(a: Seq<FieldValue>) -> Seq<FieldValueView> {
    Seq::new(a.len(), |i: int| a[i]@)
}

/// The views of a sequence of table entries.
pub open spec fn entries_view(e: Seq<(Vec<u8>, FieldValue)>) -> FieldTableView {
    Seq::new(e.len(), |i: int| (e[i].0@, e[i].1@))
}

impl FieldTable {
    pub open spec fn view(&self) -> FieldTableView {
        entries_view(self.entries@)
    }
}

/// An octet that may begin a field name: a letter, `$` or `#`.
pub open spec fn name_start(c: u8) -> bool {
    (0x41 <= c <= 0x5a) || (0x61 <= c <= 0x7a) || c == 0x24 || c == 0x23
}

/// An octet that may continue a field name: also a digit or `_`.
pub open spec fn name_char(c: u8) -> bool {
    name_start(c) || (0x30 <= c <= 0x39) || c == 0x5f
}

/// Every octet of `name` after the first may continue a field name.
#[verifier::opaque]
pub open spec fn name_tail_valid(name: Seq<u8>) -> bool {
    forall|i: int| 1 <= i < name.len() ==> name_char(#[trigger] name[i])
}

/// The AMQP naming rule: 1 to 128 octets, the first a letter, `$` or `#`,
/// the others letters, `$`, `#`, digits or `_`.
pub open spec fn valid_field_name(name: Seq<u8>) -> bool {
    &&& 1 <= name.len() <= 128
    &&& name_start(name[0])
    &&& name_tail_valid(name)
}

pub open spec fn spec_field_name(s: Seq<u8>) -> Read<Seq<u8>> {
    match spec_short_str(s) {
        Err(e) => Err(e),
        Ok((rest, name)) => if valid_field_name(name) {
            Ok((rest, name))
        } else {
            Err(FrameDecodeErr::Amqp(DomainError::InvalidFieldName))
        },
    }
}

/// Applies `f` to the value of a successful read.
pub open spec fn map_read<A, B>(r: Read<A>, f: spec_fn(A) -> B) -> Read<B> {
    match r {
        Ok((rest, a)) => Ok((rest, f(a))),
        Err(e) => Err(e),
    }
}

/// A field value: a one-octet type tag, then the encoding that the tag selects.
pub open spec fn spec_field_value(s: Seq<u8>) -> Read<FieldValueView>
    decreases s.len(), 1nat,
{
    match spec_u8(s) {
        Err(e) => Err(e),
        Ok((s, tag)) => if tag == 0x74 {
            map_read(spec_u8(s), |x: u8| FieldValueView::Boolean(x != 0))
        } else if tag == 0x62 {
            map_read(spec_u8(s), |x: u8| FieldValueView::I8(signed8(x)))
        } else if tag == 0x42 {
            map_read(spec_u8(s), |x: u8| FieldValueView::U8(x))
        } else if tag == 0x73 {
            map_read(spec_u16(s), |x: u16| FieldValueView::I16(signed16(x)))
        } else if tag == 0x75 {
            map_read(spec_u16(s), |x: u16| FieldValueView::U16(x))
        } else if tag == 0x49 {
            map_read(spec_u32(s), |x: u32| FieldValueView::I32(signed32(x)))
        } else if tag == 0x69 {
            map_read(spec_u32(s), |x: u32| FieldValueView::U32(x))
        } else if tag == 0x6c {
            map_read(spec_u64(s), |x: u64| FieldValueView::I64(signed64(x)))
        } else if tag == 0x4c {
            map_read(spec_u64(s), |x: u64| FieldValueView::U64(x))
        } else if tag == 0x66 {
            map_read(spec_u32(s), |x: u32| FieldValueView::F32(x))
        } else if tag == 0x64 {
            map_read(spec_u64(s), |x: u64| FieldValueView::F64(x))
        } else if tag == 0x44 {
            match spec_u8(s) {
                Err(e) => Err(e),
                Ok((s, scale)) => map_read(
                    spec_u32(s),
                    |value: u32| FieldValueView::Decimal(Decimal { scale, value }),
                ),
            }
        } else if tag == 0x53 {
            map_read(spec_long_str(s), |b: Seq<u8>| FieldValueView::LongStr(b))
        } else if tag == 0x78 {
            map_read(spec_long_str(s), |b: Seq<u8>| FieldValueView::ByteArray(b))
        } else if tag == 0x41 {
            map_read(spec_field_array(s), |a: Seq<FieldValueView>| FieldValueView::FieldArray(a))
        } else if tag == 0x54 {
            map_read(spec_u64(s), |x: u64| FieldValueView::Timestamp(x))
        } else if tag == 0x46 {
            map_read(spec_field_table(s), |t: FieldTableView| FieldValueView::FieldTable(t))
        } else if tag == 0x56 {
            Ok((s, FieldValueView::Void))
        } else {
            Err(FrameDecodeErr::ParseFrameFailed)
        },
    }
}

/// A field table: a 32-bit length, then entries filling exactly that many octets.
#[verifier::opaque]
pub open spec fn spec_field_table(s: Seq<u8>) -> Read<FieldTableView>
    decreases s.len(), 0nat,
{
    match spec_u32(s) {
        Err(e) => Err(e),
        Ok((s, n)) => if n <= s.len() {
            match spec_table_entries(s.take(n as int)) {
                Err(e) => Err(e),
                Ok(t) => Ok((s.skip(n as int), t)),
            }
        } else {
            Err(FrameDecodeErr::ParseFrameFailed)
        },
    }
}

/// The entries of a table window, read until the window is empty.
pub open spec fn spec_table_entries(s: Seq<u8>) -> Result<FieldTableView, FrameDecodeErr>
    decreases s.len(), 2nat,
{
    if s.len() == 0 {
        Ok(Seq::empty())
    } else {
        match spec_field_name(s) {
            Err(e) => Err(e),
            Ok((s1, name)) => match spec_field_value(s1) {
                Err(e) => Err(e),
                Ok((s2, v)) => if s2.len() < s.len() {
                    match spec_table_entries(s2) {
                        Err(e) => Err(e),
                        Ok(t) => Ok(seq![(name, v)] + t),
                    }
                } else {
                    Err(FrameDecodeErr::ParseFrameFailed)
                },
            },
        }
    }
}

/// A field array: a 32-bit length, then values filling exactly that many octets.
pub open spec fn spec_field_array(s: Seq<u8>) -> Read<Seq<FieldValueView>>
    decreases s.len(), 0nat,
{
    match spec_u32(s) {
        Err(e) => Err(e),
        Ok((s, n)) => if n <= s.len() {
            match spec_array_values(s.take(n as int)) {
                Err(e) => Err(e),
                Ok(a) => Ok((s.skip(n as int), a)),
            }
        } else {
            Err(FrameDecodeErr::ParseFrameFailed)
        },
    }
}

/// The values of an array window, read until the window is empty.
pub open spec fn spec_array_values(s: Seq<u8>) -> Result<Seq<FieldValueView>, FrameDecodeErr>
    decreases s.len(), 2nat,
{
    if s.len() == 0 {
        Ok(Seq::empty())
    } else {
        match spec_field_value(s) {
            Err(e) => Err(e),
            Ok((s2, v)) => if s2.len() < s.len() {
                match spec_array_values(s2) {
                    Err(e) => Err(e),
                    Ok(a) => Ok(seq![v] + a),
                }
            } else {
                Err(FrameDecodeErr::ParseFrameFailed)
            },
        }
    }
}

/// The view of an exec field-value read.
pub open spec fn value_read_view(
    r: Result<(&[u8], FieldValue), FrameDecodeErr>,
) -> Read<FieldValueView> {
    match r {
        Ok((rest, v)) => Ok((rest@, v@)),
        Err(e) => Err(e),
    }
}

/// The view of an exec field-table read.
pub open spec fn table_read_view(
    r: Result<(&[u8], FieldTable), FrameDecodeErr>,
) -> Read<FieldTableView> {
    match r {
        Ok((rest, t)) => Ok((rest@, t@)),
        Err(e) => Err(e),
    }
}

/// The view of an exec field-array read.
pub open spec fn array_read_view(
    r: Result<(&[u8], Vec<FieldValue>), FrameDecodeErr>,
) -> Read<Seq<FieldValueView>> {
    match r {
        Ok((rest, a)) => Ok((rest@, values_view(a@))),
        Err(e) => Err(e),
    }
}

/// `p` followed by what `r` holds, or the error of `r`.
pub open spec fn prepend<T>(
    p: Seq<T>,
    r: Result<Seq<T>, FrameDecodeErr>,
) -> Result<Seq<T>, FrameDecodeErr> {
    match r {
        Ok(t) => Ok(p + t),
        Err(e) => Err(e),
    }
}

proof fn lemma_table_value_view(t: FieldTable)
    ensures
        FieldValue::FieldTable(t)@ == FieldValueView::FieldTable(t@),
{
    assert(FieldValue::FieldTable(t)@->FieldTable_0 =~= t@);
}

proof fn lemma_array_value_view(a: Vec<FieldValue>)
    ensures
        FieldValue::FieldArray(a)@ == FieldValueView::FieldArray(values_view(a@)),
{
    assert(FieldValue::FieldArray(a)@->FieldArray_0 =~= values_view(a@));
}

fn to_i8(x: u8) -> (r: i8)
    ensures
        r == signed8(x),
{
    if x < 0x80 { x as i8 } else { (x as i16 - 0x100) as i8 }
}

fn to_i16(x: u16) -> (r: i16)
    ensures
        r == signed16(x),
{
    if x < 0x8000 { x as i16 } else { (x as i32 - 0x1_0000) as i16 }
}

fn to_i32(x: u32) -> (r: i32)
    ensures
        r == signed32(x),
{
    if x < 0x8000_0000 { x as i32 } else { (x as i64 - 0x1_0000_0000) as i32 }
}

fn to_i64(x: u64) -> (r: i64)
    ensures
        r == signed64(x),
{
    if x < 0x8000_0000_0000_0000 { x as i64 } else { (x as i128 - 0x1_0000_0000_0000_0000) as i64 }
}

fn is_name_start(c: u8) -> (r: bool)
    ensures
        r == name_start(c),
{
    (0x41 <= c && c <= 0x5a) || (0x61 <= c && c <= 0x7a) || c == 0x24 || c == 0x23
}

fn is_name_char(c: u8) -> (r: bool)
    ensures
        r == name_char(c),
{
    is_name_start(c) || (0x30 <= c && c <= 0x39) || c == 0x5f
}

/// Checks `name` against the naming rule.
pub fn is_valid_field_name(name: &Vec<u8>) -> (r: bool)
    ensures
        r == valid_field_name(name@),
{
    reveal(name_tail_valid);
    if name.len() < 1 || name.len() > 128 || !is_name_start(name[0]) {
        return false;
    }
    let mut i: usize = 1;
    while i < name.len()
        invariant
            1 <= i <= name.len(),
            forall|j: int| 1 <= j < i ==> name_char(#[trigger] name@[j]),
        decreases name.len() - i,
    {
        if !is_name_char(name[i]) {
            reveal(name_tail_valid);
            return false;
        }
        i = i + 1;
    }
    true
}

/// Reads a field name and checks it against the naming rule.
pub fn parse_field_name(input: &[u8]) -> (r: Result<(&[u8], Vec<u8>), FrameDecodeErr>)
    ensures
        bytes_read_view(r) == spec_field_name(input@),
{
    let (rest, name) = parse_short_string(input)?;
    if !is_valid_field_name(&name) {
        return Err(FrameDecodeErr::Amqp(DomainError::InvalidFieldName));
    }
    Ok((rest, name))
}

/// Reads one tagged field value.
pub fn parse_field_value(input: &[u8]) -> (r: Result<(&[u8], FieldValue), FrameDecodeErr>)
    ensures
        value_read_view(r) == spec_field_value(input@),
        r matches Ok((rest, _)) ==> rest@.len() < input@.len(),
    decreases input@.len(), 1nat,
{
    reveal(spec_field_table);
    let (input, tag) = read_u8(input)?;
    if tag == 0x74 {
        let (rest, x) = read_u8(input)?;
        Ok((rest, FieldValue::Boolean(x != 0)))
    } else if tag == 0x62 {
        let (rest, x) = read_u8(input)?;
        Ok((rest, FieldValue::I8(to_i8(x))))
    } else if tag == 0x42 {
        let (rest, x) = read_u8(input)?;
        Ok((rest, FieldValue::U8(x)))
    } else if tag == 0x73 {
        let (rest, x) = read_u16(input)?;
        Ok((rest, FieldValue::I16(to_i16(x))))
    } else if tag == 0x75 {
        let (rest, x) = read_u16(input)?;
        Ok((rest, FieldValue::U16(x)))
    } else if tag == 0x49 {
        let (rest, x) = read_u32(input)?;
        Ok((rest, FieldValue::I32(to_i32(x))))
    } else if tag == 0x69 {
        let (rest, x) = read_u32(input)?;
        Ok((rest, FieldValue::U32(x)))
    } else if tag == 0x6c {
        let (rest, x) = read_u64(input)?;
        Ok((rest, FieldValue::I64(to_i64(x))))
    } else if tag == 0x4c {
        let (rest, x) = read_u64(input)?;
        Ok((rest, FieldValue::U64(x)))
    } else if tag == 0x66 {
        let (rest, x) = read_u32(input)?;
        Ok((rest, FieldValue::F32(x)))
    } else if tag == 0x64 {
        let (rest, x) = read_u64(input)?;
        Ok((rest, FieldValue::F64(x)))
    } else if tag == 0x44 {
        let (input, scale) = read_u8(input)?;
        let (rest, value) = read_u32(input)?;
        Ok((rest, FieldValue::Decimal(Decimal { scale, value })))
    } else if tag == 0x53 {
        let (rest, b) = parse_long_string(input)?;
        Ok((rest, FieldValue::LongStr(b)))
    } else if tag == 0x78 {
        let (rest, b) = parse_long_string(input)?;
        Ok((rest, FieldValue::ByteArray(b)))
    } else if tag == 0x41 {
        let (rest, a) = parse_field_array(input)?;
        proof {
            lemma_array_value_view(a);
        }
        Ok((rest, FieldValue::FieldArray(a)))
    } else if tag == 0x54 {
        let (rest, x) = read_u64(input)?;
        Ok((rest, FieldValue::Timestamp(x)))
    } else if tag == 0x46 {
        let (rest, t) = parse_field_table(input)?;
        proof {
            lemma_table_value_view(t);
        }
        Ok((rest, FieldValue::FieldTable(t)))
    } else if tag == 0x56 {
        Ok((input, FieldValue::Void))
    } else {
        Err(FrameDecodeErr::ParseFrameFailed)
    }
}

/// Reads a field table: its length, then the entries inside that window.
pub fn parse_field_table(input: &[u8]) -> (r: Result<(&[u8], FieldTable), FrameDecodeErr>)
    ensures
        table_read_view(r) == spec_field_table(input@),
        r matches Ok((rest, _)) ==> rest@.len() < input@.len(),
    decreases input@.len(), 0nat,
{
    reveal(spec_field_table);
    let (input, n) = read_u32(input)?;
    if n as u64 > input.len() as u64 {
        return Err(FrameDecodeErr::ParseFrameFailed);
    }
    let (window, rest) = input.split_at(n as usize);
    let entries = parse_table_entries(window)?;
    Ok((rest, FieldTable { entries }))
}

fn parse_table_entries(window: &[u8]) -> (r: Result<Vec<(Vec<u8>, FieldValue)>, FrameDecodeErr>)
    ensures
        match r {
            Ok(e) => spec_table_entries(window@) == Ok::<FieldTableView, FrameDecodeErr>(entries_view(e@)),
            Err(x) => spec_table_entries(window@) == Err::<FieldTableView, FrameDecodeErr>(x),
        },
    decreases window@.len(), 2nat,
{
    let mut entries: Vec<(Vec<u8>, FieldValue)> = Vec::new();
    let mut data = window;
    assert(entries_view(entries@) + Seq::empty() =~= Seq::empty());
    while data.len() != 0
        invariant
            data@.len() <= window@.len(),
            spec_table_entries(window@) == prepend(entries_view(entries@), spec_table_entries(data@)),
        decreases data@.len(),
    {
        let (d, name) = parse_field_name(data)?;
        let (d, value) = parse_field_value(d)?;
        let ghost before = entries_view(entries@);
        let ghost item = (name@, value@);
        entries.push((name, value));
        assert(entries_view(entries@) =~= before.push(item));
        proof {
            match spec_table_entries(d@) {
                Ok(t) => {
                    assert(before + (seq![item] + t) =~= before.push(item) + t);
                },
                Err(_) => {},
            }
        }
        data = d;
    }
    assert(entries_view(entries@) + Seq::empty() =~= entries_view(entries@));
    Ok(entries)
}

/// Reads a field array: its length, then the values inside that window.
pub fn parse_field_array(input: &[u8]) -> (r: Result<(&[u8], Vec<FieldValue>), FrameDecodeErr>)
    ensures
        array_read_view(r) == spec_field_array(input@),
        r matches Ok((rest, _)) ==> rest@.len() < input@.len(),
    decreases input@.len(), 0nat,
{
    let (input, n) = read_u32(input)?;
    if n as u64 > input.len() as u64 {
        return Err(FrameDecodeErr::ParseFrameFailed);
    }
    let (window, rest) = input.split_at(n as usize);
    let values = parse_array_values(window)?;
    Ok((rest, values))
}

fn parse_array_values(window: &[u8]) -> (r: Result<Vec<FieldValue>, FrameDecodeErr>)
    ensures
        match r {
            Ok(a) => spec_array_values(window@) == Ok::<Seq<FieldValueView>, FrameDecodeErr>(values_view(a@)),
            Err(x) => spec_array_values(window@) == Err::<Seq<FieldValueView>, FrameDecodeErr>(x),
        },
    decreases window@.len(), 2nat,
{
    let mut values: Vec<FieldValue> = Vec::new();
    let mut data = window;
    assert(values_view(values@) + Seq::empty() =~= Seq::empty());
    while data.len() != 0
        invariant
            data@.len() <= window@.len(),
            spec_array_values(window@) == prepend(values_view(values@), spec_array_values(data@)),
        decreases data@.len(),
    {
        let (d, value) = parse_field_value(data)?;
        let ghost before = values_view(values@);
        let ghost item = value@;
        values.push(value);
        assert(values_view(values@) =~= before.push(item));
        proof {
            match spec_array_values(d@) {
                Ok(t) => {
                    assert(before + (seq![item] + t) =~= before.push(item) + t);
                },
                Err(_) => {},
            }
        }
        data = d;
    }
    assert(values_view(values@) + Seq::empty() =~= values_view(values@));
    Ok(values)
}

/// No field-level read ever asks for more octets: each of its errors is fatal.
pub proof fn lemma_value_errors_fatal(s: Seq<u8>)
    ensures
        !(spec_field_value(s) matches Err(FrameDecodeErr::Incomplete)),
    decreases s.len(), 1nat,
{
    reveal(spec_field_table);
    if s.len() >= 1 {
        if s[0] == 0x41 {
            lemma_array_errors_fatal(s.skip(1));
        } else if s[0] == 0x46 {
            lemma_table_errors_fatal(s.skip(1));
        }
    }
}

pub proof fn lemma_table_errors_fatal(s: Seq<u8>)
    ensures
        !(spec_field_table(s) matches Err(FrameDecodeErr::Incomplete)),
    decreases s.len(), 0nat,
{
    reveal(spec_field_table);
    if s.len() >= 4 && be32(s) <= s.len() - 4 {
        lemma_entries_errors_fatal(s.skip(4).take(be32(s) as int));
    }
}

pub proof fn lemma_entries_errors_fatal(s: Seq<u8>)
    ensures
        !(spec_table_entries(s) matches Err(FrameDecodeErr::Incomplete)),
    decreases s.len(), 2nat,
{
    if s.len() > 0 {
        if let Ok((s1, _)) = spec_field_name(s) {
            lemma_value_errors_fatal(s1);
            if let Ok((s2, _)) = spec_field_value(s1) {
                if s2.len() < s.len() {
                    lemma_entries_errors_fatal(s2);
                }
            }
        }
    }
}

pub proof fn lemma_array_errors_fatal(s: Seq<u8>)
    ensures
        !(spec_field_array(s) matches Err(FrameDecodeErr::Incomplete)),
    decreases s.len(), 0nat,
{
    if s.len() >= 4 && be32(s) <= s.len() - 4 {
        lemma_values_errors_fatal(s.skip(4).take(be32(s) as int));
    }
}

pub proof fn lemma_values_errors_fatal(s: Seq<u8>)
    ensures
        !(spec_array_values(s) matches Err(FrameDecodeErr::Incomplete)),
    decreases s.len(), 2nat,
{
    if s.len() > 0 {
        lemma_value_errors_fatal(s);
        if let Ok((s2, _)) = spec_field_value(s) {
            if s2.len() < s.len() {
                lemma_values_errors_fatal(s2);
            }
        }
    }
}

/// A field table is read inside the window of exactly its declared length:
/// it succeeds only when that window is there, it then spans the 4 length
/// octets and the window and nothing more, its entries are exactly those
/// that fill the window, and entries that do not fill the window exactly
/// (a value running past its end, or octets left over) make a fatal error.
pub proof fn lemma_table_window(s: Seq<u8>)
    ensures
        spec_field_table(s) is Ok ==> s.len() >= 4 && be32(s) <= s.len() - 4,
        s.len() >= 4 && be32(s) <= s.len() - 4 ==> match spec_table_entries(
            s.skip(4).take(be32(s) as int),
        ) {
            Ok(t) => spec_field_table(s) == Ok::<(Seq<u8>, FieldTableView), FrameDecodeErr>(
                (s.skip(4 + be32(s)), t),
            ),
            Err(e) => spec_field_table(s) == Err::<(Seq<u8>, FieldTableView), FrameDecodeErr>(e)
                && e != FrameDecodeErr::Incomplete,
        },
{
    reveal(spec_field_table);
    if s.len() >= 4 && be32(s) <= s.len() - 4 {
        lemma_entries_errors_fatal(s.skip(4).take(be32(s) as int));
        assert(s.skip(4).skip(be32(s) as int) =~= s.skip(4 + be32(s)));
    }
}

/// A field array is read inside the window of exactly its declared length,
/// in the same way as a field table.
pub proof fn lemma_array_window(s: Seq<u8>)
    ensures
        spec_field_array(s) is Ok ==> s.len() >= 4 && be32(s) <= s.len() - 4,
        s.len() >= 4 && be32(s) <= s.len() - 4 ==> match spec_array_values(
            s.skip(4).take(be32(s) as int),
        ) {
            Ok(a) => spec_field_array(s) == Ok::<(Seq<u8>, Seq<FieldValueView>), FrameDecodeErr>(
                (s.skip(4 + be32(s)), a),
            ),
            Err(e) => spec_field_array(s) == Err::<(Seq<u8>, Seq<FieldValueView>), FrameDecodeErr>(e)
                && e != FrameDecodeErr::Incomplete,
        },
{
    if s.len() >= 4 && be32(s) <= s.len() - 4 {
        lemma_values_errors_fatal(s.skip(4).take(be32(s) as int));
        assert(s.skip(4).skip(be32(s) as int) =~= s.skip(4 + be32(s)));
    }
}

/// A field table never reads past its window: replacing everything after
/// the `4 + n` octets of length and window by any `x` gives the same entries
/// or the same error, and leaves exactly `x`. So a value that runs past the
/// end of the window fails even when the octets after the window would
/// complete it, and octets left over in the window are read as a further
/// entry, never skipped.
pub proof fn lemma_table_ignores_following(s: Seq<u8>, x: Seq<u8>)
    requires
        s.len() >= 4,
        be32(s) <= s.len() - 4,
    ensures
        spec_field_table(s.take(4 + be32(s)) + x) == match spec_field_table(s) {
            Ok((_, t)) => Ok::<(Seq<u8>, FieldTableView), FrameDecodeErr>((x, t)),
            Err(e) => Err(e),
        },
{
    reveal(spec_field_table);
    let n = be32(s) as int;
    let u = s.take(4 + n) + x;
    assert(u.take(4) =~= s.take(4));
    assert(u[0] == s[0] && u[1] == s[1] && u[2] == s[2] && u[3] == s[3]);
    assert(be32(u) == be32(s));
    assert(u.skip(4).take(n) =~= s.skip(4).take(n));
    assert(u.skip(4).skip(n) =~= x);
}

/// A field array never reads past its window, in the same way as a table.
pub proof fn lemma_array_ignores_following(s: Seq<u8>, x: Seq<u8>)
    requires
        s.len() >= 4,
        be32(s) <= s.len() - 4,
    ensures
        spec_field_array(s.take(4 + be32(s)) + x) == match spec_field_array(s) {
            Ok((_, a)) => Ok::<(Seq<u8>, Seq<FieldValueView>), FrameDecodeErr>((x, a)),
            Err(e) => Err(e),
        },
{
    let n = be32(s) as int;
    let u = s.take(4 + n) + x;
    assert(u.take(4) =~= s.take(4));
    assert(u[0] == s[0] && u[1] == s[1] && u[2] == s[2] && u[3] == s[3]);
    assert(be32(u) == be32(s));
    assert(u.skip(4).take(n) =~= s.skip(4).take(n));
    assert(u.skip(4).skip(n) =~= x);
}

} // verus!
