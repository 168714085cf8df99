//! Content-header payloads: class, body size, property flags and the
//! property list that the flags select.
use vstd::prelude::*;
use crate::error::FrameDecodeErr;
use crate::field::{map_read, parse_field_table, spec_field_table, FieldTable, FieldTableView};
use crate::method::{class_from_id, class_of, Class};
use crate::util::{
    parse_short_string, read_u16, read_u64, read_u8, read_view, spec_short_str, spec_u16, spec_u64,
    spec_u8, Read,
};

verus! {

/// The properties of the Basic class, each present or absent as its flag says.
#[derive(Debug, PartialEq)]
pub struct BasicProperties<S, T> {
    pub content_type: Option<S>,
    pub content_encoding: Option<S>,
    pub headers: Option<T>,
    pub delivery_mode: Option<u8>,
    pub priority: Option<u8>,
    pub correlation_id: Option<S>,
    pub reply_to: Option<S>,
    pub expiration: Option<S>,
    pub message_id: Option<S>,
    pub timestamp: Option<u64>,
    pub message_type: Option<S>,
    pub user_id: Option<S>,
    pub app_id: Option<S>,
    pub cluster_id: Option<S>,
}

/// A decoded content header. The reserved weight field is always zero.
#[derive(Debug, PartialEq)]
pub struct ContentHeader<S, T> {
    pub class: Class,
    pub body_size: u64,
    pub properties: BasicProperties<S, T>,
}

/// The mathematical value of a content header.
pub type ContentHeaderView = ContentHeader<Seq<u8>, FieldTableView>;

/// Basic properties as the decoder returns them.
pub type Properties = BasicProperties<Vec<u8>, FieldTable>;

/// The mathematical value of `Properties`.
pub type PropertiesView = BasicProperties<Seq<u8>, FieldTableView>;

pub open spec fn opt_bytes_view(o: Option<Vec<u8>>) -> Option<Seq<u8>> {
    match o {
        Some(b) => Some(b@),
        None => None,
    }
}

pub open spec fn opt_table_view(o: Option<FieldTable>) -> Option<FieldTableView> {
    match o {
        Some(t) => Some(t@),
        None => None,
    }
}

impl ContentHeader<Vec<u8>, FieldTable> {
    pub open spec fn view(&self) -> ContentHeaderView {
        ContentHeader { class: self.class, body_size: self.body_size, properties: self.properties@ }
    }
}

impl BasicProperties<Vec<u8>, FieldTable> {
    pub open spec fn view(&self) -> PropertiesView {
        let p = self;
        BasicProperties {
                content_type: opt_bytes_view(p.content_type),
                content_encoding: opt_bytes_view(p.content_encoding),
                headers: opt_table_view(p.headers),
                delivery_mode: p.delivery_mode,
                priority: p.priority,
                correlation_id: opt_bytes_view(p.correlation_id),
                reply_to: opt_bytes_view(p.reply_to),
                expiration: opt_bytes_view(p.expiration),
                message_id: opt_bytes_view(p.message_id),
                timestamp: p.timestamp,
                message_type: opt_bytes_view(p.message_type),
                user_id: opt_bytes_view(p.user_id),
                app_id: opt_bytes_view(p.app_id),
                cluster_id: opt_bytes_view(p.cluster_id),
        }
    }
}

/// The view of a read whose value is an optional byte string.
pub open spec fn opt_bytes_read_view(
    r: Result<(&[u8], Option<Vec<u8>>), FrameDecodeErr>,
) -> Read<Option<Seq<u8>>> {
    match r {
        Ok((rest, v)) => Ok((rest@, opt_bytes_view(v))),
        Err(e) => Err(e),
    }
}

/// The view of a read whose value is an optional field table.
pub open spec fn opt_table_read_view(
    r: Result<(&[u8], Option<FieldTable>), FrameDecodeErr>,
) -> Read<Option<FieldTableView>> {
    match r {
        Ok((rest, v)) => Ok((rest@, opt_table_view(v))),
        Err(e) => Err(e),
    }
}

/// The view of a read whose value is a property list.
pub open spec fn properties_read_view(
    r: Result<(&[u8], Properties), FrameDecodeErr>,
) -> Read<PropertiesView> {
    match r {
        Ok((rest, p)) => Ok((rest@, p@)),
        Err(e) => Err(e),
    }
}

/// The view of a read whose value is a list of flag words.
pub open spec fn words_read_view(r: Result<(&[u8], Vec<u16>), FrameDecodeErr>) -> Read<Seq<u16>> {
    match r {
        Ok((rest, ws)) => Ok((rest@, ws@)),
        Err(e) => Err(e),
    }
}

/// Whether property `i` (in declaration order) is flagged in the first flag
/// word: bit 14 flags the first property, bit 0 the fifteenth.
#[verifier::opaque]
pub open spec fn property_flag(w: u16, i: u16) -> bool {
    (w >> ((14 - i) as u16)) & 1u16 == 1u16
}

/// Whether the flag words flag only properties that `class` declares: the
/// Basic class declares fourteen, every other class none.
pub open spec fn flags_fit(class: Class, words: Seq<u16>) -> bool {
    forall|k: int| 0 <= k < words.len() ==> #[trigger] words[k] & unused_flags(class, k) == 0
}

/// The property bits of flag word `k` that name no property of `class`.
pub open spec fn unused_flags(class: Class, k: int) -> u16 {
    if k == 0 && class == Class::Basic { 0x0001 } else { 0x7fff }
}

/// Property flag words: each word whose top bit is set is followed by another.
pub open spec fn spec_flag_words(s: Seq<u8>) -> Read<Seq<u16>>
    decreases s.len(),
{
    match spec_u16(s) {
        Err(e) => Err(e),
        Ok((rest, w)) => if w & 0x8000 == 0 {
            Ok((rest, seq![w]))
        } else if rest.len() < s.len() {
            match spec_flag_words(rest) {
                Err(e) => Err(e),
                Ok((rest, ws)) => Ok((rest, seq![w] + ws)),
            }
        } else {
            Err(FrameDecodeErr::ParseFrameFailed)
        },
    }
}

pub open spec fn spec_opt_short(s: Seq<u8>, present: bool) -> Read<Option<Seq<u8>>> {
    if present { map_read(spec_short_str(s), |b: Seq<u8>| Some(b)) } else { Ok((s, None)) }
}

pub open spec fn spec_opt_table(s: Seq<u8>, present: bool) -> Read<Option<FieldTableView>> {
    if present { map_read(spec_field_table(s), |t: FieldTableView| Some(t)) } else { Ok((s, None)) }
}

pub open spec fn spec_opt_u8(s: Seq<u8>, present: bool) -> Read<Option<u8>> {
    if present { map_read(spec_u8(s), |x: u8| Some(x)) } else { Ok((s, None)) }
}

pub open spec fn spec_opt_u64(s: Seq<u8>, present: bool) -> Read<Option<u64>> {
    if present { map_read(spec_u64(s), |x: u64| Some(x)) } else { Ok((s, None)) }
}

/// No property present.
pub open spec fn no_properties() -> PropertiesView {
    BasicProperties {
        content_type: None,
        content_encoding: None,
        headers: None,
        delivery_mode: None,
        priority: None,
        correlation_id: None,
        reply_to: None,
        expiration: None,
        message_id: None,
        timestamp: None,
        message_type: None,
        user_id: None,
        app_id: None,
        cluster_id: None,
    }
}

/// Properties 0 to 4, as flagged in `w`; the others are kept from `acc`.
#[verifier::opaque]
pub open spec fn spec_properties_0(s: Seq<u8>, w: u16, acc: PropertiesView) -> Read<
    PropertiesView,
> {
    match spec_opt_short(s, property_flag(w, 0)) {
        Err(e) => Err(e),
        Ok((s, content_type)) =>
            match spec_opt_short(s, property_flag(w, 1)) {
                Err(e) => Err(e),
                Ok((s, content_encoding)) =>
                    match spec_opt_table(s, property_flag(w, 2)) {
                        Err(e) => Err(e),
                        Ok((s, headers)) =>
                            match spec_opt_u8(s, property_flag(w, 3)) {
                                Err(e) => Err(e),
                                Ok((s, delivery_mode)) =>
                                    match spec_opt_u8(s, property_flag(w, 4)) {
                                        Err(e) => Err(e),
                                        Ok((s, priority)) =>
                                            Ok((s, BasicProperties {
                                                content_type,
                                                content_encoding,
                                                headers,
                                                delivery_mode,
                                                priority,
                                                correlation_id: acc.correlation_id,
                                                reply_to: acc.reply_to,
                                                expiration: acc.expiration,
                                                message_id: acc.message_id,
                                                timestamp: acc.timestamp,
                                                message_type: acc.message_type,
                                                user_id: acc.user_id,
                                                app_id: acc.app_id,
                                                cluster_id: acc.cluster_id,
                                            })),
                                    },
                            },
                    },
            },
    }
}

/// Properties 5 to 9, as flagged in `w`; the others are kept from `acc`.
#[verifier::opaque]
pub open spec fn spec_properties_1(s: Seq<u8>, w: u16, acc: PropertiesView) -> Read<
    PropertiesView,
> {
    match spec_opt_short(s, property_flag(w, 5)) {
        Err(e) => Err(e),
        Ok((s, correlation_id)) =>
            match spec_opt_short(s, property_flag(w, 6)) {
                Err(e) => Err(e),
                Ok((s, reply_to)) =>
                    match spec_opt_short(s, property_flag(w, 7)) {
                        Err(e) => Err(e),
                        Ok((s, expiration)) =>
                            match spec_opt_short(s, property_flag(w, 8)) {
                                Err(e) => Err(e),
                                Ok((s, message_id)) =>
                                    match spec_opt_u64(s, property_flag(w, 9)) {
                                        Err(e) => Err(e),
                                        Ok((s, timestamp)) =>
                                            Ok((s, BasicProperties {
                                                content_type: acc.content_type,
                                                content_encoding: acc.content_encoding,
                                                headers: acc.headers,
                                                delivery_mode: acc.delivery_mode,
                                                priority: acc.priority,
                                                correlation_id,
                                                reply_to,
                                                expiration,
                                                message_id,
                                                timestamp,
                                                message_type: acc.message_type,
                                                user_id: acc.user_id,
                                                app_id: acc.app_id,
                                                cluster_id: acc.cluster_id,
                                            })),
                                    },
                            },
                    },
            },
    }
}

/// Properties 10 to 13, as flagged in `w`; the others are kept from `acc`.
#[verifier::opaque]
pub open spec fn spec_properties_2(s: Seq<u8>, w: u16, acc: PropertiesView) -> Read<
    PropertiesView,
> {
    match spec_opt_short(s, property_flag(w, 10)) {
        Err(e) => Err(e),
        Ok((s, message_type)) =>
            match spec_opt_short(s, property_flag(w, 11)) {
                Err(e) => Err(e),
                Ok((s, user_id)) =>
                    match spec_opt_short(s, property_flag(w, 12)) {
                        Err(e) => Err(e),
                        Ok((s, app_id)) =>
                            match spec_opt_short(s, property_flag(w, 13)) {
                                Err(e) => Err(e),
                                Ok((s, cluster_id)) =>
                                    Ok((s, BasicProperties {
                                        content_type: acc.content_type,
                                        content_encoding: acc.content_encoding,
                                        headers: acc.headers,
                                        delivery_mode: acc.delivery_mode,
                                        priority: acc.priority,
                                        correlation_id: acc.correlation_id,
                                        reply_to: acc.reply_to,
                                        expiration: acc.expiration,
                                        message_id: acc.message_id,
                                        timestamp: acc.timestamp,
                                        message_type,
                                        user_id,
                                        app_id,
                                        cluster_id,
                                    })),
                            },
                    },
            },
    }
}

/// The property list selected by the first flag word `w`, in declaration order.
pub open spec fn spec_basic_properties(
    s: Seq<u8>,
    w: u16,
) -> Result<PropertiesView, FrameDecodeErr> {
    match spec_properties_0(s, w, no_properties()) {
        Err(e) => Err(e),
        Ok((s, acc)) => match spec_properties_1(s, w, acc) {
            Err(e) => Err(e),
            Ok((s, acc)) => match spec_properties_2(s, w, acc) {
                Err(e) => Err(e),
                Ok((_, acc)) => Ok(acc),
            },
        },
    }
}

/// Content-header payload: class id, weight and body size (all read before
/// the class id is looked up and the weight checked), flag words, properties.
pub open spec fn spec_content_header(s: Seq<u8>) -> Result<ContentHeaderView, FrameDecodeErr> {
    match spec_u16(s) {
        Err(e) => Err(e),
        Ok((s, class_id)) => match spec_u16(s) {
            Err(e) => Err(e),
            Ok((s, weight)) => match spec_u64(s) {
                Err(e) => Err(e),
                Ok((s, body_size)) => match class_of(class_id) {
                    None => Err(FrameDecodeErr::UnknownClassType),
                    Some(class) => if weight != 0 {
                        Err(FrameDecodeErr::ParseFrameFailed)
                    } else {
                        match spec_flag_words(s) {
                            Err(e) => Err(e),
                            Ok((s, words)) => if !flags_fit(class, words) {
                                Err(FrameDecodeErr::ParseFrameFailed)
                            } else {
                                match spec_basic_properties(s, words[0]) {
                                    Err(e) => Err(e),
                                    Ok(properties) => Ok(
                                        ContentHeader { class, body_size, properties },
                                    ),
                                }
                            },
                        }
                    },
                },
            },
        },
    }
}

fn property_present(w: u16, i: u16) -> (r: bool)
    requires
        i < 15,
    ensures
        r == property_flag(w, i),
{
    reveal(property_flag);
    (w >> (14 - i)) & 1u16 == 1u16
}

fn parse_flag_words(input: &[u8]) -> (r: Result<(&[u8], Vec<u16>), FrameDecodeErr>)
    ensures
        words_read_view(r) == spec_flag_words(input@),
    decreases input@.len(),
{
    let (rest, w) = read_u16(input)?;
    let mut words: Vec<u16> = Vec::new();
    words.push(w);
    if w & 0x8000 == 0 {
        return Ok((rest, words));
    }
    let (rest, mut more) = parse_flag_words(rest)?;
    let ghost tail = more@;
    words.append(&mut more);
    assert(words@ =~= seq![w] + tail);
    Ok((rest, words))
}

fn check_flags(class: Class, words: &Vec<u16>) -> (r: bool)
    ensures
        r == flags_fit(class, words@),
{
    let mut k: usize = 0;
    while k < words.len()
        invariant
            k <= words.len(),
            forall|j: int| 0 <= j < k ==> #[trigger] words@[j] & unused_flags(class, j) == 0,
        decreases words.len() - k,
    {
        let mask: u16 = if k == 0 && class == Class::Basic { 0x0001 } else { 0x7fff };
        if words[k] & mask != 0 {
            return false;
        }
        k = k + 1;
    }
    true
}

fn parse_opt_short(
    input: &[u8],
    present: bool,
) -> (r: Result<(&[u8], Option<Vec<u8>>), FrameDecodeErr>)
    ensures
        opt_bytes_read_view(r) == spec_opt_short(input@, present),
{
    if !present {
        return Ok((input, None));
    }
    let (rest, b) = parse_short_string(input)?;
    Ok((rest, Some(b)))
}

fn parse_opt_table(
    input: &[u8],
    present: bool,
) -> (r: Result<(&[u8], Option<FieldTable>), FrameDecodeErr>)
    ensures
        opt_table_read_view(r) == spec_opt_table(input@, present),
{
    if !present {
        return Ok((input, None));
    }
    let (rest, t) = parse_field_table(input)?;
    Ok((rest, Some(t)))
}

fn parse_opt_u8(input: &[u8], present: bool) -> (r: Result<(&[u8], Option<u8>), FrameDecodeErr>)
    ensures
        read_view(r) == spec_opt_u8(input@, present),
{
    if !present {
        return Ok((input, None));
    }
    let (rest, x) = read_u8(input)?;
    Ok((rest, Some(x)))
}

fn parse_opt_u64(input: &[u8], present: bool) -> (r: Result<(&[u8], Option<u64>), FrameDecodeErr>)
    ensures
        read_view(r) == spec_opt_u64(input@, present),
{
    if !present {
        return Ok((input, None));
    }
    let (rest, x) = read_u64(input)?;
    Ok((rest, Some(x)))
}

fn parse_properties_0(
    input: &[u8],
    w: u16,
    acc: Properties,
) -> (r: Result<(&[u8], Properties), FrameDecodeErr>)
    ensures
        properties_read_view(r) == spec_properties_0(input@, w, acc@),
{
    reveal(spec_properties_0);
    let (input, content_type) = parse_opt_short(input, property_present(w, 0))?;
    let (input, content_encoding) = parse_opt_short(input, property_present(w, 1))?;
    let (input, headers) = parse_opt_table(input, property_present(w, 2))?;
    let (input, delivery_mode) = parse_opt_u8(input, property_present(w, 3))?;
    let (input, priority) = parse_opt_u8(input, property_present(w, 4))?;
    Ok((input, BasicProperties {
        content_type,
        content_encoding,
        headers,
        delivery_mode,
        priority,
        correlation_id: acc.correlation_id,
        reply_to: acc.reply_to,
        expiration: acc.expiration,
        message_id: acc.message_id,
        timestamp: acc.timestamp,
        message_type: acc.message_type,
        user_id: acc.user_id,
        app_id: acc.app_id,
        cluster_id: acc.cluster_id,
    }))
}

fn parse_properties_1(
    input: &[u8],
    w: u16,
    acc: Properties,
) -> (r: Result<(&[u8], Properties), FrameDecodeErr>)
    ensures
        properties_read_view(r) == spec_properties_1(input@, w, acc@),
{
    reveal(spec_properties_1);
    let (input, correlation_id) = parse_opt_short(input, property_present(w, 5))?;
    let (input, reply_to) = parse_opt_short(input, property_present(w, 6))?;
    let (input, expiration) = parse_opt_short(input, property_present(w, 7))?;
    let (input, message_id) = parse_opt_short(input, property_present(w, 8))?;
    let (input, timestamp) = parse_opt_u64(input, property_present(w, 9))?;
    Ok((input, BasicProperties {
        content_type: acc.content_type,
        content_encoding: acc.content_encoding,
        headers: acc.headers,
        delivery_mode: acc.delivery_mode,
        priority: acc.priority,
        correlation_id,
        reply_to,
        expiration,
        message_id,
        timestamp,
        message_type: acc.message_type,
        user_id: acc.user_id,
        app_id: acc.app_id,
        cluster_id: acc.cluster_id,
    }))
}

fn parse_properties_2(
    input: &[u8],
    w: u16,
    acc: Properties,
) -> (r: Result<(&[u8], Properties), FrameDecodeErr>)
    ensures
        properties_read_view(r) == spec_properties_2(input@, w, acc@),
{
    reveal(spec_properties_2);
    let (input, message_type) = parse_opt_short(input, property_present(w, 10))?;
    let (input, user_id) = parse_opt_short(input, property_present(w, 11))?;
    let (input, app_id) = parse_opt_short(input, property_present(w, 12))?;
    let (input, cluster_id) = parse_opt_short(input, property_present(w, 13))?;
    Ok((input, BasicProperties {
        content_type: acc.content_type,
        content_encoding: acc.content_encoding,
        headers: acc.headers,
        delivery_mode: acc.delivery_mode,
        priority: acc.priority,
        correlation_id: acc.correlation_id,
        reply_to: acc.reply_to,
        expiration: acc.expiration,
        message_id: acc.message_id,
        timestamp: acc.timestamp,
        message_type,
        user_id,
        app_id,
        cluster_id,
    }))
}

fn parse_basic_properties(input: &[u8], w: u16) -> (r: Result<Properties, FrameDecodeErr>)
    ensures
        match r {
            Ok(p) => spec_basic_properties(input@, w) == Ok::<PropertiesView, FrameDecodeErr>(p@),
            Err(e) => spec_basic_properties(input@, w) == Err::<PropertiesView, FrameDecodeErr>(e),
        },
{
    let none = BasicProperties {
        content_type: None,
        content_encoding: None,
        headers: None,
        delivery_mode: None,
        priority: None,
        correlation_id: None,
        reply_to: None,
        expiration: None,
        message_id: None,
        timestamp: None,
        message_type: None,
        user_id: None,
        app_id: None,
        cluster_id: None,
    };
    assert(none@ == no_properties());
    let (input, acc) = parse_properties_0(input, w, none)?;
    let (input, acc) = parse_properties_1(input, w, acc)?;
    let (_, acc) = parse_properties_2(input, w, acc)?;
    Ok(acc)
}

/// Decodes a content-header payload.
pub fn parse_content_header(
    payload: &[u8],
) -> (r: Result<ContentHeader<Vec<u8>, FieldTable>, FrameDecodeErr>)
    ensures
        match r {
            Ok(h) => spec_content_header(payload@) == Ok::<ContentHeaderView, FrameDecodeErr>(h@),
            Err(e) => spec_content_header(payload@) == Err::<ContentHeaderView, FrameDecodeErr>(e),
        },
{
    let (input, class_id) = read_u16(payload)?;
    let (input, weight) = read_u16(input)?;
    let (input, body_size) = read_u64(input)?;
    let class = match class_from_id(class_id) {
        Some(c) => c,
        None => return Err(FrameDecodeErr::UnknownClassType),
    };
    if weight != 0 {
        return Err(FrameDecodeErr::ParseFrameFailed);
    }
    let (input, words) = parse_flag_words(input)?;
    if !check_flags(class, &words) {
        return Err(FrameDecodeErr::ParseFrameFailed);
    }
    let properties = parse_basic_properties(input, words[0])?;
    Ok(ContentHeader { class, body_size, properties })
}

} // verus!
