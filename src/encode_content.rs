//! A reference encoding of content headers, written as spec functions, and
//! the proof that the content-header decoder inverts it.
use vstd::prelude::*;
use crate::content::{
    flags_fit, no_properties, property_flag, spec_basic_properties, spec_content_header,
    spec_flag_words, spec_opt_short, spec_opt_table, spec_opt_u64, spec_opt_u8,
    spec_properties_0, spec_properties_1, spec_properties_2, unused_flags, BasicProperties,
    ContentHeaderView, PropertiesView,
};
use crate::encode::{
    lemma_concat_assoc, be16_octets, be64_octets, entries_octets, framed, lemma_short_octets, lemma_u16_octets,
    lemma_u64_octets, lemma_u8_octet, short_octets,
};
use crate::encode_args::{lemma_table_octets, table_encodable};
use crate::error::FrameDecodeErr;
use crate::field::FieldTableView;
use crate::method::{class_id, class_of, Class};

verus! {

pub open spec fn opt_short_octets(o: Option<Seq<u8>>) -> Seq<u8> {
    match o {
        Some(b) => short_octets(b),
        None => Seq::empty(),
    }
}

pub open spec fn opt_table_octets(o: Option<FieldTableView>) -> Seq<u8> {
    match o {
        Some(t) => framed(entries_octets(t)),
        None => Seq::empty(),
    }
}

pub open spec fn opt_u8_octets(o: Option<u8>) -> Seq<u8> {
    match o {
        Some(x) => seq![x],
        None => Seq::empty(),
    }
}

pub open spec fn opt_u64_octets(o: Option<u64>) -> Seq<u8> {
    match o {
        Some(x) => be64_octets(x),
        None => Seq::empty(),
    }
}

/// The flag of property `i` in the first flag word, when `present`.
pub open spec fn property_bit(present: bool, i: u16) -> u16 {
    if present { 1u16 << ((14 - i) as u16) } else { 0u16 }
}

/// The flag word that announces exactly the properties present in `p`.
#[verifier::opaque]
pub open spec fn flag_word(p: PropertiesView) -> u16 {
    flag_bits_of(
        p.content_type is Some,
        p.content_encoding is Some,
        p.headers is Some,
        p.delivery_mode is Some,
        p.priority is Some,
        p.correlation_id is Some,
        p.reply_to is Some,
        p.expiration is Some,
        p.message_id is Some,
        p.timestamp is Some,
        p.message_type is Some,
        p.user_id is Some,
        p.app_id is Some,
        p.cluster_id is Some,
    )
}

/// The octets of property `i` of `p`: empty when it is absent.
pub open spec fn property_octets(p: PropertiesView, i: int) -> Seq<u8> {
    if i == 0 {
        opt_short_octets(p.content_type)
    } else if i == 1 {
        opt_short_octets(p.content_encoding)
    } else if i == 2 {
        opt_table_octets(p.headers)
    } else if i == 3 {
        opt_u8_octets(p.delivery_mode)
    } else if i == 4 {
        opt_u8_octets(p.priority)
    } else if i == 5 {
        opt_short_octets(p.correlation_id)
    } else if i == 6 {
        opt_short_octets(p.reply_to)
    } else if i == 7 {
        opt_short_octets(p.expiration)
    } else if i == 8 {
        opt_short_octets(p.message_id)
    } else if i == 9 {
        opt_u64_octets(p.timestamp)
    } else if i == 10 {
        opt_short_octets(p.message_type)
    } else if i == 11 {
        opt_short_octets(p.user_id)
    } else if i == 12 {
        opt_short_octets(p.app_id)
    } else if i == 13 {
        opt_short_octets(p.cluster_id)
    } else {
        Seq::empty()
    }
}

/// The octets of properties `i` onwards of `p`, followed by `tail`.
pub open spec fn properties_onto(p: PropertiesView, i: int, tail: Seq<u8>) -> Seq<u8>
    decreases 14 - i,
{
    if i < 14 {
        property_octets(p, i) + properties_onto(p, i + 1, tail)
    } else {
        tail
    }
}

/// The octets of the properties present in `p`, in declaration order.
pub open spec fn encode_properties(p: PropertiesView) -> Seq<u8> {
    properties_onto(p, 0, Seq::empty())
}

proof fn lemma_properties_onto(p: PropertiesView, i: int, tail: Seq<u8>)
    ensures
        properties_onto(p, i, Seq::empty()) + tail == properties_onto(p, i, tail),
    decreases 14 - i,
{
    if i < 14 {
        lemma_properties_onto(p, i + 1, tail);
        lemma_concat_assoc(property_octets(p, i), properties_onto(p, i + 1, Seq::empty()), tail);
    } else {
        assert(Seq::<u8>::empty() + tail =~= tail);
    }
}

/// The payload octets of a content header; the reserved weight is zero and
/// a single flag word announces the properties.
pub open spec fn encode_content_header(h: ContentHeaderView) -> Seq<u8> {
    be16_octets(class_id(h.class)) + (be16_octets(0) + (be64_octets(h.body_size) + (be16_octets(
        flag_word(h.properties),
    ) + encode_properties(h.properties))))
}

/// A content header that the encoding carries: only the Basic class has
/// properties, short strings stay under 256 octets, the headers table is
/// encodable.
pub open spec fn header_encodable(h: ContentHeaderView) -> bool {
    let p = h.properties;
    &&& h.class != Class::Basic ==> p == no_properties()
    &&& (p.content_type matches Some(b) ==> b.len() < 0x100)
    &&& (p.content_encoding matches Some(b) ==> b.len() < 0x100)
    &&& (p.headers matches Some(t) ==> table_encodable(t))
    &&& (p.correlation_id matches Some(b) ==> b.len() < 0x100)
    &&& (p.reply_to matches Some(b) ==> b.len() < 0x100)
    &&& (p.expiration matches Some(b) ==> b.len() < 0x100)
    &&& (p.message_id matches Some(b) ==> b.len() < 0x100)
    &&& (p.message_type matches Some(b) ==> b.len() < 0x100)
    &&& (p.user_id matches Some(b) ==> b.len() < 0x100)
    &&& (p.app_id matches Some(b) ==> b.len() < 0x100)
    &&& (p.cluster_id matches Some(b) ==> b.len() < 0x100)
}

proof fn lemma_opt_short(o: Option<Seq<u8>>, t: Seq<u8>)
    requires
        o matches Some(b) ==> b.len() < 0x100,
    ensures
        spec_opt_short(opt_short_octets(o) + t, o is Some) == Ok::<(Seq<u8>, Option<Seq<u8>>), FrameDecodeErr>((t, o)),
{
    if let Some(b) = o {
        lemma_short_octets(b, t);
    } else {
        assert(Seq::<u8>::empty() + t =~= t);
    }
}

proof fn lemma_opt_table(o: Option<FieldTableView>, t: Seq<u8>)
    requires
        o matches Some(x) ==> table_encodable(x),
    ensures
        spec_opt_table(opt_table_octets(o) + t, o is Some) == Ok::<(Seq<u8>, Option<FieldTableView>), FrameDecodeErr>((t, o)),
{
    if let Some(x) = o {
        lemma_table_octets(x, t);
    } else {
        assert(Seq::<u8>::empty() + t =~= t);
    }
}

proof fn lemma_opt_u8(o: Option<u8>, t: Seq<u8>)
    ensures
        spec_opt_u8(opt_u8_octets(o) + t, o is Some) == Ok::<(Seq<u8>, Option<u8>), FrameDecodeErr>((t, o)),
{
    if let Some(x) = o {
        lemma_u8_octet(x, t);
    } else {
        assert(Seq::<u8>::empty() + t =~= t);
    }
}

proof fn lemma_opt_u64(o: Option<u64>, t: Seq<u8>)
    ensures
        spec_opt_u64(opt_u64_octets(o) + t, o is Some) == Ok::<(Seq<u8>, Option<u64>), FrameDecodeErr>((t, o)),
{
    if let Some(x) = o {
        lemma_u64_octets(x, t);
    } else {
        assert(Seq::<u8>::empty() + t =~= t);
    }
}

proof fn lemma_flag_bits_of(
    b0: bool,
    b1: bool,
    b2: bool,
    b3: bool,
    b4: bool,
    b5: bool,
    b6: bool,
    b7: bool,
    b8: bool,
    b9: bool,
    b10: bool,
    b11: bool,
    b12: bool,
    b13: bool,
)
    by (bit_vector)
    ensures
        (flag_bits_of(b0, b1, b2, b3, b4, b5, b6, b7, b8, b9, b10, b11, b12, b13) >> 14u16) & 1u16 == 1u16 <==> b0,
        (flag_bits_of(b0, b1, b2, b3, b4, b5, b6, b7, b8, b9, b10, b11, b12, b13) >> 13u16) & 1u16 == 1u16 <==> b1,
        (flag_bits_of(b0, b1, b2, b3, b4, b5, b6, b7, b8, b9, b10, b11, b12, b13) >> 12u16) & 1u16 == 1u16 <==> b2,
        (flag_bits_of(b0, b1, b2, b3, b4, b5, b6, b7, b8, b9, b10, b11, b12, b13) >> 11u16) & 1u16 == 1u16 <==> b3,
        (flag_bits_of(b0, b1, b2, b3, b4, b5, b6, b7, b8, b9, b10, b11, b12, b13) >> 10u16) & 1u16 == 1u16 <==> b4,
        (flag_bits_of(b0, b1, b2, b3, b4, b5, b6, b7, b8, b9, b10, b11, b12, b13) >> 9u16) & 1u16 == 1u16 <==> b5,
        (flag_bits_of(b0, b1, b2, b3, b4, b5, b6, b7, b8, b9, b10, b11, b12, b13) >> 8u16) & 1u16 == 1u16 <==> b6,
        (flag_bits_of(b0, b1, b2, b3, b4, b5, b6, b7, b8, b9, b10, b11, b12, b13) >> 7u16) & 1u16 == 1u16 <==> b7,
        (flag_bits_of(b0, b1, b2, b3, b4, b5, b6, b7, b8, b9, b10, b11, b12, b13) >> 6u16) & 1u16 == 1u16 <==> b8,
        (flag_bits_of(b0, b1, b2, b3, b4, b5, b6, b7, b8, b9, b10, b11, b12, b13) >> 5u16) & 1u16 == 1u16 <==> b9,
        (flag_bits_of(b0, b1, b2, b3, b4, b5, b6, b7, b8, b9, b10, b11, b12, b13) >> 4u16) & 1u16 == 1u16 <==> b10,
        (flag_bits_of(b0, b1, b2, b3, b4, b5, b6, b7, b8, b9, b10, b11, b12, b13) >> 3u16) & 1u16 == 1u16 <==> b11,
        (flag_bits_of(b0, b1, b2, b3, b4, b5, b6, b7, b8, b9, b10, b11, b12, b13) >> 2u16) & 1u16 == 1u16 <==> b12,
        (flag_bits_of(b0, b1, b2, b3, b4, b5, b6, b7, b8, b9, b10, b11, b12, b13) >> 1u16) & 1u16 == 1u16 <==> b13,
        flag_bits_of(b0, b1, b2, b3, b4, b5, b6, b7, b8, b9, b10, b11, b12, b13) & 0x8000 == 0,
        flag_bits_of(b0, b1, b2, b3, b4, b5, b6, b7, b8, b9, b10, b11, b12, b13) & 0x0001 == 0,
        !b0 && !b1 && !b2 && !b3 && !b4 && !b5 && !b6 && !b7 && !b8 && !b9 && !b10 && !b11 && !b12 && !b13 ==> flag_bits_of(b0, b1, b2, b3, b4, b5, b6, b7, b8, b9, b10, b11, b12, b13) & 0x7fff == 0,
{
}

proof fn lemma_flag_word_bits(p: PropertiesView)
    ensures
        property_flag(flag_word(p), 0) == p.content_type is Some,
        property_flag(flag_word(p), 1) == p.content_encoding is Some,
        property_flag(flag_word(p), 2) == p.headers is Some,
        property_flag(flag_word(p), 3) == p.delivery_mode is Some,
        property_flag(flag_word(p), 4) == p.priority is Some,
        property_flag(flag_word(p), 5) == p.correlation_id is Some,
        property_flag(flag_word(p), 6) == p.reply_to is Some,
        property_flag(flag_word(p), 7) == p.expiration is Some,
        property_flag(flag_word(p), 8) == p.message_id is Some,
        property_flag(flag_word(p), 9) == p.timestamp is Some,
        property_flag(flag_word(p), 10) == p.message_type is Some,
        property_flag(flag_word(p), 11) == p.user_id is Some,
        property_flag(flag_word(p), 12) == p.app_id is Some,
        property_flag(flag_word(p), 13) == p.cluster_id is Some,
        flag_word(p) & 0x8000 == 0,
        flag_word(p) & 0x0001 == 0,
        p == no_properties() ==> flag_word(p) & 0x7fff == 0,
{
    reveal(flag_word);
    reveal(property_flag);
    lemma_flag_bits_of(p.content_type is Some, p.content_encoding is Some, p.headers is Some, p.delivery_mode is Some, p.priority is Some, p.correlation_id is Some, p.reply_to is Some, p.expiration is Some, p.message_id is Some, p.timestamp is Some, p.message_type is Some, p.user_id is Some, p.app_id is Some, p.cluster_id is Some);
}

/// The flag word built from fourteen presence flags.
pub open spec fn flag_bits_of(
    b0: bool,
    b1: bool,
    b2: bool,
    b3: bool,
    b4: bool,
    b5: bool,
    b6: bool,
    b7: bool,
    b8: bool,
    b9: bool,
    b10: bool,
    b11: bool,
    b12: bool,
    b13: bool,
) -> u16 {
    property_bit(b0, 0)
        | property_bit(b1, 1)
        | property_bit(b2, 2)
        | property_bit(b3, 3)
        | property_bit(b4, 4)
        | property_bit(b5, 5)
        | property_bit(b6, 6)
        | property_bit(b7, 7)
        | property_bit(b8, 8)
        | property_bit(b9, 9)
        | property_bit(b10, 10)
        | property_bit(b11, 11)
        | property_bit(b12, 12)
        | property_bit(b13, 13)
}

proof fn lemma_properties_chunk_0(p: PropertiesView, w: u16, acc: PropertiesView, tail: Seq<u8>)
    requires
        property_flag(w, 0) == p.content_type is Some,
        p.content_type matches Some(b) ==> b.len() < 0x100,
        property_flag(w, 1) == p.content_encoding is Some,
        p.content_encoding matches Some(b) ==> b.len() < 0x100,
        property_flag(w, 2) == p.headers is Some,
        p.headers matches Some(t) ==> table_encodable(t),
        property_flag(w, 3) == p.delivery_mode is Some,
        property_flag(w, 4) == p.priority is Some,
    ensures
        spec_properties_0(properties_onto(p, 0, tail), w, acc) == Ok::<
            (Seq<u8>, PropertiesView),
            FrameDecodeErr,
        >((properties_onto(p, 5, tail), BasicProperties {
            content_type: p.content_type,
            content_encoding: p.content_encoding,
            headers: p.headers,
            delivery_mode: p.delivery_mode,
            priority: p.priority,
            correlation_id: acc.correlation_id,
            reply_to: acc.reply_to,
            expiration: acc.expiration,
            message_id: acc.message_id,
            timestamp: acc.timestamp,
            message_type: acc.message_type,
            user_id: acc.user_id,
            app_id: acc.app_id,
            cluster_id: acc.cluster_id,
        })),
{
    reveal(spec_properties_0);
    assert(properties_onto(p, 0, tail) == opt_short_octets(p.content_type) + properties_onto(p, 1, tail));
    lemma_opt_short(p.content_type, properties_onto(p, 1, tail));
    assert(properties_onto(p, 1, tail) == opt_short_octets(p.content_encoding) + properties_onto(p, 2, tail));
    lemma_opt_short(p.content_encoding, properties_onto(p, 2, tail));
    assert(properties_onto(p, 2, tail) == opt_table_octets(p.headers) + properties_onto(p, 3, tail));
    lemma_opt_table(p.headers, properties_onto(p, 3, tail));
    assert(properties_onto(p, 3, tail) == opt_u8_octets(p.delivery_mode) + properties_onto(p, 4, tail));
    lemma_opt_u8(p.delivery_mode, properties_onto(p, 4, tail));
    assert(properties_onto(p, 4, tail) == opt_u8_octets(p.priority) + properties_onto(p, 5, tail));
    lemma_opt_u8(p.priority, properties_onto(p, 5, tail));
}

proof fn lemma_properties_chunk_1(p: PropertiesView, w: u16, acc: PropertiesView, tail: Seq<u8>)
    requires
        property_flag(w, 5) == p.correlation_id is Some,
        p.correlation_id matches Some(b) ==> b.len() < 0x100,
        property_flag(w, 6) == p.reply_to is Some,
        p.reply_to matches Some(b) ==> b.len() < 0x100,
        property_flag(w, 7) == p.expiration is Some,
        p.expiration matches Some(b) ==> b.len() < 0x100,
        property_flag(w, 8) == p.message_id is Some,
        p.message_id matches Some(b) ==> b.len() < 0x100,
        property_flag(w, 9) == p.timestamp is Some,
    ensures
        spec_properties_1(properties_onto(p, 5, tail), w, acc) == Ok::<
            (Seq<u8>, PropertiesView),
            FrameDecodeErr,
        >((properties_onto(p, 10, tail), BasicProperties {
            content_type: acc.content_type,
            content_encoding: acc.content_encoding,
            headers: acc.headers,
            delivery_mode: acc.delivery_mode,
            priority: acc.priority,
            correlation_id: p.correlation_id,
            reply_to: p.reply_to,
            expiration: p.expiration,
            message_id: p.message_id,
            timestamp: p.timestamp,
            message_type: acc.message_type,
            user_id: acc.user_id,
            app_id: acc.app_id,
            cluster_id: acc.cluster_id,
        })),
{
    reveal(spec_properties_1);
    assert(properties_onto(p, 5, tail) == opt_short_octets(p.correlation_id) + properties_onto(p, 6, tail));
    lemma_opt_short(p.correlation_id, properties_onto(p, 6, tail));
    assert(properties_onto(p, 6, tail) == opt_short_octets(p.reply_to) + properties_onto(p, 7, tail));
    lemma_opt_short(p.reply_to, properties_onto(p, 7, tail));
    assert(properties_onto(p, 7, tail) == opt_short_octets(p.expiration) + properties_onto(p, 8, tail));
    lemma_opt_short(p.expiration, properties_onto(p, 8, tail));
    assert(properties_onto(p, 8, tail) == opt_short_octets(p.message_id) + properties_onto(p, 9, tail));
    lemma_opt_short(p.message_id, properties_onto(p, 9, tail));
    assert(properties_onto(p, 9, tail) == opt_u64_octets(p.timestamp) + properties_onto(p, 10, tail));
    lemma_opt_u64(p.timestamp, properties_onto(p, 10, tail));
}

proof fn lemma_properties_chunk_2(p: PropertiesView, w: u16, acc: PropertiesView, tail: Seq<u8>)
    requires
        property_flag(w, 10) == p.message_type is Some,
        p.message_type matches Some(b) ==> b.len() < 0x100,
        property_flag(w, 11) == p.user_id is Some,
        p.user_id matches Some(b) ==> b.len() < 0x100,
        property_flag(w, 12) == p.app_id is Some,
        p.app_id matches Some(b) ==> b.len() < 0x100,
        property_flag(w, 13) == p.cluster_id is Some,
        p.cluster_id matches Some(b) ==> b.len() < 0x100,
    ensures
        spec_properties_2(properties_onto(p, 10, tail), w, acc) == Ok::<
            (Seq<u8>, PropertiesView),
            FrameDecodeErr,
        >((properties_onto(p, 14, tail), BasicProperties {
            content_type: acc.content_type,
            content_encoding: acc.content_encoding,
            headers: acc.headers,
            delivery_mode: acc.delivery_mode,
            priority: acc.priority,
            correlation_id: acc.correlation_id,
            reply_to: acc.reply_to,
            expiration: acc.expiration,
            message_id: acc.message_id,
            timestamp: acc.timestamp,
            message_type: p.message_type,
            user_id: p.user_id,
            app_id: p.app_id,
            cluster_id: p.cluster_id,
        })),
{
    reveal(spec_properties_2);
    assert(properties_onto(p, 10, tail) == opt_short_octets(p.message_type) + properties_onto(p, 11, tail));
    lemma_opt_short(p.message_type, properties_onto(p, 11, tail));
    assert(properties_onto(p, 11, tail) == opt_short_octets(p.user_id) + properties_onto(p, 12, tail));
    lemma_opt_short(p.user_id, properties_onto(p, 12, tail));
    assert(properties_onto(p, 12, tail) == opt_short_octets(p.app_id) + properties_onto(p, 13, tail));
    lemma_opt_short(p.app_id, properties_onto(p, 13, tail));
    assert(properties_onto(p, 13, tail) == opt_short_octets(p.cluster_id) + properties_onto(p, 14, tail));
    lemma_opt_short(p.cluster_id, properties_onto(p, 14, tail));
}

proof fn lemma_properties_round_trip(p: PropertiesView, tail: Seq<u8>)
    requires
        p.content_type matches Some(b) ==> b.len() < 0x100,
        p.content_encoding matches Some(b) ==> b.len() < 0x100,
        p.headers matches Some(t) ==> table_encodable(t),
        p.correlation_id matches Some(b) ==> b.len() < 0x100,
        p.reply_to matches Some(b) ==> b.len() < 0x100,
        p.expiration matches Some(b) ==> b.len() < 0x100,
        p.message_id matches Some(b) ==> b.len() < 0x100,
        p.message_type matches Some(b) ==> b.len() < 0x100,
        p.user_id matches Some(b) ==> b.len() < 0x100,
        p.app_id matches Some(b) ==> b.len() < 0x100,
        p.cluster_id matches Some(b) ==> b.len() < 0x100,
    ensures
        spec_basic_properties(encode_properties(p) + tail, flag_word(p)) == Ok::<PropertiesView, FrameDecodeErr>(p),
{
    lemma_flag_word_bits(p);
    let w = flag_word(p);
    lemma_properties_onto(p, 0, tail);
    lemma_properties_chunk_0(p, w, no_properties(), tail);
    let a0 = BasicProperties {
        content_type: p.content_type,
        content_encoding: p.content_encoding,
        headers: p.headers,
        delivery_mode: p.delivery_mode,
        priority: p.priority,
        correlation_id: None,
        reply_to: None,
        expiration: None,
        message_id: None,
        timestamp: None,
        message_type: None,
        user_id: None,
        app_id: None,
        cluster_id: None,
    };
    lemma_properties_chunk_1(p, w, a0, tail);
    let a1 = BasicProperties {
        content_type: p.content_type,
        content_encoding: p.content_encoding,
        headers: p.headers,
        delivery_mode: p.delivery_mode,
        priority: p.priority,
        correlation_id: p.correlation_id,
        reply_to: p.reply_to,
        expiration: p.expiration,
        message_id: p.message_id,
        timestamp: p.timestamp,
        message_type: None,
        user_id: None,
        app_id: None,
        cluster_id: None,
    };
    lemma_properties_chunk_2(p, w, a1, tail);
    assert(properties_onto(p, 14, tail) == tail);
}

/// A content header that the encoding carries, followed by any octets,
/// decodes back to exactly that header.
pub proof fn lemma_content_header_round_trip(h: ContentHeaderView, tail: Seq<u8>)
    requires
        header_encodable(h),
    ensures
        spec_content_header(encode_content_header(h) + tail) == Ok::<ContentHeaderView, FrameDecodeErr>(h),
{
    let p = h.properties;
    let w = flag_word(p);
    let t4 = encode_properties(p) + tail;
    let t3 = be16_octets(w) + t4;
    let t2 = be64_octets(h.body_size) + t3;
    let t1 = be16_octets(0) + t2;
    let t0 = be16_octets(class_id(h.class)) + t1;
    let r3 = be16_octets(w) + encode_properties(p);
    let r2 = be64_octets(h.body_size) + r3;
    let r1 = be16_octets(0) + r2;
    let r0 = be16_octets(class_id(h.class)) + r1;
    lemma_concat_assoc(be16_octets(w), encode_properties(p), tail);
    lemma_concat_assoc(be64_octets(h.body_size), r3, tail);
    lemma_concat_assoc(be16_octets(0), r2, tail);
    lemma_concat_assoc(be16_octets(class_id(h.class)), r1, tail);
    assert(encode_content_header(h) == r0);
    lemma_u16_octets(class_id(h.class), t1);
    lemma_u16_octets(0, t2);
    lemma_u64_octets(h.body_size, t3);
    lemma_u16_octets(w, t4);
    lemma_flag_word_bits(p);
    assert(spec_flag_words(t3) == Ok::<(Seq<u8>, Seq<u16>), FrameDecodeErr>((t4, seq![w])));
    assert(class_of(class_id(h.class)) == Some(h.class));
    assert(seq![w][0] & unused_flags(h.class, 0) == 0);
    assert(flags_fit(h.class, seq![w]));
    lemma_properties_round_trip(p, tail);
}

} // verus!
