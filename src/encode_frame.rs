//! A reference encoding of frames, and the proof that the frame decoder
//! inverts it.
use vstd::prelude::*;
use crate::encode::{be16_octets, be32_octets, lemma_u16_octets, lemma_u32_octets};
use crate::encode_args::{
    arguments_encodable, encode_arguments, lemma_arguments_round_trip, method_of_arguments,
};
use crate::encode_content::{encode_content_header, header_encodable, lemma_content_header_round_trip};
use crate::error::FrameDecodeErr;
use crate::method::{class_id, class_of, class_of_method, method_id, method_of, Method};
use crate::parse::{
    envelope_length, frame_type_id, frame_type_of, spec_method_payload, spec_parse_frame,
    spec_payload, FrameType, FrameView, Payload, PayloadView, FRAME_END,
};
use crate::util::be16;

verus! {

/// The payload octets of a frame.
pub open spec fn encode_payload(p: PayloadView) -> Seq<u8> {
    match p {
        Payload::Method { class, method, args } => {
            be16_octets(class_id(class)) + (be16_octets(method_id(method)) + encode_arguments(args))
        },
        Payload::ContentBody(b) => b,
        Payload::Heartbeat => Seq::empty(),
        Payload::ContentHeader(h) => encode_content_header(h),
    }
}

/// The octets of a frame: type, channel, length, payload, end octet.
pub open spec fn encode_frame(f: FrameView) -> Seq<u8> {
    let payload = encode_payload(f.payload) + seq![FRAME_END];
    seq![frame_type_id(f.frame_type)] + (be16_octets(f.channel) + (be32_octets(f.length) + payload))
}

/// A frame that the encoding carries: its type matches its payload, a
/// method payload names its own class and method, its strings and tables
/// fit their length prefixes, and `length` is the size of the payload octets.
pub open spec fn frame_encodable(f: FrameView) -> bool {
    &&& encode_payload(f.payload).len() == f.length
    &&& match f.payload {
        Payload::Method { class, method, args } => {
            &&& f.frame_type == FrameType::Method
            &&& class == class_of_method(method)
            &&& method == method_of_arguments(args)
            &&& arguments_encodable(args)
        },
        Payload::ContentBody(_) => f.frame_type == FrameType::ContentBody,
        Payload::Heartbeat => f.frame_type == FrameType::Heartbeat,
        Payload::ContentHeader(h) => f.frame_type == FrameType::ContentHeader && header_encodable(h),
    }
}

/// Each method's class and method ids map back to that class and method.
pub proof fn lemma_method_ids(m: Method)
    ensures
        class_of(class_id(class_of_method(m))) == Some(class_of_method(m)),
        method_of(class_of_method(m), method_id(m)) == Some(m),
{
}

proof fn lemma_method_payload_round_trip(p: PayloadView)
    requires
        p matches Payload::Method { class, method, args } && class == class_of_method(method)
            && method == method_of_arguments(args) && arguments_encodable(args),
    ensures
        spec_method_payload(encode_payload(p)) == Ok::<PayloadView, FrameDecodeErr>(p),
{
    if let Payload::Method { class, method, args } = p {
        let a = encode_arguments(args);
        let t1 = be16_octets(method_id(method)) + a;
        lemma_u16_octets(class_id(class), t1);
        lemma_u16_octets(method_id(method), a);
        lemma_method_ids(method);
        lemma_arguments_round_trip(args, Seq::empty());
        assert(a + Seq::empty() =~= a);
    }
}

proof fn lemma_payload_round_trip(f: FrameView)
    requires
        frame_encodable(f),
    ensures
        spec_payload(f.frame_type, encode_payload(f.payload)) == Ok::<PayloadView, FrameDecodeErr>(f.payload),
{
    reveal(spec_payload);
    if f.payload is Method {
        lemma_method_payload_round_trip(f.payload);
    }
    if let Payload::ContentHeader(h) = f.payload {
        lemma_content_header_round_trip(h, Seq::empty());
        assert(encode_content_header(h) + Seq::empty() =~= encode_content_header(h));
    }
}

/// A frame that the encoding carries, followed by any octets, decodes to
/// exactly that frame and spans exactly its own octets.
pub proof fn lemma_frame_round_trip(f: FrameView, tail: Seq<u8>)
    requires
        frame_encodable(f),
    ensures
        spec_parse_frame(encode_frame(f) + tail) == Ok::<(int, FrameView), FrameDecodeErr>((f.length + 8, f)),
{
    lemma_payload_round_trip(f);
    let p = encode_payload(f.payload);
    let end = p + seq![FRAME_END];
    let t3 = end + tail;
    let t2 = be32_octets(f.length) + t3;
    let t1 = be16_octets(f.channel) + t2;
    let s = encode_frame(f) + tail;
    lemma_u16_octets(f.channel, t2);
    lemma_u32_octets(f.length, t3);
    assert(s =~= seq![frame_type_id(f.frame_type)] + t1);
    assert(s.skip(1) =~= t1);
    assert(t1.skip(2) =~= t2);
    assert(s.skip(3) =~= t2);
    assert(envelope_length(s) == f.length);
    assert(be16(s.skip(1)) == f.channel);
    assert(t2.skip(4) =~= t3);
    assert(s.skip(7) =~= t3);
    assert(s.subrange(7, 7 + f.length) =~= p);
    assert(s[7 + f.length] == t3[f.length as int]);
    assert(frame_type_of(frame_type_id(f.frame_type)) == Some(f.frame_type));

}

} // verus!
