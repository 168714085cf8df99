//! The protocol header and the frame envelope, and the dispatch of a frame's
//! payload on its type.
use vstd::prelude::*;
use crate::content::{parse_content_header, spec_content_header, ContentHeader};
use crate::error::FrameDecodeErr;
use crate::field::{FieldTable, FieldTableView};
use crate::method::{
    class_from_id, class_of, get_method_type, method_of, parse_arguments, spec_arguments,
    Arguments, Class, Method,
};
use crate::util::{be16, be32, read_tag, read_u16, read_u32, spec_u16};

verus! {

/// Size of the protocol header.
pub const PROTOCOL_HEADER_SIZE: usize = 8;

/// Size of the frame prefix: type, channel and payload length.
pub const FRAME_PREFIX_LENGTH: usize = 7;

/// The octet that ends every frame.
pub const FRAME_END: u8 = 0xCE;

/// The header that each peer sends once before any frame: `A M Q P`, then
/// four version octets.
#[derive(Debug, Clone, Copy, PartialEq, Eq, Structural)]
pub struct ProtocolHeader {
    pub major_id: u8,
    pub minor_id: u8,
    pub major_version: u8,
    pub minor_version: u8,
}

impl ProtocolHeader {
    pub fn major_id(&self) -> (r: u8)
        ensures
            r == self.major_id,
    {
        self.major_id
    }

    pub fn minor_id(&self) -> (r: u8)
        ensures
            r == self.minor_id,
    {
        self.minor_id
    }

    pub fn major_version(&self) -> (r: u8)
        ensures
            r == self.major_version,
    {
        self.major_version
    }

    pub fn minor_version(&self) -> (r: u8)
        ensures
            r == self.minor_version,
    {
        self.minor_version
    }
}

/// The kind of a frame, from its type octet.
#[derive(Debug, Clone, Copy, PartialEq, Eq, Structural)]
pub enum FrameType {
    Method,
    ContentHeader,
    ContentBody,
    Heartbeat,
}

/// What a frame carries.
#[derive(Debug, PartialEq)]
pub enum Payload<S, T> {
    Method { class: Class, method: Method, args: Arguments<S, T> },
    ContentHeader(ContentHeader<S, T>),
    ContentBody(S),
    Heartbeat,
}

/// A decoded frame. `length` is the payload size given in the envelope.
#[derive(Debug, PartialEq)]
pub struct Frame<S, T> {
    pub frame_type: FrameType,
    pub channel: u16,
    pub length: u32,
    pub payload: Payload<S, T>,
}

/// A frame as the decoder returns it.
pub type AmqpFrame = Frame<Vec<u8>, FieldTable>;

/// The mathematical value of an `AmqpFrame`.
pub type FrameView = Frame<Seq<u8>, FieldTableView>;

/// The mathematical value of a payload.
pub type PayloadView = Payload<Seq<u8>, FieldTableView>;

impl Payload<Vec<u8>, FieldTable> {
    pub open spec fn view(&self) -> PayloadView {
        match self {
            Payload::Method { class, method, args } => Payload::Method {
                class: *class,
                method: *method,
                args: args@,
            },
            Payload::ContentHeader(h) => Payload::ContentHeader(h@),
            Payload::ContentBody(b) => Payload::ContentBody(b@),
            Payload::Heartbeat => Payload::Heartbeat,
        }
    }
}

impl Frame<Vec<u8>, FieldTable> {
    pub open spec fn view(&self) -> FrameView {
        Frame {
            frame_type: self.frame_type,
            channel: self.channel,
            length: self.length,
            payload: self.payload@,
        }
    }
}

/// The octets `A M Q P`.
pub open spec fn amqp_tag() -> Seq<u8> {
    seq![0x41u8, 0x4du8, 0x51u8, 0x50u8]
}

/// The protocol header at the head of `s`: `Incomplete` below eight octets.
pub open spec fn spec_protocol_header(s: Seq<u8>) -> Result<ProtocolHeader, FrameDecodeErr> {
    if s.len() < 8 {
        Err(FrameDecodeErr::Incomplete)
    } else if s.take(4) != amqp_tag() {
        Err(FrameDecodeErr::ParseAmqpHeaderFailed)
    } else {
        Ok(ProtocolHeader { major_id: s[4], minor_id: s[5], major_version: s[6], minor_version: s[7] })
    }
}

/// The frame type with type octet `t`, if any.
pub open spec fn frame_type_of(t: u8) -> Option<FrameType> {
    match t {
        1 => Some(FrameType::Method),
        2 => Some(FrameType::ContentHeader),
        3 => Some(FrameType::ContentBody),
        8 => Some(FrameType::Heartbeat),
        _ => None,
    }
}

/// The type octet of a frame type.
pub open spec fn frame_type_id(t: FrameType) -> u8 {
    match t {
        FrameType::Method => 1,
        FrameType::ContentHeader => 2,
        FrameType::ContentBody => 3,
        FrameType::Heartbeat => 8,
    }
}

/// A method payload: class id and method id, both read before either is
/// looked up, then that method's arguments.
pub open spec fn spec_method_payload(p: Seq<u8>) -> Result<PayloadView, FrameDecodeErr> {
    match spec_u16(p) {
        Err(e) => Err(e),
        Ok((p, class_id)) => match spec_u16(p) {
            Err(e) => Err(e),
            Ok((p, method_id)) => match class_of(class_id) {
                None => Err(FrameDecodeErr::UnknownClassType),
                Some(class) => match method_of(class, method_id) {
                    None => Err(FrameDecodeErr::UnknownMethodType),
                    Some(method) => match spec_arguments(method, p) {
                        Err(e) => Err(e),
                        Ok(args) => Ok(Payload::Method { class, method, args }),
                    },
                },
            },
        },
    }
}

/// The payload of a frame of type `t` whose payload octets are `p`.
#[verifier::opaque]
pub open spec fn spec_payload(t: FrameType, p: Seq<u8>) -> Result<PayloadView, FrameDecodeErr> {
    match t {
        FrameType::Method => spec_method_payload(p),
        FrameType::ContentHeader => match spec_content_header(p) {
            Err(e) => Err(e),
            Ok(h) => Ok(Payload::ContentHeader(h)),
        },
        FrameType::ContentBody => Ok(Payload::ContentBody(p)),
        FrameType::Heartbeat => if p.len() == 0 {
            Ok(Payload::Heartbeat)
        } else {
            Err(FrameDecodeErr::ParseFrameFailed)
        },
    }
}

/// The payload length that the envelope at the head of `s` announces.
pub open spec fn envelope_length(s: Seq<u8>) -> u32 {
    be32(s.skip(3))
}

/// One frame at the head of `s`, with the number of octets it spans.
///
/// `Incomplete` until the whole envelope is there; then the payload is
/// decoded, and the end octet checked.
pub open spec fn spec_parse_frame(s: Seq<u8>) -> Result<(int, FrameView), FrameDecodeErr> {
    if s.len() < 7 {
        Err(FrameDecodeErr::Incomplete)
    } else {
        let length = envelope_length(s);
        if s.len() < 8 + length {
            Err(FrameDecodeErr::Incomplete)
        } else {
            match frame_type_of(s[0]) {
                None => Err(FrameDecodeErr::UnknowFrameType),
                Some(frame_type) => match spec_payload(frame_type, s.subrange(7, 7 + length)) {
                    Err(e) => Err(e),
                    Ok(payload) => if s[7 + length] != FRAME_END {
                        Err(FrameDecodeErr::ParseFrameFailed)
                    } else {
                        Ok(
                            (
                                8 + length,
                                Frame { frame_type, channel: be16(s.skip(1)), length, payload },
                            ),
                        )
                    },
                },
            }
        }
    }
}

/// The view of a frame decode result.
pub open spec fn frame_result_view(
    r: Result<(usize, AmqpFrame), FrameDecodeErr>,
) -> Result<(int, FrameView), FrameDecodeErr> {
    match r {
        Ok((n, f)) => Ok((n as int, f@)),
        Err(e) => Err(e),
    }
}

/// The view of a payload decode result.
pub open spec fn payload_result_view(
    r: Result<Payload<Vec<u8>, FieldTable>, FrameDecodeErr>,
) -> Result<PayloadView, FrameDecodeErr> {
    match r {
        Ok(p) => Ok(p@),
        Err(e) => Err(e),
    }
}

/// Decodes the protocol header at the head of `buffer`.
pub fn parse_amqp_protocal_header(buffer: &[u8]) -> (r: Result<ProtocolHeader, FrameDecodeErr>)
    ensures
        r == spec_protocol_header(buffer@),
{
    if buffer.len() < PROTOCOL_HEADER_SIZE {
        return Err(FrameDecodeErr::Incomplete);
    }
    let tag: [u8; 4] = [0x41, 0x4d, 0x51, 0x50];
    assert(tag@ == amqp_tag());
    match read_tag(buffer, tag.as_slice()) {
        Ok(_) => {},
        Err(_) => return Err(FrameDecodeErr::ParseAmqpHeaderFailed),
    }
    Ok(ProtocolHeader {
        major_id: buffer[4],
        minor_id: buffer[5],
        major_version: buffer[6],
        minor_version: buffer[7],
    })
}

/// Decodes a method payload.
pub fn parse_method_frame(
    payload: &[u8],
) -> (r: Result<Payload<Vec<u8>, FieldTable>, FrameDecodeErr>)
    ensures
        payload_result_view(r) == spec_method_payload(payload@),
{
    let (rest, class_id) = read_u16(payload)?;
    let (rest, method_id) = read_u16(rest)?;
    let class = match class_from_id(class_id) {
        Some(c) => c,
        None => return Err(FrameDecodeErr::UnknownClassType),
    };
    let method = get_method_type(class, method_id)?;
    let args = parse_arguments(method, rest)?;
    Ok(Payload::Method { class, method, args })
}

/// Decodes a content-header payload.
pub fn parse_content_header_frame(
    payload: &[u8],
) -> (r: Result<Payload<Vec<u8>, FieldTable>, FrameDecodeErr>)
    ensures
        payload_result_view(r) == spec_payload(FrameType::ContentHeader, payload@),
{
    reveal(spec_payload);
    let header = parse_content_header(payload)?;
    Ok(Payload::ContentHeader(header))
}

/// A content-body payload: the octets as they are.
pub fn parse_content_body_frame(
    payload: &[u8],
) -> (r: Result<Payload<Vec<u8>, FieldTable>, FrameDecodeErr>)
    ensures
        payload_result_view(r) == spec_payload(FrameType::ContentBody, payload@),
{
    reveal(spec_payload);
    Ok(Payload::ContentBody(vstd::slice::slice_to_vec(payload)))
}

/// A heartbeat payload, which must be empty.
pub fn parse_heartbeat_frame(
    payload: &[u8],
) -> (r: Result<Payload<Vec<u8>, FieldTable>, FrameDecodeErr>)
    ensures
        payload_result_view(r) == spec_payload(FrameType::Heartbeat, payload@),
{
    reveal(spec_payload);
    if payload.len() != 0 {
        return Err(FrameDecodeErr::ParseFrameFailed);
    }
    Ok(Payload::Heartbeat)
}

/// Decodes the payload of a frame of type `frame_type`.
pub fn parse_payload(
    frame_type: FrameType,
    payload: &[u8],
) -> (r: Result<Payload<Vec<u8>, FieldTable>, FrameDecodeErr>)
    ensures
        payload_result_view(r) == spec_payload(frame_type, payload@),
{
    reveal(spec_payload);
    match frame_type {
        FrameType::Method => parse_method_frame(payload),
        FrameType::ContentHeader => parse_content_header_frame(payload),
        FrameType::ContentBody => parse_content_body_frame(payload),
        FrameType::Heartbeat => parse_heartbeat_frame(payload),
    }
}

/// Maps a frame type octet to its frame type.
pub fn frame_type_from_id(t: u8) -> (r: Option<FrameType>)
    ensures
        r == frame_type_of(t),
{
    match t {
        1 => Some(FrameType::Method),
        2 => Some(FrameType::ContentHeader),
        3 => Some(FrameType::ContentBody),
        8 => Some(FrameType::Heartbeat),
        _ => None,
    }
}

/// Reads the channel id and the payload length that follow the type octet.
pub fn parse_channel_id_and_length(buffer: &[u8]) -> (r: Result<(&[u8], u16, u32), FrameDecodeErr>)
    ensures
        match r {
            Ok((rest, channel, length)) => {
                &&& buffer@.len() >= 6
                &&& rest@ == buffer@.skip(6)
                &&& channel == be16(buffer@)
                &&& length == be32(buffer@.skip(2))
            },
            Err(e) => buffer@.len() < 6 && e == FrameDecodeErr::ParseFrameFailed,
        },
{
    let (rest, channel) = read_u16(buffer)?;
    let (rest, length) = read_u32(rest)?;
    assert(rest@ == buffer@.skip(6));
    Ok((rest, channel, length))
}

/// Decodes one frame at the head of `buffer`; on success also returns the
/// number of octets the frame spans (`8 + length`).
pub fn parse_frame(buffer: &[u8]) -> (r: Result<(usize, AmqpFrame), FrameDecodeErr>)
    ensures
        frame_result_view(r) == spec_parse_frame(buffer@),
{
    if buffer.len() < FRAME_PREFIX_LENGTH {
        return Err(FrameDecodeErr::Incomplete);
    }
    let type_id = buffer[0];
    let (_, after_type) = buffer.split_at(1);
    let (rest, channel, length) = parse_channel_id_and_length(after_type)?;
    assert(rest@ == buffer@.skip(7));
    assert(after_type@.skip(2) == buffer@.skip(3));
    if length as u64 >= rest.len() as u64 {
        return Err(FrameDecodeErr::Incomplete);
    }
    let frame_type = match frame_type_from_id(type_id) {
        Some(t) => t,
        None => return Err(FrameDecodeErr::UnknowFrameType),
    };
    let (payload, tail) = rest.split_at(length as usize);
    assert(payload@ == buffer@.subrange(7, 7 + length));
    let payload_value = parse_payload(frame_type, payload)?;
    if tail[0] != FRAME_END {
        return Err(FrameDecodeErr::ParseFrameFailed);
    }
    let frame = Frame { frame_type, channel, length, payload: payload_value };
    Ok((length as usize + 8, frame))
}

/// The envelope fields and the end octet of a frame read only its own
/// octets: two inputs that agree on the first `n` octets, where `n` is the
/// frame's size in the first, give the same decode.
proof fn lemma_frame_depends_on_own_octets(a: Seq<u8>, b: Seq<u8>, n: int)
    requires
        spec_parse_frame(a) matches Ok((m, _)) && m == n,
        n <= b.len(),
        a.take(n) == b.take(n),
    ensures
        spec_parse_frame(b) == spec_parse_frame(a),
{
    assert(a[0] == a.take(n)[0]);
    assert(b[0] == b.take(n)[0]);
    assert forall|i: int| 0 <= i < n implies a[i] == b[i] by {
        assert(a[i] == a.take(n)[i]);
        assert(b[i] == b.take(n)[i]);
    }
    assert(a.skip(3).take(4) =~= b.skip(3).take(4));
    assert(a.skip(3)[0] == b.skip(3)[0] && a.skip(3)[1] == b.skip(3)[1]);
    assert(a.skip(3)[2] == b.skip(3)[2] && a.skip(3)[3] == b.skip(3)[3]);
    assert(envelope_length(a) == envelope_length(b));
    let length = envelope_length(a);
    assert(a.subrange(7, 7 + length) =~= b.subrange(7, 7 + length));
    assert(a.skip(1)[0] == b.skip(1)[0] && a.skip(1)[1] == b.skip(1)[1]);
}

/// A well-formed frame followed by any octets decodes to that frame and
/// spans exactly its own octets, so the decoder leaves exactly the tail.
pub proof fn lemma_frame_consumes_exactly(b: Seq<u8>, tail: Seq<u8>)
    requires
        spec_parse_frame(b) matches Ok((n, _)) && n == b.len(),
    ensures
        spec_parse_frame(b + tail) == spec_parse_frame(b),
        (b + tail).skip(b.len() as int) == tail,
{
    assert((b + tail).take(b.len() as int) =~= b.take(b.len() as int));
    lemma_frame_depends_on_own_octets(b, b + tail, b.len() as int);
    assert((b + tail).skip(b.len() as int) =~= tail);
}

/// Every proper prefix of a well-formed frame is `Incomplete`.
pub proof fn lemma_frame_prefix_incomplete(b: Seq<u8>, k: int)
    requires
        spec_parse_frame(b) matches Ok((n, _)) && n == b.len(),
        0 <= k < b.len(),
    ensures
        spec_parse_frame(b.take(k)) == Err::<(int, FrameView), FrameDecodeErr>(FrameDecodeErr::Incomplete),
{
    let p = b.take(k);
    if k >= 7 {
        assert(p.skip(3).take(4) =~= b.skip(3).take(4));
        assert(p.skip(3)[0] == b.skip(3)[0] && p.skip(3)[1] == b.skip(3)[1]);
        assert(p.skip(3)[2] == b.skip(3)[2] && p.skip(3)[3] == b.skip(3)[3]);
        assert(envelope_length(p) == envelope_length(b));
    }
}

/// Replacing the end octet of a well-formed frame with anything but `0xCE`
/// gives an error, and never `Incomplete`.
pub proof fn lemma_end_marker_enforced(b: Seq<u8>, x: u8)
    requires
        spec_parse_frame(b) matches Ok((n, _)) && n == b.len(),
        x != FRAME_END,
    ensures
        spec_parse_frame(b.update(b.len() - 1, x)) matches Err(e) && e != FrameDecodeErr::Incomplete,
{
    let c = b.update(b.len() - 1, x);
    let length = envelope_length(b);
    assert(c.skip(3).take(4) =~= b.skip(3).take(4));
    assert(c.skip(3)[0] == b.skip(3)[0] && c.skip(3)[1] == b.skip(3)[1]);
    assert(c.skip(3)[2] == b.skip(3)[2] && c.skip(3)[3] == b.skip(3)[3]);
    assert(envelope_length(c) == length);
    assert(c.subrange(7, 7 + length) =~= b.subrange(7, 7 + length));
}

} // verus!
