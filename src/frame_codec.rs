//! The stream framer: recognises the protocol header once, then one frame
//! per call, and consumes exactly what it decoded from the caller's buffer.
use vstd::prelude::*;
use bytes::BytesMut;
use crate::error::FrameDecodeErr;
use crate::field::{FieldTable, FieldTableView};
use crate::parse::{
    lemma_end_marker_enforced, lemma_frame_consumes_exactly, lemma_frame_prefix_incomplete,
    parse_amqp_protocal_header, FRAME_END, parse_frame, spec_parse_frame, spec_protocol_header, Frame,
    ProtocolHeader, PROTOCOL_HEADER_SIZE,
};

verus! {

#[verifier::external_type_specification]
#[verifier::external_body]
pub struct ExBytesMut(BytesMut);

/// The octets that a `BytesMut` holds, first to last.
pub uninterp spec fn buffer_bytes(b: BytesMut) -> Seq<u8>;

/// Relies on `<BytesMut as AsRef<[u8]>>::as_ref`: a slice of exactly the
/// buffer's octets.
#[verifier::external_body]
fn bytes_of(b: &BytesMut) -> (r: &[u8])
    ensures
        r@ == buffer_bytes(*b),
{
    b.as_ref()
}

/// Relies on `BytesMut::split_to`: the buffer keeps what follows the first
/// `n` octets (it panics when `n` exceeds the length, which `requires` rules out).
#[verifier::external_body]
fn discard_front(b: &mut BytesMut, n: usize)
    requires
        n <= buffer_bytes(*old(b)).len(),
    ensures
        buffer_bytes(*final(b)) == buffer_bytes(*old(b)).skip(n as int),
{
    let _ = b.split_to(n);
}

/// What one decode step yields.
#[derive(Debug, PartialEq)]
pub enum DecodedFrame<S, T> {
    ProtocolHeader(ProtocolHeader),
    AmqpFrame(Frame<S, T>),
}

/// The mathematical value of a decoded item.
pub type DecodedFrameView = DecodedFrame<Seq<u8>, FieldTableView>;

impl DecodedFrame<Vec<u8>, FieldTable> {
    pub open spec fn view(&self) -> DecodedFrameView {
        match self {
            DecodedFrame::ProtocolHeader(h) => DecodedFrame::ProtocolHeader(*h),
            DecodedFrame::AmqpFrame(f) => DecodedFrame::AmqpFrame(f@),
        }
    }
}

/// One decode step on the octets `s`: `Ok(None)` when more octets are
/// needed, else the decoded item and the number of octets it spans.
pub open spec fn spec_decode(
    header_received: bool,
    s: Seq<u8>,
) -> Result<Option<(DecodedFrameView, int)>, FrameDecodeErr> {
    if !header_received {
        match spec_protocol_header(s) {
            Err(FrameDecodeErr::Incomplete) => Ok(None),
            Err(e) => Err(e),
            Ok(h) => Ok(Some((DecodedFrame::ProtocolHeader(h), 8))),
        }
    } else {
        match spec_parse_frame(s) {
            Err(FrameDecodeErr::Incomplete) => Ok(None),
            Err(e) => Err(e),
            Ok((n, f)) => Ok(Some((DecodedFrame::AmqpFrame(f), n))),
        }
    }
}

/// A decoder for one AMQP stream. Its only state is whether the protocol
/// header has been seen.
pub struct FrameCodec {
    pub header_received: bool,
}

impl FrameCodec {
    /// A decoder that expects the protocol header first.
    pub fn new() -> (r: Self)
        ensures
            !r.header_received,
    {
        FrameCodec { header_received: false }
    }

    /// Decodes one item from the head of `src`.
    ///
    /// `Ok(None)`: more octets are needed, and `src` is left as it was.
    /// `Ok(Some(item))`: exactly the item's octets were taken from `src`.
    /// `Err(e)`: the stream is unusable; `src` is left as it was.
    pub fn decode(&mut self, src: &mut BytesMut) -> (r: Result<Option<DecodedFrame<Vec<u8>, FieldTable>>, FrameDecodeErr>)
        ensures
            match r {
                Ok(None) => {
                    &&& spec_decode(old(self).header_received, buffer_bytes(*old(src))) == Ok::<Option<(DecodedFrameView, int)>, FrameDecodeErr>(None)
                    &&& buffer_bytes(*final(src)) == buffer_bytes(*old(src))
                    &&& final(self).header_received == old(self).header_received
                },
                Ok(Some(item)) => {
                    &&& spec_decode(old(self).header_received, buffer_bytes(*old(src))) matches Ok(Some((v, n)))
                    &&& v == item@
                    &&& buffer_bytes(*final(src)) == buffer_bytes(*old(src)).skip(n)
                    &&& final(self).header_received
                },
                Err(e) => {
                    &&& spec_decode(old(self).header_received, buffer_bytes(*old(src))) == Err::<Option<(DecodedFrameView, int)>, FrameDecodeErr>(e)
                    &&& buffer_bytes(*final(src)) == buffer_bytes(*old(src))
                    &&& final(self).header_received == old(self).header_received
                },
            },
    {
        if !self.header_received {
            let header = match parse_amqp_protocal_header(bytes_of(src)) {
                Ok(h) => h,
                Err(FrameDecodeErr::Incomplete) => return Ok(None),
                Err(e) => return Err(e),
            };
            discard_front(src, PROTOCOL_HEADER_SIZE);
            self.header_received = true;
            return Ok(Some(DecodedFrame::ProtocolHeader(header)));
        }
        let (consumed, frame) = match parse_frame(bytes_of(src)) {
            Ok(r) => r,
            Err(FrameDecodeErr::Incomplete) => return Ok(None),
            Err(e) => return Err(e),
        };
        discard_front(src, consumed);
        Ok(Some(DecodedFrame::AmqpFrame(frame)))
    }
}

/// Once the header is seen, a well-formed frame `b` followed by any `tail`
/// decodes to that frame and spans exactly `b`, so `decode` leaves `tail`.
pub proof fn lemma_decode_consumes_exactly(b: Seq<u8>, tail: Seq<u8>)
    requires
        spec_parse_frame(b) matches Ok((n, _)) && n == b.len(),
    ensures
        spec_parse_frame(b) matches Ok((_, f)) && spec_decode(true, b + tail) == Ok::<
            Option<(DecodedFrameView, int)>,
            FrameDecodeErr,
        >(Some((DecodedFrame::AmqpFrame(f), b.len() as int))),
        (b + tail).skip(b.len() as int) == tail,
{
    lemma_frame_consumes_exactly(b, tail);
}

/// Fed any proper prefix of a well-formed frame, `decode` asks for more
/// octets (and so, by its contract, consumes nothing); fed the whole frame it
/// yields the frame.
pub proof fn lemma_decode_chunked(b: Seq<u8>, k: int)
    requires
        spec_parse_frame(b) matches Ok((n, _)) && n == b.len(),
        0 <= k <= b.len(),
    ensures
        k < b.len() ==> spec_decode(true, b.take(k)) == Ok::<Option<(DecodedFrameView, int)>, FrameDecodeErr>(None),
        k == b.len() ==> (spec_parse_frame(b) matches Ok((_, f)) && spec_decode(true, b.take(k)) == Ok::<
            Option<(DecodedFrameView, int)>,
            FrameDecodeErr,
        >(Some((DecodedFrame::AmqpFrame(f), b.len() as int)))),
{
    if k < b.len() {
        lemma_frame_prefix_incomplete(b, k);
    } else {
        assert(b.take(k) =~= b);
    }
}

/// Fed a well-formed frame whose end octet is replaced by anything but
/// `0xCE`, `decode` fails.
pub proof fn lemma_decode_end_marker(b: Seq<u8>, x: u8)
    requires
        spec_parse_frame(b) matches Ok((n, _)) && n == b.len(),
        x != FRAME_END,
    ensures
        spec_decode(true, b.update(b.len() - 1, x)) is Err,
{
    lemma_end_marker_enforced(b, x);
}

} // verus!
