use vstd::prelude::*;

verus! {

/// A value that the data model refuses to build from well-framed bytes.
#[derive(Debug, Clone, Copy, PartialEq, Eq, Structural)]
pub enum DomainError {
    /// A field name that breaks the AMQP naming rule.
    InvalidFieldName,
}

/// Every way a decode can end without a value.
///
/// Only `Incomplete` is benign: the caller keeps its buffer and retries once
/// more bytes arrived. Every other kind ends the stream.
#[derive(Debug, Clone, Copy, PartialEq, Eq, Structural)]
pub enum FrameDecodeErr {
    Incomplete,
    UnknowFrameType,
    UnknownClassType,
    UnknownMethodType,
    ParseAmqpHeaderFailed,
    ParseFrameFailed,
    Amqp(DomainError),
}

impl FrameDecodeErr {
    /// A short human-readable description of the error.
    pub fn describe(&self) -> (r: &'static str)
        ensures
            *self == FrameDecodeErr::Incomplete ==> r@ == "Incomplete"@,
            *self == FrameDecodeErr::UnknowFrameType ==> r@ == "unknow frame type"@,
            *self == FrameDecodeErr::UnknownClassType ==> r@ == "unknown class type"@,
            *self == FrameDecodeErr::UnknownMethodType ==> r@ == "unknown method type"@,
            *self == FrameDecodeErr::ParseAmqpHeaderFailed ==> r@ == "parse Amqp header failed"@,
            *self == FrameDecodeErr::ParseFrameFailed ==> r@ == "parse frame failed"@,
            *self is Amqp ==> r@ == "amqp error: invalid field name"@,
    {
        match self {
            FrameDecodeErr::Incomplete => "Incomplete",
            FrameDecodeErr::UnknowFrameType => "unknow frame type",
            FrameDecodeErr::UnknownClassType => "unknown class type",
            FrameDecodeErr::UnknownMethodType => "unknown method type",
            FrameDecodeErr::ParseAmqpHeaderFailed => "parse Amqp header failed",
            FrameDecodeErr::ParseFrameFailed => "parse frame failed",
            FrameDecodeErr::Amqp(_) => "amqp error: invalid field name",
        }
    }
}

} // verus!
