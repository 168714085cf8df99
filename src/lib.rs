//! Streaming decoder for AMQP 0-9-1 framing: the protocol header, the frame
//! envelope, method argument grammars, content headers and field tables.
use vstd::prelude::*;

pub mod error;
pub mod util;
pub mod field;
pub mod method;
pub mod connection;
pub mod channel;
pub mod access;
pub mod exchange;
pub mod queue;
pub mod basic;
pub mod tx;
pub mod confirm;
pub mod content;
pub mod flag_bits;
pub mod encode;
pub mod encode_args;
pub mod encode_content;
pub mod encode_frame;
pub mod parse;
pub mod frame_codec;

verus! {

} // verus!
