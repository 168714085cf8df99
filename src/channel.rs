//! Argument grammars of the Channel class.
use vstd::prelude::*;
use crate::error::FrameDecodeErr;
use crate::method::{args_view, Arguments, ArgumentsView, MethodArgs};
use crate::util::{
    spec_long_str, parse_long_string, spec_short_str, parse_short_string, spec_u16, read_u16,
    spec_u8, read_u8,
};

verus! {

/// `Channel.Open` arguments: short string out_of_band.
pub open spec fn spec_channel_open(s: Seq<u8>) -> Result<ArgumentsView, FrameDecodeErr> {
    match spec_short_str(s) {
        Err(e) => Err(e),
        Ok((s, out_of_band)) =>
            Ok(Arguments::ChannelOpen { out_of_band }),
    }
}

/// Decodes the arguments of `Channel.Open`.
pub fn parse_channel_open(input: &[u8]) -> (r: Result<MethodArgs, FrameDecodeErr>)
    ensures
        args_view(r) == spec_channel_open(input@),
{
    let (_, out_of_band) = parse_short_string(input)?;
    Ok(Arguments::ChannelOpen { out_of_band })
}

/// `Channel.OpenOk` arguments: long string channel_id.
pub open spec fn spec_channel_open_ok(s: Seq<u8>) -> Result<ArgumentsView, FrameDecodeErr> {
    match spec_long_str(s) {
        Err(e) => Err(e),
        Ok((s, channel_id)) =>
            Ok(Arguments::ChannelOpenOk { channel_id }),
    }
}

/// Decodes the arguments of `Channel.OpenOk`.
pub fn parse_channel_open_ok(input: &[u8]) -> (r: Result<MethodArgs, FrameDecodeErr>)
    ensures
        args_view(r) == spec_channel_open_ok(input@),
{
    let (_, channel_id) = parse_long_string(input)?;
    Ok(Arguments::ChannelOpenOk { channel_id })
}

/// `Channel.Flow` arguments: octet read as a boolean active.
pub open spec fn spec_channel_flow(s: Seq<u8>) -> Result<ArgumentsView, FrameDecodeErr> {
    match spec_u8(s) {
        Err(e) => Err(e),
        Ok((s, active_octet)) =>
            Ok(Arguments::ChannelFlow { active: active_octet != 0 }),
    }
}

/// Decodes the arguments of `Channel.Flow`.
pub fn parse_channel_flow(input: &[u8]) -> (r: Result<MethodArgs, FrameDecodeErr>)
    ensures
        args_view(r) == spec_channel_flow(input@),
{
    let (_, active_octet) = read_u8(input)?;
    Ok(Arguments::ChannelFlow { active: active_octet != 0 })
}

/// `Channel.FlowOk` arguments: octet read as a boolean active.
pub open spec fn spec_channel_flow_ok(s: Seq<u8>) -> Result<ArgumentsView, FrameDecodeErr> {
    match spec_u8(s) {
        Err(e) => Err(e),
        Ok((s, active_octet)) =>
            Ok(Arguments::ChannelFlowOk { active: active_octet != 0 }),
    }
}

/// Decodes the arguments of `Channel.FlowOk`.
pub fn parse_channel_flow_ok(input: &[u8]) -> (r: Result<MethodArgs, FrameDecodeErr>)
    ensures
        args_view(r) == spec_channel_flow_ok(input@),
{
    let (_, active_octet) = read_u8(input)?;
    Ok(Arguments::ChannelFlowOk { active: active_octet != 0 })
}

/// `Channel.Close` arguments: 16-bit integer reply_code, short string reply_text, 16-bit
/// integer class_id, 16-bit integer method_id.
pub open spec fn spec_channel_close(s: Seq<u8>) -> Result<ArgumentsView, FrameDecodeErr> {
    match spec_u16(s) {
        Err(e) => Err(e),
        Ok((s, reply_code)) =>
            match spec_short_str(s) {
                Err(e) => Err(e),
                Ok((s, reply_text)) =>
                    match spec_u16(s) {
                        Err(e) => Err(e),
                        Ok((s, class_id)) =>
                            match spec_u16(s) {
                                Err(e) => Err(e),
                                Ok((s, method_id)) =>
                                    Ok(Arguments::ChannelClose {
                                        reply_code,
                                        reply_text,
                                        class_id,
                                        method_id,
                                    }),
                            },
                    },
            },
    }
}

/// Decodes the arguments of `Channel.Close`.
pub fn parse_channel_close(input: &[u8]) -> (r: Result<MethodArgs, FrameDecodeErr>)
    ensures
        args_view(r) == spec_channel_close(input@),
{
    let (input, reply_code) = read_u16(input)?;
    let (input, reply_text) = parse_short_string(input)?;
    let (input, class_id) = read_u16(input)?;
    let (_, method_id) = read_u16(input)?;
    Ok(Arguments::ChannelClose {
        reply_code,
        reply_text,
        class_id,
        method_id,
    })
}

/// `Channel.CloseOk` arguments: no arguments; trailing octets are ignored.
pub open spec fn spec_channel_close_ok(s: Seq<u8>) -> Result<ArgumentsView, FrameDecodeErr> {
    Ok(Arguments::ChannelCloseOk)
}

/// Decodes the arguments of `Channel.CloseOk`.
pub fn parse_channel_close_ok(input: &[u8]) -> (r: Result<MethodArgs, FrameDecodeErr>)
    ensures
        args_view(r) == spec_channel_close_ok(input@),
{
    Ok(Arguments::ChannelCloseOk)
}

} // verus!
