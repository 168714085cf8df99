//! Argument grammars of the Basic class.
use vstd::prelude::*;
use crate::error::FrameDecodeErr;
use crate::field::{spec_field_table, parse_field_table};
use crate::method::{args_view, Arguments, ArgumentsView, MethodArgs};
use crate::util::{
    bit, flag, spec_short_str, parse_short_string, spec_u16, read_u16, spec_u32, read_u32, spec_u64,
    read_u64, spec_u8, read_u8,
};

verus! {

/// `Basic.Qos` arguments: 32-bit integer prefetch_size, 16-bit integer prefetch_count, packed
/// bits {global}.
pub open spec fn spec_basic_qos(s: Seq<u8>) -> Result<ArgumentsView, FrameDecodeErr> {
    match spec_u32(s) {
        Err(e) => Err(e),
        Ok((s, prefetch_size)) =>
            match spec_u16(s) {
                Err(e) => Err(e),
                Ok((s, prefetch_count)) =>
                    match spec_u8(s) {
                        Err(e) => Err(e),
                        Ok((s, flags)) =>
                            Ok(Arguments::BasicQos {
                                prefetch_size,
                                prefetch_count,
                                global: bit(flags, 0),
                            }),
                    },
            },
    }
}

/// Decodes the arguments of `Basic.Qos`.
pub fn parse_basic_qos(input: &[u8]) -> (r: Result<MethodArgs, FrameDecodeErr>)
    ensures
        args_view(r) == spec_basic_qos(input@),
{
    let (input, prefetch_size) = read_u32(input)?;
    let (input, prefetch_count) = read_u16(input)?;
    let (_, flags) = read_u8(input)?;
    Ok(Arguments::BasicQos {
        prefetch_size,
        prefetch_count,
        global: flag(flags, 0),
    })
}

/// `Basic.QosOk` arguments: no arguments; trailing octets are ignored.
pub open spec fn spec_basic_qos_ok(s: Seq<u8>) -> Result<ArgumentsView, FrameDecodeErr> {
    Ok(Arguments::BasicQosOk)
}

/// Decodes the arguments of `Basic.QosOk`.
pub fn parse_basic_qos_ok(input: &[u8]) -> (r: Result<MethodArgs, FrameDecodeErr>)
    ensures
        args_view(r) == spec_basic_qos_ok(input@),
{
    Ok(Arguments::BasicQosOk)
}

/// `Basic.Consume` arguments: 16-bit integer ticket, short string queue, short string
/// consumer_tag, packed bits {no_local, no_ack, exclusive, no_wait}, field table arguments.
pub open spec fn spec_basic_consume(s: Seq<u8>) -> Result<ArgumentsView, FrameDecodeErr> {
    match spec_u16(s) {
        Err(e) => Err(e),
        Ok((s, ticket)) =>
            match spec_short_str(s) {
                Err(e) => Err(e),
                Ok((s, queue)) =>
                    match spec_short_str(s) {
                        Err(e) => Err(e),
                        Ok((s, consumer_tag)) =>
                            match spec_u8(s) {
                                Err(e) => Err(e),
                                Ok((s, flags)) =>
                                    match spec_field_table(s) {
                                        Err(e) => Err(e),
                                        Ok((s, arguments)) =>
                                            Ok(Arguments::BasicConsume {
                                                ticket,
                                                queue,
                                                consumer_tag,
                                                no_local: bit(flags, 0),
                                                no_ack: bit(flags, 1),
                                                exclusive: bit(flags, 2),
                                                no_wait: bit(flags, 3),
                                                arguments,
                                            }),
                                    },
                            },
                    },
            },
    }
}

/// Decodes the arguments of `Basic.Consume`.
pub fn parse_basic_consume(input: &[u8]) -> (r: Result<MethodArgs, FrameDecodeErr>)
    ensures
        args_view(r) == spec_basic_consume(input@),
{
    let (input, ticket) = read_u16(input)?;
    let (input, queue) = parse_short_string(input)?;
    let (input, consumer_tag) = parse_short_string(input)?;
    let (input, flags) = read_u8(input)?;
    let (_, arguments) = parse_field_table(input)?;
    Ok(Arguments::BasicConsume {
        ticket,
        queue,
        consumer_tag,
        no_local: flag(flags, 0),
        no_ack: flag(flags, 1),
        exclusive: flag(flags, 2),
        no_wait: flag(flags, 3),
        arguments,
    })
}

/// `Basic.ConsumeOk` arguments: short string consumer_tag.
pub open spec fn spec_basic_consume_ok(s: Seq<u8>) -> Result<ArgumentsView, FrameDecodeErr> {
    match spec_short_str(s) {
        Err(e) => Err(e),
        Ok((s, consumer_tag)) =>
            Ok(Arguments::BasicConsumeOk { consumer_tag }),
    }
}

/// Decodes the arguments of `Basic.ConsumeOk`.
pub fn parse_basic_consume_ok(input: &[u8]) -> (r: Result<MethodArgs, FrameDecodeErr>)
    ensures
        args_view(r) == spec_basic_consume_ok(input@),
{
    let (_, consumer_tag) = parse_short_string(input)?;
    Ok(Arguments::BasicConsumeOk { consumer_tag })
}

/// `Basic.Cancel` arguments: short string consumer_tag, packed bits {no_wait}.
pub open spec fn spec_basic_cancel(s: Seq<u8>) -> Result<ArgumentsView, FrameDecodeErr> {
    match spec_short_str(s) {
        Err(e) => Err(e),
        Ok((s, consumer_tag)) =>
            match spec_u8(s) {
                Err(e) => Err(e),
                Ok((s, flags)) =>
                    Ok(Arguments::BasicCancel {
                        consumer_tag,
                        no_wait: bit(flags, 0),
                    }),
            },
    }
}

/// Decodes the arguments of `Basic.Cancel`.
pub fn parse_basic_cancel(input: &[u8]) -> (r: Result<MethodArgs, FrameDecodeErr>)
    ensures
        args_view(r) == spec_basic_cancel(input@),
{
    let (input, consumer_tag) = parse_short_string(input)?;
    let (_, flags) = read_u8(input)?;
    Ok(Arguments::BasicCancel {
        consumer_tag,
        no_wait: flag(flags, 0),
    })
}

/// `Basic.CancelOk` arguments: short string consumer_tag.
pub open spec fn spec_basic_cancel_ok(s: Seq<u8>) -> Result<ArgumentsView, FrameDecodeErr> {
    match spec_short_str(s) {
        Err(e) => Err(e),
        Ok((s, consumer_tag)) =>
            Ok(Arguments::BasicCancelOk { consumer_tag }),
    }
}

/// Decodes the arguments of `Basic.CancelOk`.
pub fn parse_basic_cancel_ok(input: &[u8]) -> (r: Result<MethodArgs, FrameDecodeErr>)
    ensures
        args_view(r) == spec_basic_cancel_ok(input@),
{
    let (_, consumer_tag) = parse_short_string(input)?;
    Ok(Arguments::BasicCancelOk { consumer_tag })
}

/// `Basic.Publish` arguments: 16-bit integer ticket, short string exchange, short string
/// routing_key, packed bits {mandatory, immediate}.
pub open spec fn spec_basic_publish(s: Seq<u8>) -> Result<ArgumentsView, FrameDecodeErr> {
    match spec_u16(s) {
        Err(e) => Err(e),
        Ok((s, ticket)) =>
            match spec_short_str(s) {
                Err(e) => Err(e),
                Ok((s, exchange)) =>
                    match spec_short_str(s) {
                        Err(e) => Err(e),
                        Ok((s, routing_key)) =>
                            match spec_u8(s) {
                                Err(e) => Err(e),
                                Ok((s, flags)) =>
                                    Ok(Arguments::BasicPublish {
                                        ticket,
                                        exchange,
                                        routing_key,
                                        mandatory: bit(flags, 0),
                                        immediate: bit(flags, 1),
                                    }),
                            },
                    },
            },
    }
}

/// Decodes the arguments of `Basic.Publish`.
pub fn parse_basic_publish(input: &[u8]) -> (r: Result<MethodArgs, FrameDecodeErr>)
    ensures
        args_view(r) == spec_basic_publish(input@),
{
    let (input, ticket) = read_u16(input)?;
    let (input, exchange) = parse_short_string(input)?;
    let (input, routing_key) = parse_short_string(input)?;
    let (_, flags) = read_u8(input)?;
    Ok(Arguments::BasicPublish {
        ticket,
        exchange,
        routing_key,
        mandatory: flag(flags, 0),
        immediate: flag(flags, 1),
    })
}

/// `Basic.Return` arguments: 16-bit integer reply_code, short string reply_text, short string
/// exchange, short string routing_key.
pub open spec fn spec_basic_return(s: Seq<u8>) -> Result<ArgumentsView, FrameDecodeErr> {
    match spec_u16(s) {
        Err(e) => Err(e),
        Ok((s, reply_code)) =>
            match spec_short_str(s) {
                Err(e) => Err(e),
                Ok((s, reply_text)) =>
                    match spec_short_str(s) {
                        Err(e) => Err(e),
                        Ok((s, exchange)) =>
                            match spec_short_str(s) {
                                Err(e) => Err(e),
                                Ok((s, routing_key)) =>
                                    Ok(Arguments::BasicReturn {
                                        reply_code,
                                        reply_text,
                                        exchange,
                                        routing_key,
                                    }),
                            },
                    },
            },
    }
}

/// Decodes the arguments of `Basic.Return`.
pub fn parse_basic_return(input: &[u8]) -> (r: Result<MethodArgs, FrameDecodeErr>)
    ensures
        args_view(r) == spec_basic_return(input@),
{
    let (input, reply_code) = read_u16(input)?;
    let (input, reply_text) = parse_short_string(input)?;
    let (input, exchange) = parse_short_string(input)?;
    let (_, routing_key) = parse_short_string(input)?;
    Ok(Arguments::BasicReturn {
        reply_code,
        reply_text,
        exchange,
        routing_key,
    })
}

/// `Basic.Deliver` arguments: short string consumer_tag, 64-bit integer delivery_tag, packed
/// bits {redelivered}, short string exchange, short string routing_key.
pub open spec fn spec_basic_delivery(s: Seq<u8>) -> Result<ArgumentsView, FrameDecodeErr> {
    match spec_short_str(s) {
        Err(e) => Err(e),
        Ok((s, consumer_tag)) =>
            match spec_u64(s) {
                Err(e) => Err(e),
                Ok((s, delivery_tag)) =>
                    match spec_u8(s) {
                        Err(e) => Err(e),
                        Ok((s, flags)) =>
                            match spec_short_str(s) {
                                Err(e) => Err(e),
                                Ok((s, exchange)) =>
                                    match spec_short_str(s) {
                                        Err(e) => Err(e),
                                        Ok((s, routing_key)) =>
                                            Ok(Arguments::BasicDeliver {
                                                consumer_tag,
                                                delivery_tag,
                                                redelivered: bit(flags, 0),
                                                exchange,
                                                routing_key,
                                            }),
                                    },
                            },
                    },
            },
    }
}

/// Decodes the arguments of `Basic.Deliver`.
pub fn parse_basic_delivery(input: &[u8]) -> (r: Result<MethodArgs, FrameDecodeErr>)
    ensures
        args_view(r) == spec_basic_delivery(input@),
{
    let (input, consumer_tag) = parse_short_string(input)?;
    let (input, delivery_tag) = read_u64(input)?;
    let (input, flags) = read_u8(input)?;
    let (input, exchange) = parse_short_string(input)?;
    let (_, routing_key) = parse_short_string(input)?;
    Ok(Arguments::BasicDeliver {
        consumer_tag,
        delivery_tag,
        redelivered: flag(flags, 0),
        exchange,
        routing_key,
    })
}

/// `Basic.Get` arguments: 16-bit integer ticket, short string queue, packed bits {no_ack}.
pub open spec fn spec_basic_get(s: Seq<u8>) -> Result<ArgumentsView, FrameDecodeErr> {
    match spec_u16(s) {
        Err(e) => Err(e),
        Ok((s, ticket)) =>
            match spec_short_str(s) {
                Err(e) => Err(e),
                Ok((s, queue)) =>
                    match spec_u8(s) {
                        Err(e) => Err(e),
                        Ok((s, flags)) =>
                            Ok(Arguments::BasicGet { ticket, queue, no_ack: bit(flags, 0) }),
                    },
            },
    }
}

/// Decodes the arguments of `Basic.Get`.
pub fn parse_basic_get(input: &[u8]) -> (r: Result<MethodArgs, FrameDecodeErr>)
    ensures
        args_view(r) == spec_basic_get(input@),
{
    let (input, ticket) = read_u16(input)?;
    let (input, queue) = parse_short_string(input)?;
    let (_, flags) = read_u8(input)?;
    Ok(Arguments::BasicGet {
        ticket,
        queue,
        no_ack: flag(flags, 0),
    })
}

/// `Basic.GetOk` arguments: 64-bit integer delivery_tag, packed bits {redelivered}, short
/// string exchange, short string routing_key, 32-bit integer message_count.
pub open spec fn spec_basic_get_ok(s: Seq<u8>) -> Result<ArgumentsView, FrameDecodeErr> {
    match spec_u64(s) {
        Err(e) => Err(e),
        Ok((s, delivery_tag)) =>
            match spec_u8(s) {
                Err(e) => Err(e),
                Ok((s, flags)) =>
                    match spec_short_str(s) {
                        Err(e) => Err(e),
                        Ok((s, exchange)) =>
                            match spec_short_str(s) {
                                Err(e) => Err(e),
                                Ok((s, routing_key)) =>
                                    match spec_u32(s) {
                                        Err(e) => Err(e),
                                        Ok((s, message_count)) =>
                                            Ok(Arguments::BasicGetOk {
                                                delivery_tag,
                                                redelivered: bit(flags, 0),
                                                exchange,
                                                routing_key,
                                                message_count,
                                            }),
                                    },
                            },
                    },
            },
    }
}

/// Decodes the arguments of `Basic.GetOk`.
pub fn parse_basic_get_ok(input: &[u8]) -> (r: Result<MethodArgs, FrameDecodeErr>)
    ensures
        args_view(r) == spec_basic_get_ok(input@),
{
    let (input, delivery_tag) = read_u64(input)?;
    let (input, flags) = read_u8(input)?;
    let (input, exchange) = parse_short_string(input)?;
    let (input, routing_key) = parse_short_string(input)?;
    let (_, message_count) = read_u32(input)?;
    Ok(Arguments::BasicGetOk {
        delivery_tag,
        redelivered: flag(flags, 0),
        exchange,
        routing_key,
        message_count,
    })
}

/// `Basic.GetEmpty` arguments: short string cluster_id.
pub open spec fn spec_basic_get_empty(s: Seq<u8>) -> Result<ArgumentsView, FrameDecodeErr> {
    match spec_short_str(s) {
        Err(e) => Err(e),
        Ok((s, cluster_id)) =>
            Ok(Arguments::BasicGetEmpty { cluster_id }),
    }
}

/// Decodes the arguments of `Basic.GetEmpty`.
pub fn parse_basic_get_empty(input: &[u8]) -> (r: Result<MethodArgs, FrameDecodeErr>)
    ensures
        args_view(r) == spec_basic_get_empty(input@),
{
    let (_, cluster_id) = parse_short_string(input)?;
    Ok(Arguments::BasicGetEmpty { cluster_id })
}

/// `Basic.Ack` arguments: 64-bit integer delivery_tag, packed bits {multiple}.
pub open spec fn spec_basic_ack(s: Seq<u8>) -> Result<ArgumentsView, FrameDecodeErr> {
    match spec_u64(s) {
        Err(e) => Err(e),
        Ok((s, delivery_tag)) =>
            match spec_u8(s) {
                Err(e) => Err(e),
                Ok((s, flags)) =>
                    Ok(Arguments::BasicAck {
                        delivery_tag,
                        multiple: bit(flags, 0),
                    }),
            },
    }
}

/// Decodes the arguments of `Basic.Ack`.
pub fn parse_basic_ack(input: &[u8]) -> (r: Result<MethodArgs, FrameDecodeErr>)
    ensures
        args_view(r) == spec_basic_ack(input@),
{
    let (input, delivery_tag) = read_u64(input)?;
    let (_, flags) = read_u8(input)?;
    Ok(Arguments::BasicAck {
        delivery_tag,
        multiple: flag(flags, 0),
    })
}

/// `Basic.Reject` arguments: 64-bit integer delivery_tag, packed bits {requeue}.
pub open spec fn spec_basic_reject(s: Seq<u8>) -> Result<ArgumentsView, FrameDecodeErr> {
    match spec_u64(s) {
        Err(e) => Err(e),
        Ok((s, delivery_tag)) =>
            match spec_u8(s) {
                Err(e) => Err(e),
                Ok((s, flags)) =>
                    Ok(Arguments::BasicReject {
                        delivery_tag,
                        requeue: bit(flags, 0),
                    }),
            },
    }
}

/// Decodes the arguments of `Basic.Reject`.
pub fn parse_basic_reject(input: &[u8]) -> (r: Result<MethodArgs, FrameDecodeErr>)
    ensures
        args_view(r) == spec_basic_reject(input@),
{
    let (input, delivery_tag) = read_u64(input)?;
    let (_, flags) = read_u8(input)?;
    Ok(Arguments::BasicReject {
        delivery_tag,
        requeue: flag(flags, 0),
    })
}

/// `Basic.RecoverAsync` arguments: packed bits {requeue}.
pub open spec fn spec_basic_recover_async(s: Seq<u8>) -> Result<ArgumentsView, FrameDecodeErr> {
    match spec_u8(s) {
        Err(e) => Err(e),
        Ok((s, flags)) =>
            Ok(Arguments::BasicRecoverAsync { requeue: bit(flags, 0) }),
    }
}

/// Decodes the arguments of `Basic.RecoverAsync`.
pub fn parse_basic_recover_async(input: &[u8]) -> (r: Result<MethodArgs, FrameDecodeErr>)
    ensures
        args_view(r) == spec_basic_recover_async(input@),
{
    let (_, flags) = read_u8(input)?;
    Ok(Arguments::BasicRecoverAsync { requeue: flag(flags, 0) })
}

/// `Basic.Recover` arguments: packed bits {requeue}.
pub open spec fn spec_basic_recover(s: Seq<u8>) -> Result<ArgumentsView, FrameDecodeErr> {
    match spec_u8(s) {
        Err(e) => Err(e),
        Ok((s, flags)) =>
            Ok(Arguments::BasicRecover { requeue: bit(flags, 0) }),
    }
}

/// Decodes the arguments of `Basic.Recover`.
pub fn parse_basic_recover(input: &[u8]) -> (r: Result<MethodArgs, FrameDecodeErr>)
    ensures
        args_view(r) == spec_basic_recover(input@),
{
    let (_, flags) = read_u8(input)?;
    Ok(Arguments::BasicRecover { requeue: flag(flags, 0) })
}

/// `Basic.RecoverOk` arguments: no arguments; trailing octets are ignored.
pub open spec fn spec_basic_recover_ok(s: Seq<u8>) -> Result<ArgumentsView, FrameDecodeErr> {
    Ok(Arguments::BasicRecoverOk)
}

/// Decodes the arguments of `Basic.RecoverOk`.
pub fn parse_basic_recover_ok(input: &[u8]) -> (r: Result<MethodArgs, FrameDecodeErr>)
    ensures
        args_view(r) == spec_basic_recover_ok(input@),
{
    Ok(Arguments::BasicRecoverOk)
}

/// `Basic.Nack` arguments: 64-bit integer delivery_tag, packed bits {multiple, requeue}.
pub open spec fn spec_basic_nack(s: Seq<u8>) -> Result<ArgumentsView, FrameDecodeErr> {
    match spec_u64(s) {
        Err(e) => Err(e),
        Ok((s, delivery_tag)) =>
            match spec_u8(s) {
                Err(e) => Err(e),
                Ok((s, flags)) =>
                    Ok(Arguments::BasicNack {
                        delivery_tag,
                        multiple: bit(flags, 0),
                        requeue: bit(flags, 1),
                    }),
            },
    }
}

/// Decodes the arguments of `Basic.Nack`.
pub fn parse_basic_nack(input: &[u8]) -> (r: Result<MethodArgs, FrameDecodeErr>)
    ensures
        args_view(r) == spec_basic_nack(input@),
{
    let (input, delivery_tag) = read_u64(input)?;
    let (_, flags) = read_u8(input)?;
    Ok(Arguments::BasicNack {
        delivery_tag,
        multiple: flag(flags, 0),
        requeue: flag(flags, 1),
    })
}

} // verus!
