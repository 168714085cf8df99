//! Argument grammars of the Queue class.
use vstd::prelude::*;
use crate::error::FrameDecodeErr;
use crate::field::{spec_field_table, parse_field_table};
use crate::method::{args_view, Arguments, ArgumentsView, MethodArgs};
use crate::util::{
    bit, flag, spec_short_str, parse_short_string, spec_u16, read_u16, spec_u32, read_u32, spec_u8,
    read_u8,
};

verus! {

/// `Queue.Declare` arguments: 16-bit integer ticket, short string queue, packed bits {passive,
/// durable, exclusive, auto_delete, no_wait}, field table arguments.
pub open spec fn spec_queue_declare(s: Seq<u8>) -> Result<ArgumentsView, FrameDecodeErr> {
    match spec_u16(s) {
        Err(e) => Err(e),
        Ok((s, ticket)) =>
            match spec_short_str(s) {
                Err(e) => Err(e),
                Ok((s, queue)) =>
                    match spec_u8(s) {
                        Err(e) => Err(e),
                        Ok((s, flags)) =>
                            match spec_field_table(s) {
                                Err(e) => Err(e),
                                Ok((s, arguments)) =>
                                    Ok(Arguments::QueueDeclare {
                                        ticket,
                                        queue,
                                        passive: bit(flags, 0),
                                        durable: bit(flags, 1),
                                        exclusive: bit(flags, 2),
                                        auto_delete: bit(flags, 3),
                                        no_wait: bit(flags, 4),
                                        arguments,
                                    }),
                            },
                    },
            },
    }
}

/// Decodes the arguments of `Queue.Declare`.
pub fn parse_queue_declare(input: &[u8]) -> (r: Result<MethodArgs, FrameDecodeErr>)
    ensures
        args_view(r) == spec_queue_declare(input@),
{
    let (input, ticket) = read_u16(input)?;
    let (input, queue) = parse_short_string(input)?;
    let (input, flags) = read_u8(input)?;
    let (_, arguments) = parse_field_table(input)?;
    Ok(Arguments::QueueDeclare {
        ticket,
        queue,
        passive: flag(flags, 0),
        durable: flag(flags, 1),
        exclusive: flag(flags, 2),
        auto_delete: flag(flags, 3),
        no_wait: flag(flags, 4),
        arguments,
    })
}

/// `Queue.DeclareOk` arguments: short string queue, 32-bit integer message_count, 32-bit
/// integer consumer_count.
pub open spec fn spec_queue_declare_ok(s: Seq<u8>) -> Result<ArgumentsView, FrameDecodeErr> {
    match spec_short_str(s) {
        Err(e) => Err(e),
        Ok((s, queue)) =>
            match spec_u32(s) {
                Err(e) => Err(e),
                Ok((s, message_count)) =>
                    match spec_u32(s) {
                        Err(e) => Err(e),
                        Ok((s, consumer_count)) =>
                            Ok(Arguments::QueueDeclareOk {
                                queue,
                                message_count,
                                consumer_count,
                            }),
                    },
            },
    }
}

/// Decodes the arguments of `Queue.DeclareOk`.
pub fn parse_queue_declare_ok(input: &[u8]) -> (r: Result<MethodArgs, FrameDecodeErr>)
    ensures
        args_view(r) == spec_queue_declare_ok(input@),
{
    let (input, queue) = parse_short_string(input)?;
    let (input, message_count) = read_u32(input)?;
    let (_, consumer_count) = read_u32(input)?;
    Ok(Arguments::QueueDeclareOk {
        queue,
        message_count,
        consumer_count,
    })
}

/// `Queue.Bind` arguments: 16-bit integer ticket, short string queue, short string exchange,
/// short string routing_key, packed bits {no_wait}, field table arguments.
pub open spec fn spec_queue_bind(s: Seq<u8>) -> Result<ArgumentsView, FrameDecodeErr> {
    match spec_u16(s) {
        Err(e) => Err(e),
        Ok((s, ticket)) =>
            match spec_short_str(s) {
                Err(e) => Err(e),
                Ok((s, queue)) =>
                    match spec_short_str(s) {
                        Err(e) => Err(e),
                        Ok((s, exchange)) =>
                            match spec_short_str(s) {
                                Err(e) => Err(e),
                                Ok((s, routing_key)) =>
                                    match spec_u8(s) {
                                        Err(e) => Err(e),
                                        Ok((s, flags)) =>
                                            match spec_field_table(s) {
                                                Err(e) => Err(e),
                                                Ok((s, arguments)) =>
                                                    Ok(Arguments::QueueBind {
                                                        ticket,
                                                        queue,
                                                        exchange,
                                                        routing_key,
                                                        no_wait: bit(flags, 0),
                                                        arguments,
                                                    }),
                                            },
                                    },
                            },
                    },
            },
    }
}

/// Decodes the arguments of `Queue.Bind`.
pub fn parse_queue_bind(input: &[u8]) -> (r: Result<MethodArgs, FrameDecodeErr>)
    ensures
        args_view(r) == spec_queue_bind(input@),
{
    let (input, ticket) = read_u16(input)?;
    let (input, queue) = parse_short_string(input)?;
    let (input, exchange) = parse_short_string(input)?;
    let (input, routing_key) = parse_short_string(input)?;
    let (input, flags) = read_u8(input)?;
    let (_, arguments) = parse_field_table(input)?;
    Ok(Arguments::QueueBind {
        ticket,
        queue,
        exchange,
        routing_key,
        no_wait: flag(flags, 0),
        arguments,
    })
}

/// `Queue.BindOk` arguments: no arguments; trailing octets are ignored.
pub open spec fn spec_queue_bind_ok(s: Seq<u8>) -> Result<ArgumentsView, FrameDecodeErr> {
    Ok(Arguments::QueueBindOk)
}

/// Decodes the arguments of `Queue.BindOk`.
pub fn parse_queue_bind_ok(input: &[u8]) -> (r: Result<MethodArgs, FrameDecodeErr>)
    ensures
        args_view(r) == spec_queue_bind_ok(input@),
{
    Ok(Arguments::QueueBindOk)
}

/// `Queue.Unbind` arguments: 16-bit integer ticket, short string queue, short string exchange,
/// short string routing_key, field table arguments.
pub open spec fn spec_queue_unbind(s: Seq<u8>) -> Result<ArgumentsView, FrameDecodeErr> {
    match spec_u16(s) {
        Err(e) => Err(e),
        Ok((s, ticket)) =>
            match spec_short_str(s) {
                Err(e) => Err(e),
                Ok((s, queue)) =>
                    match spec_short_str(s) {
                        Err(e) => Err(e),
                        Ok((s, exchange)) =>
                            match spec_short_str(s) {
                                Err(e) => Err(e),
                                Ok((s, routing_key)) =>
                                    match spec_field_table(s) {
                                        Err(e) => Err(e),
                                        Ok((s, arguments)) =>
                                            Ok(Arguments::QueueUnbind {
                                                ticket,
                                                queue,
                                                exchange,
                                                routing_key,
                                                arguments,
                                            }),
                                    },
                            },
                    },
            },
    }
}

/// Decodes the arguments of `Queue.Unbind`.
pub fn parse_queue_unbind(input: &[u8]) -> (r: Result<MethodArgs, FrameDecodeErr>)
    ensures
        args_view(r) == spec_queue_unbind(input@),
{
    let (input, ticket) = read_u16(input)?;
    let (input, queue) = parse_short_string(input)?;
    let (input, exchange) = parse_short_string(input)?;
    let (input, routing_key) = parse_short_string(input)?;
    let (_, arguments) = parse_field_table(input)?;
    Ok(Arguments::QueueUnbind {
        ticket,
        queue,
        exchange,
        routing_key,
        arguments,
    })
}

/// `Queue.UnbindOk` arguments: no arguments; trailing octets are ignored.
pub open spec fn spec_queue_unbind_ok(s: Seq<u8>) -> Result<ArgumentsView, FrameDecodeErr> {
    Ok(Arguments::QueueUnbindOk)
}

/// Decodes the arguments of `Queue.UnbindOk`.
pub fn parse_queue_unbind_ok(input: &[u8]) -> (r: Result<MethodArgs, FrameDecodeErr>)
    ensures
        args_view(r) == spec_queue_unbind_ok(input@),
{
    Ok(Arguments::QueueUnbindOk)
}

/// `Queue.Purge` arguments: 16-bit integer ticket, short string queue, packed bits {no_wait}.
pub open spec fn spec_queue_purge(s: Seq<u8>) -> Result<ArgumentsView, FrameDecodeErr> {
    match spec_u16(s) {
        Err(e) => Err(e),
        Ok((s, ticket)) =>
            match spec_short_str(s) {
                Err(e) => Err(e),
                Ok((s, queue)) =>
                    match spec_u8(s) {
                        Err(e) => Err(e),
                        Ok((s, flags)) =>
                            Ok(Arguments::QueuePurge {
                                ticket,
                                queue,
                                no_wait: bit(flags, 0),
                            }),
                    },
            },
    }
}

/// Decodes the arguments of `Queue.Purge`.
pub fn parse_queue_purge(input: &[u8]) -> (r: Result<MethodArgs, FrameDecodeErr>)
    ensures
        args_view(r) == spec_queue_purge(input@),
{
    let (input, ticket) = read_u16(input)?;
    let (input, queue) = parse_short_string(input)?;
    let (_, flags) = read_u8(input)?;
    Ok(Arguments::QueuePurge {
        ticket,
        queue,
        no_wait: flag(flags, 0),
    })
}

/// `Queue.PurgeOk` arguments: 32-bit integer message_count.
pub open spec fn spec_queue_purge_ok(s: Seq<u8>) -> Result<ArgumentsView, FrameDecodeErr> {
    match spec_u32(s) {
        Err(e) => Err(e),
        Ok((s, message_count)) =>
            Ok(Arguments::QueuePurgeOk { message_count }),
    }
}

/// Decodes the arguments of `Queue.PurgeOk`.
pub fn parse_queue_purge_ok(input: &[u8]) -> (r: Result<MethodArgs, FrameDecodeErr>)
    ensures
        args_view(r) == spec_queue_purge_ok(input@),
{
    let (_, message_count) = read_u32(input)?;
    Ok(Arguments::QueuePurgeOk { message_count })
}

/// `Queue.Delete` arguments: 16-bit integer ticket, short string queue, packed bits {if_unused,
/// if_empty, no_wait}.
pub open spec fn spec_queue_delete(s: Seq<u8>) -> Result<ArgumentsView, FrameDecodeErr> {
    match spec_u16(s) {
        Err(e) => Err(e),
        Ok((s, ticket)) =>
            match spec_short_str(s) {
                Err(e) => Err(e),
                Ok((s, queue)) =>
                    match spec_u8(s) {
                        Err(e) => Err(e),
                        Ok((s, flags)) =>
                            Ok(Arguments::QueueDelete {
                                ticket,
                                queue,
                                if_unused: bit(flags, 0),
                                if_empty: bit(flags, 1),
                                no_wait: bit(flags, 2),
                            }),
                    },
            },
    }
}

/// Decodes the arguments of `Queue.Delete`.
pub fn parse_queue_delete(input: &[u8]) -> (r: Result<MethodArgs, FrameDecodeErr>)
    ensures
        args_view(r) == spec_queue_delete(input@),
{
    let (input, ticket) = read_u16(input)?;
    let (input, queue) = parse_short_string(input)?;
    let (_, flags) = read_u8(input)?;
    Ok(Arguments::QueueDelete {
        ticket,
        queue,
        if_unused: flag(flags, 0),
        if_empty: flag(flags, 1),
        no_wait: flag(flags, 2),
    })
}

/// `Queue.DeleteOk` arguments: 32-bit integer message_count.
pub open spec fn spec_queue_delete_ok(s: Seq<u8>) -> Result<ArgumentsView, FrameDecodeErr> {
    match spec_u32(s) {
        Err(e) => Err(e),
        Ok((s, message_count)) =>
            Ok(Arguments::QueueDeleteOk { message_count }),
    }
}

/// Decodes the arguments of `Queue.DeleteOk`.
pub fn parse_queue_delete_ok(input: &[u8]) -> (r: Result<MethodArgs, FrameDecodeErr>)
    ensures
        args_view(r) == spec_queue_delete_ok(input@),
{
    let (_, message_count) = read_u32(input)?;
    Ok(Arguments::QueueDeleteOk { message_count })
}

} // verus!
