//! Argument grammars of the Exchange class.
use vstd::prelude::*;
use crate::error::FrameDecodeErr;
use crate::field::{spec_field_table, parse_field_table};
use crate::method::{args_view, Arguments, ArgumentsView, MethodArgs};
use crate::util::{
    bit, flag, spec_short_str, parse_short_string, spec_u16, read_u16, spec_u8, read_u8,
};

verus! {

/// `Exchange.Declare` arguments: 16-bit integer ticket, short string exchange, short string
/// exchange_type, packed bits {passive, durable, auto_delete, internal, no_wait}, field table
/// arguments.
pub open spec fn spec_exchange_declare(s: Seq<u8>) -> Result<ArgumentsView, FrameDecodeErr> {
    match spec_u16(s) {
        Err(e) => Err(e),
        Ok((s, ticket)) =>
            match spec_short_str(s) {
                Err(e) => Err(e),
                Ok((s, exchange)) =>
                    match spec_short_str(s) {
                        Err(e) => Err(e),
                        Ok((s, exchange_type)) =>
                            match spec_u8(s) {
                                Err(e) => Err(e),
                                Ok((s, flags)) =>
                                    match spec_field_table(s) {
                                        Err(e) => Err(e),
                                        Ok((s, arguments)) =>
                                            Ok(Arguments::ExchangeDeclare {
                                                ticket,
                                                exchange,
                                                exchange_type,
                                                passive: bit(flags, 0),
                                                durable: bit(flags, 1),
                                                auto_delete: bit(flags, 2),
                                                internal: bit(flags, 3),
                                                no_wait: bit(flags, 4),
                                                arguments,
                                            }),
                                    },
                            },
                    },
            },
    }
}

/// Decodes the arguments of `Exchange.Declare`.
pub fn parse_exchange_declare(input: &[u8]) -> (r: Result<MethodArgs, FrameDecodeErr>)
    ensures
        args_view(r) == spec_exchange_declare(input@),
{
    let (input, ticket) = read_u16(input)?;
    let (input, exchange) = parse_short_string(input)?;
    let (input, exchange_type) = parse_short_string(input)?;
    let (input, flags) = read_u8(input)?;
    let (_, arguments) = parse_field_table(input)?;
    Ok(Arguments::ExchangeDeclare {
        ticket,
        exchange,
        exchange_type,
        passive: flag(flags, 0),
        durable: flag(flags, 1),
        auto_delete: flag(flags, 2),
        internal: flag(flags, 3),
        no_wait: flag(flags, 4),
        arguments,
    })
}

/// `Exchange.DeclareOk` arguments: no arguments; trailing octets are ignored.
pub open spec fn spec_exchange_declare_ok(s: Seq<u8>) -> Result<ArgumentsView, FrameDecodeErr> {
    Ok(Arguments::ExchangeDeclareOk)
}

/// Decodes the arguments of `Exchange.DeclareOk`.
pub fn parse_exchange_declare_ok(input: &[u8]) -> (r: Result<MethodArgs, FrameDecodeErr>)
    ensures
        args_view(r) == spec_exchange_declare_ok(input@),
{
    Ok(Arguments::ExchangeDeclareOk)
}

/// `Exchange.Delete` arguments: 16-bit integer ticket, short string exchange, packed bits
/// {if_unused, no_wait}.
pub open spec fn spec_exchange_delete(s: Seq<u8>) -> Result<ArgumentsView, FrameDecodeErr> {
    match spec_u16(s) {
        Err(e) => Err(e),
        Ok((s, ticket)) =>
            match spec_short_str(s) {
                Err(e) => Err(e),
                Ok((s, exchange)) =>
                    match spec_u8(s) {
                        Err(e) => Err(e),
                        Ok((s, flags)) =>
                            Ok(Arguments::ExchangeDelete {
                                ticket,
                                exchange,
                                if_unused: bit(flags, 0),
                                no_wait: bit(flags, 1),
                            }),
                    },
            },
    }
}

/// Decodes the arguments of `Exchange.Delete`.
pub fn parse_exchange_delete(input: &[u8]) -> (r: Result<MethodArgs, FrameDecodeErr>)
    ensures
        args_view(r) == spec_exchange_delete(input@),
{
    let (input, ticket) = read_u16(input)?;
    let (input, exchange) = parse_short_string(input)?;
    let (_, flags) = read_u8(input)?;
    Ok(Arguments::ExchangeDelete {
        ticket,
        exchange,
        if_unused: flag(flags, 0),
        no_wait: flag(flags, 1),
    })
}

/// `Exchange.DeleteOk` arguments: no arguments; trailing octets are ignored.
pub open spec fn spec_exchange_delete_ok(s: Seq<u8>) -> Result<ArgumentsView, FrameDecodeErr> {
    Ok(Arguments::ExchangeDeleteOk)
}

/// Decodes the arguments of `Exchange.DeleteOk`.
pub fn parse_exchange_delete_ok(input: &[u8]) -> (r: Result<MethodArgs, FrameDecodeErr>)
    ensures
        args_view(r) == spec_exchange_delete_ok(input@),
{
    Ok(Arguments::ExchangeDeleteOk)
}

/// `Exchange.Bind` arguments: 16-bit integer ticket, short string destination, short string
/// source, short string routing_key, packed bits {no_wait}, field table arguments.
pub open spec fn spec_exchange_bind(s: Seq<u8>) -> Result<ArgumentsView, FrameDecodeErr> {
    match spec_u16(s) {
        Err(e) => Err(e),
        Ok((s, ticket)) =>
            match spec_short_str(s) {
                Err(e) => Err(e),
                Ok((s, destination)) =>
                    match spec_short_str(s) {
                        Err(e) => Err(e),
                        Ok((s, source)) =>
                            match spec_short_str(s) {
                                Err(e) => Err(e),
                                Ok((s, routing_key)) =>
                                    match spec_u8(s) {
                                        Err(e) => Err(e),
                                        Ok((s, flags)) =>
                                            match spec_field_table(s) {
                                                Err(e) => Err(e),
                                                Ok((s, arguments)) =>
                                                    Ok(Arguments::ExchangeBind {
                                                        ticket,
                                                        destination,
                                                        source,
                                                        routing_key,
                                                        no_wait: bit(flags, 0),
                                                        arguments,
                                                    }),
                                            },
                                    },
                            },
                    },
            },
    }
}

/// Decodes the arguments of `Exchange.Bind`.
pub fn parse_exchange_bind(input: &[u8]) -> (r: Result<MethodArgs, FrameDecodeErr>)
    ensures
        args_view(r) == spec_exchange_bind(input@),
{
    let (input, ticket) = read_u16(input)?;
    let (input, destination) = parse_short_string(input)?;
    let (input, source) = parse_short_string(input)?;
    let (input, routing_key) = parse_short_string(input)?;
    let (input, flags) = read_u8(input)?;
    let (_, arguments) = parse_field_table(input)?;
    Ok(Arguments::ExchangeBind {
        ticket,
        destination,
        source,
        routing_key,
        no_wait: flag(flags, 0),
        arguments,
    })
}

/// `Exchange.BindOk` arguments: no arguments; trailing octets are ignored.
pub open spec fn spec_exchange_bind_ok(s: Seq<u8>) -> Result<ArgumentsView, FrameDecodeErr> {
    Ok(Arguments::ExchangeBindOk)
}

/// Decodes the arguments of `Exchange.BindOk`.
pub fn parse_exchange_bind_ok(input: &[u8]) -> (r: Result<MethodArgs, FrameDecodeErr>)
    ensures
        args_view(r) == spec_exchange_bind_ok(input@),
{
    Ok(Arguments::ExchangeBindOk)
}

/// `Exchange.Unbind` arguments: 16-bit integer ticket, short string destination, short string
/// source, short string routing_key, packed bits {no_wait}, field table arguments.
pub open spec fn spec_exchange_unbind(s: Seq<u8>) -> Result<ArgumentsView, FrameDecodeErr> {
    match spec_u16(s) {
        Err(e) => Err(e),
        Ok((s, ticket)) =>
            match spec_short_str(s) {
                Err(e) => Err(e),
                Ok((s, destination)) =>
                    match spec_short_str(s) {
                        Err(e) => Err(e),
                        Ok((s, source)) =>
                            match spec_short_str(s) {
                                Err(e) => Err(e),
                                Ok((s, routing_key)) =>
                                    match spec_u8(s) {
                                        Err(e) => Err(e),
                                        Ok((s, flags)) =>
                                            match spec_field_table(s) {
                                                Err(e) => Err(e),
                                                Ok((s, arguments)) =>
                                                    Ok(Arguments::ExchangeUnbind {
                                                        ticket,
                                                        destination,
                                                        source,
                                                        routing_key,
                                                        no_wait: bit(flags, 0),
                                                        arguments,
                                                    }),
                                            },
                                    },
                            },
                    },
            },
    }
}

/// Decodes the arguments of `Exchange.Unbind`.
pub fn parse_exchange_unbind(input: &[u8]) -> (r: Result<MethodArgs, FrameDecodeErr>)
    ensures
        args_view(r) == spec_exchange_unbind(input@),
{
    let (input, ticket) = read_u16(input)?;
    let (input, destination) = parse_short_string(input)?;
    let (input, source) = parse_short_string(input)?;
    let (input, routing_key) = parse_short_string(input)?;
    let (input, flags) = read_u8(input)?;
    let (_, arguments) = parse_field_table(input)?;
    Ok(Arguments::ExchangeUnbind {
        ticket,
        destination,
        source,
        routing_key,
        no_wait: flag(flags, 0),
        arguments,
    })
}

/// `Exchange.UnbindOk` arguments: no arguments; trailing octets are ignored.
pub open spec fn spec_exchange_unbind_ok(s: Seq<u8>) -> Result<ArgumentsView, FrameDecodeErr> {
    Ok(Arguments::ExchangeUnbindOk)
}

/// Decodes the arguments of `Exchange.UnbindOk`.
pub fn parse_exchange_unbind_ok(input: &[u8]) -> (r: Result<MethodArgs, FrameDecodeErr>)
    ensures
        args_view(r) == spec_exchange_unbind_ok(input@),
{
    Ok(Arguments::ExchangeUnbindOk)
}

} // verus!
