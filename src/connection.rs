//! Argument grammars of the Connection class.
use vstd::prelude::*;
use crate::error::FrameDecodeErr;
use crate::field::{spec_field_table, parse_field_table};
use crate::method::{args_view, Arguments, ArgumentsView, MethodArgs};
use crate::util::{
    bit, flag, spec_long_str, parse_long_string, spec_short_str, parse_short_string, spec_u16,
    read_u16, spec_u32, read_u32, spec_u8, read_u8,
};

verus! {

/// `Connection.Start` arguments: octet version_major, octet version_minor, field table
/// server_properties, long string mechanisms, long string locales.
pub open spec fn spec_connection_start(s: Seq<u8>) -> Result<ArgumentsView, FrameDecodeErr> {
    match spec_u8(s) {
        Err(e) => Err(e),
        Ok((s, version_major)) =>
            match spec_u8(s) {
                Err(e) => Err(e),
                Ok((s, version_minor)) =>
                    match spec_field_table(s) {
                        Err(e) => Err(e),
                        Ok((s, server_properties)) =>
                            match spec_long_str(s) {
                                Err(e) => Err(e),
                                Ok((s, mechanisms)) =>
                                    match spec_long_str(s) {
                                        Err(e) => Err(e),
                                        Ok((s, locales)) =>
                                            Ok(Arguments::ConnectionStart {
                                                version_major,
                                                version_minor,
                                                server_properties,
                                                mechanisms,
                                                locales,
                                            }),
                                    },
                            },
                    },
            },
    }
}

/// Decodes the arguments of `Connection.Start`.
pub fn parse_connection_start(input: &[u8]) -> (r: Result<MethodArgs, FrameDecodeErr>)
    ensures
        args_view(r) == spec_connection_start(input@),
{
    let (input, version_major) = read_u8(input)?;
    let (input, version_minor) = read_u8(input)?;
    let (input, server_properties) = parse_field_table(input)?;
    let (input, mechanisms) = parse_long_string(input)?;
    let (_, locales) = parse_long_string(input)?;
    Ok(Arguments::ConnectionStart {
        version_major,
        version_minor,
        server_properties,
        mechanisms,
        locales,
    })
}

/// `Connection.StartOk` arguments: field table client_properties, short string mechanism, long
/// string response, short string locale.
pub open spec fn spec_connection_start_ok(s: Seq<u8>) -> Result<ArgumentsView, FrameDecodeErr> {
    match spec_field_table(s) {
        Err(e) => Err(e),
        Ok((s, client_properties)) =>
            match spec_short_str(s) {
                Err(e) => Err(e),
                Ok((s, mechanism)) =>
                    match spec_long_str(s) {
                        Err(e) => Err(e),
                        Ok((s, response)) =>
                            match spec_short_str(s) {
                                Err(e) => Err(e),
                                Ok((s, locale)) =>
                                    Ok(Arguments::ConnectionStartOk {
                                        client_properties,
                                        mechanism,
                                        response,
                                        locale,
                                    }),
                            },
                    },
            },
    }
}

/// Decodes the arguments of `Connection.StartOk`.
pub fn parse_connection_start_ok(input: &[u8]) -> (r: Result<MethodArgs, FrameDecodeErr>)
    ensures
        args_view(r) == spec_connection_start_ok(input@),
{
    let (input, client_properties) = parse_field_table(input)?;
    let (input, mechanism) = parse_short_string(input)?;
    let (input, response) = parse_long_string(input)?;
    let (_, locale) = parse_short_string(input)?;
    Ok(Arguments::ConnectionStartOk {
        client_properties,
        mechanism,
        response,
        locale,
    })
}

/// `Connection.Secure` arguments: long string challenge.
pub open spec fn spec_connection_secure(s: Seq<u8>) -> Result<ArgumentsView, FrameDecodeErr> {
    match spec_long_str(s) {
        Err(e) => Err(e),
        Ok((s, challenge)) =>
            Ok(Arguments::ConnectionSecure { challenge }),
    }
}

/// Decodes the arguments of `Connection.Secure`.
pub fn parse_connection_secure(input: &[u8]) -> (r: Result<MethodArgs, FrameDecodeErr>)
    ensures
        args_view(r) == spec_connection_secure(input@),
{
    let (_, challenge) = parse_long_string(input)?;
    Ok(Arguments::ConnectionSecure { challenge })
}

/// `Connection.SecureOk` arguments: long string response.
pub open spec fn spec_connection_secure_ok(s: Seq<u8>) -> Result<ArgumentsView, FrameDecodeErr> {
    match spec_long_str(s) {
        Err(e) => Err(e),
        Ok((s, response)) =>
            Ok(Arguments::ConnectionSecureOk { response }),
    }
}

/// Decodes the arguments of `Connection.SecureOk`.
pub fn parse_connection_secure_ok(input: &[u8]) -> (r: Result<MethodArgs, FrameDecodeErr>)
    ensures
        args_view(r) == spec_connection_secure_ok(input@),
{
    let (_, response) = parse_long_string(input)?;
    Ok(Arguments::ConnectionSecureOk { response })
}

/// `Connection.Tune` arguments: 16-bit integer channel_max, 32-bit integer frame_max, 16-bit
/// integer heartbeat.
pub open spec fn spec_connection_tune(s: Seq<u8>) -> Result<ArgumentsView, FrameDecodeErr> {
    match spec_u16(s) {
        Err(e) => Err(e),
        Ok((s, channel_max)) =>
            match spec_u32(s) {
                Err(e) => Err(e),
                Ok((s, frame_max)) =>
                    match spec_u16(s) {
                        Err(e) => Err(e),
                        Ok((s, heartbeat)) =>
                            Ok(Arguments::ConnectionTune {
                                channel_max,
                                frame_max,
                                heartbeat,
                            }),
                    },
            },
    }
}

/// Decodes the arguments of `Connection.Tune`.
pub fn parse_connection_tune(input: &[u8]) -> (r: Result<MethodArgs, FrameDecodeErr>)
    ensures
        args_view(r) == spec_connection_tune(input@),
{
    let (input, channel_max) = read_u16(input)?;
    let (input, frame_max) = read_u32(input)?;
    let (_, heartbeat) = read_u16(input)?;
    Ok(Arguments::ConnectionTune {
        channel_max,
        frame_max,
        heartbeat,
    })
}

/// `Connection.TuneOk` arguments: 16-bit integer channel_max, 32-bit integer frame_max, 16-bit
/// integer heartbeat.
pub open spec fn spec_connection_tune_ok(s: Seq<u8>) -> Result<ArgumentsView, FrameDecodeErr> {
    match spec_u16(s) {
        Err(e) => Err(e),
        Ok((s, channel_max)) =>
            match spec_u32(s) {
                Err(e) => Err(e),
                Ok((s, frame_max)) =>
                    match spec_u16(s) {
                        Err(e) => Err(e),
                        Ok((s, heartbeat)) =>
                            Ok(Arguments::ConnectionTuneOk {
                                channel_max,
                                frame_max,
                                heartbeat,
                            }),
                    },
            },
    }
}

/// Decodes the arguments of `Connection.TuneOk`.
pub fn parse_connection_tune_ok(input: &[u8]) -> (r: Result<MethodArgs, FrameDecodeErr>)
    ensures
        args_view(r) == spec_connection_tune_ok(input@),
{
    let (input, channel_max) = read_u16(input)?;
    let (input, frame_max) = read_u32(input)?;
    let (_, heartbeat) = read_u16(input)?;
    Ok(Arguments::ConnectionTuneOk {
        channel_max,
        frame_max,
        heartbeat,
    })
}

/// `Connection.Open` arguments: short string vhost, short string capabilities, packed bits
/// {insist}.
pub open spec fn spec_connection_open(s: Seq<u8>) -> Result<ArgumentsView, FrameDecodeErr> {
    match spec_short_str(s) {
        Err(e) => Err(e),
        Ok((s, vhost)) =>
            match spec_short_str(s) {
                Err(e) => Err(e),
                Ok((s, capabilities)) =>
                    match spec_u8(s) {
                        Err(e) => Err(e),
                        Ok((s, flags)) =>
                            Ok(Arguments::ConnectionOpen {
                                vhost,
                                capabilities,
                                insist: bit(flags, 0),
                            }),
                    },
            },
    }
}

/// Decodes the arguments of `Connection.Open`.
pub fn parse_connection_open(input: &[u8]) -> (r: Result<MethodArgs, FrameDecodeErr>)
    ensures
        args_view(r) == spec_connection_open(input@),
{
    let (input, vhost) = parse_short_string(input)?;
    let (input, capabilities) = parse_short_string(input)?;
    let (_, flags) = read_u8(input)?;
    Ok(Arguments::ConnectionOpen {
        vhost,
        capabilities,
        insist: flag(flags, 0),
    })
}

/// `Connection.OpenOk` arguments: short string known_hosts.
pub open spec fn spec_connection_open_ok(s: Seq<u8>) -> Result<ArgumentsView, FrameDecodeErr> {
    match spec_short_str(s) {
        Err(e) => Err(e),
        Ok((s, known_hosts)) =>
            Ok(Arguments::ConnectionOpenOk { known_hosts }),
    }
}

/// Decodes the arguments of `Connection.OpenOk`.
pub fn parse_connection_open_ok(input: &[u8]) -> (r: Result<MethodArgs, FrameDecodeErr>)
    ensures
        args_view(r) == spec_connection_open_ok(input@),
{
    let (_, known_hosts) = parse_short_string(input)?;
    Ok(Arguments::ConnectionOpenOk { known_hosts })
}

/// `Connection.Close` arguments: 16-bit integer reply_code, short string reply_text, 16-bit
/// integer class_id, 16-bit integer method_id.
pub open spec fn spec_connection_close(s: Seq<u8>) -> Result<ArgumentsView, FrameDecodeErr> {
    match spec_u16(s) {
        Err(e) => Err(e),
        Ok((s, reply_code)) =>
            match spec_short_str(s) {
                Err(e) => Err(e),
                Ok((s, reply_text)) =>
                    match spec_u16(s) {
                        Err(e) => Err(e),
                        Ok((s, class_id)) =>
                            match spec_u16(s) {
                                Err(e) => Err(e),
                                Ok((s, method_id)) =>
                                    Ok(Arguments::ConnectionClose {
                                        reply_code,
                                        reply_text,
                                        class_id,
                                        method_id,
                                    }),
                            },
                    },
            },
    }
}

/// Decodes the arguments of `Connection.Close`.
pub fn parse_connection_close(input: &[u8]) -> (r: Result<MethodArgs, FrameDecodeErr>)
    ensures
        args_view(r) == spec_connection_close(input@),
{
    let (input, reply_code) = read_u16(input)?;
    let (input, reply_text) = parse_short_string(input)?;
    let (input, class_id) = read_u16(input)?;
    let (_, method_id) = read_u16(input)?;
    Ok(Arguments::ConnectionClose {
        reply_code,
        reply_text,
        class_id,
        method_id,
    })
}

/// `Connection.CloseOk` arguments: no arguments; trailing octets are ignored.
pub open spec fn spec_connection_close_ok(s: Seq<u8>) -> Result<ArgumentsView, FrameDecodeErr> {
    Ok(Arguments::ConnectionCloseOk)
}

/// Decodes the arguments of `Connection.CloseOk`.
pub fn parse_connection_close_ok(input: &[u8]) -> (r: Result<MethodArgs, FrameDecodeErr>)
    ensures
        args_view(r) == spec_connection_close_ok(input@),
{
    Ok(Arguments::ConnectionCloseOk)
}

} // verus!
