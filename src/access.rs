//! Argument grammars of the Access class.
use vstd::prelude::*;
use crate::error::FrameDecodeErr;
use crate::method::{args_view, Arguments, ArgumentsView, MethodArgs};
use crate::util::{
    bit, flag, spec_short_str, parse_short_string, spec_u16, read_u16, spec_u8, read_u8,
};

verus! {

/// `Access.Request` arguments: short string realm, packed bits {exclusive, passive, active,
/// write, read}.
pub open spec fn spec_access_request(s: Seq<u8>) -> Result<ArgumentsView, FrameDecodeErr> {
    match spec_short_str(s) {
        Err(e) => Err(e),
        Ok((s, realm)) =>
            match spec_u8(s) {
                Err(e) => Err(e),
                Ok((s, flags)) =>
                    Ok(Arguments::AccessRequest {
                        realm,
                        exclusive: bit(flags, 0),
                        passive: bit(flags, 1),
                        active: bit(flags, 2),
                        write: bit(flags, 3),
                        read: bit(flags, 4),
                    }),
            },
    }
}

/// Decodes the arguments of `Access.Request`.
pub fn parse_access_request(input: &[u8]) -> (r: Result<MethodArgs, FrameDecodeErr>)
    ensures
        args_view(r) == spec_access_request(input@),
{
    let (input, realm) = parse_short_string(input)?;
    let (_, flags) = read_u8(input)?;
    Ok(Arguments::AccessRequest {
        realm,
        exclusive: flag(flags, 0),
        passive: flag(flags, 1),
        active: flag(flags, 2),
        write: flag(flags, 3),
        read: flag(flags, 4),
    })
}

/// `Access.RequestOk` arguments: 16-bit integer ticket.
pub open spec fn spec_access_request_ok(s: Seq<u8>) -> Result<ArgumentsView, FrameDecodeErr> {
    match spec_u16(s) {
        Err(e) => Err(e),
        Ok((s, ticket)) =>
            Ok(Arguments::AccessRequestOk { ticket }),
    }
}

/// Decodes the arguments of `Access.RequestOk`.
pub fn parse_access_request_ok(input: &[u8]) -> (r: Result<MethodArgs, FrameDecodeErr>)
    ensures
        args_view(r) == spec_access_request_ok(input@),
{
    let (_, ticket) = read_u16(input)?;
    Ok(Arguments::AccessRequestOk { ticket })
}

} // verus!
