//! Argument grammars of the Confirm class.
use vstd::prelude::*;
use crate::error::FrameDecodeErr;
use crate::method::{args_view, Arguments, ArgumentsView, MethodArgs};
use crate::util::{bit, flag, spec_u8, read_u8};

verus! {

/// `Confirm.Select` arguments: packed bits {no_wait}.
pub open spec fn spec_confirm_select(s: Seq<u8>) -> Result<ArgumentsView, FrameDecodeErr> {
    match spec_u8(s) {
        Err(e) => Err(e),
        Ok((s, flags)) =>
            Ok(Arguments::ConfirmSelect { no_wait: bit(flags, 0) }),
    }
}

/// Decodes the arguments of `Confirm.Select`.
pub fn parse_confirm_select(input: &[u8]) -> (r: Result<MethodArgs, FrameDecodeErr>)
    ensures
        args_view(r) == spec_confirm_select(input@),
{
    let (_, flags) = read_u8(input)?;
    Ok(Arguments::ConfirmSelect { no_wait: flag(flags, 0) })
}

/// `Confirm.SelectOk` arguments: no arguments; trailing octets are ignored.
pub open spec fn spec_confirm_select_ok(s: Seq<u8>) -> Result<ArgumentsView, FrameDecodeErr> {
    Ok(Arguments::ConfirmSelectOk)
}

/// Decodes the arguments of `Confirm.SelectOk`.
pub fn parse_confirm_select_ok(input: &[u8]) -> (r: Result<MethodArgs, FrameDecodeErr>)
    ensures
        args_view(r) == spec_confirm_select_ok(input@),
{
    Ok(Arguments::ConfirmSelectOk)
}

} // verus!
