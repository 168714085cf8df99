//! Argument grammars of the Tx class.
use vstd::prelude::*;
use crate::error::FrameDecodeErr;
use crate::method::{args_view, Arguments, ArgumentsView, MethodArgs};

verus! {

/// `Tx.Select` arguments: no arguments; trailing octets are ignored.
pub open spec fn spec_tx_select(s: Seq<u8>) -> Result<ArgumentsView, FrameDecodeErr> {
    Ok(Arguments::TxSelect)
}

/// Decodes the arguments of `Tx.Select`.
pub fn parse_tx_select(input: &[u8]) -> (r: Result<MethodArgs, FrameDecodeErr>)
    ensures
        args_view(r) == spec_tx_select(input@),
{
    Ok(Arguments::TxSelect)
}

/// `Tx.SelectOk` arguments: no arguments; trailing octets are ignored.
pub open spec fn spec_tx_select_ok(s: Seq<u8>) -> Result<ArgumentsView, FrameDecodeErr> {
    Ok(Arguments::TxSelectOk)
}

/// Decodes the arguments of `Tx.SelectOk`.
pub fn parse_tx_select_ok(input: &[u8]) -> (r: Result<MethodArgs, FrameDecodeErr>)
    ensures
        args_view(r) == spec_tx_select_ok(input@),
{
    Ok(Arguments::TxSelectOk)
}

/// `Tx.Commit` arguments: no arguments; trailing octets are ignored.
pub open spec fn spec_tx_commit(s: Seq<u8>) -> Result<ArgumentsView, FrameDecodeErr> {
    Ok(Arguments::TxCommit)
}

/// Decodes the arguments of `Tx.Commit`.
pub fn parse_tx_commit(input: &[u8]) -> (r: Result<MethodArgs, FrameDecodeErr>)
    ensures
        args_view(r) == spec_tx_commit(input@),
{
    Ok(Arguments::TxCommit)
}

/// `Tx.CommitOk` arguments: no arguments; trailing octets are ignored.
pub open spec fn spec_tx_commit_ok(s: Seq<u8>) -> Result<ArgumentsView, FrameDecodeErr> {
    Ok(Arguments::TxCommitOk)
}

/// Decodes the arguments of `Tx.CommitOk`.
pub fn parse_tx_commit_ok(input: &[u8]) -> (r: Result<MethodArgs, FrameDecodeErr>)
    ensures
        args_view(r) == spec_tx_commit_ok(input@),
{
    Ok(Arguments::TxCommitOk)
}

/// `Tx.Rollback` arguments: no arguments; trailing octets are ignored.
pub open spec fn spec_tx_rollback(s: Seq<u8>) -> Result<ArgumentsView, FrameDecodeErr> {
    Ok(Arguments::TxRollback)
}

/// Decodes the arguments of `Tx.Rollback`.
pub fn parse_tx_rollback(input: &[u8]) -> (r: Result<MethodArgs, FrameDecodeErr>)
    ensures
        args_view(r) == spec_tx_rollback(input@),
{
    Ok(Arguments::TxRollback)
}

/// `Tx.RollbackOk` arguments: no arguments; trailing octets are ignored.
pub open spec fn spec_tx_rollback_ok(s: Seq<u8>) -> Result<ArgumentsView, FrameDecodeErr> {
    Ok(Arguments::TxRollbackOk)
}

/// Decodes the arguments of `Tx.RollbackOk`.
pub fn parse_tx_rollback_ok(input: &[u8]) -> (r: Result<MethodArgs, FrameDecodeErr>)
    ensures
        args_view(r) == spec_tx_rollback_ok(input@),
{
    Ok(Arguments::TxRollbackOk)
}

} // verus!
