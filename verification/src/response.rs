use vstd::prelude::*;
use crate::decimal::{decimal, push_decimal};

verus! {

/// The WASI preview 1 code of `Errno::Success`, read from wasi-common.
///
/// Calls `u16::from(Errno::Success)`; the contract claims the value that the
/// witx table of wasi-common (`typenames.witx`, `$errno`, first entry) assigns.
#[verifier::external_body]
fn errno_success() -> (code: u16)
    ensures
        code == 0,
{
    u16::from(wasi_common::snapshots::preview_1::error::Errno::Success)
}

/// The WASI preview 1 code of `Errno::Io`, read from wasi-common.
///
/// Calls `u16::from(Errno::Io)`; the contract claims the value that the witx
/// table of wasi-common (`typenames.witx`, `$errno`, entry `$io`) assigns.
#[verifier::external_body]
fn errno_io() -> (code: u16)
    ensures
        code == 29,
{
    u16::from(wasi_common::snapshots::preview_1::error::Errno::Io)
}

/// The body of a call that succeeded: `[0]`.
pub open spec fn success_body_bytes() -> Seq<u8> {
    seq![91u8] + decimal(0) + seq![93u8]
}

/// The body that answers `/init`: `[0,index,root_fd]`.
pub open spec fn init_body_bytes(index: nat, root_fd: nat) -> Seq<u8> {
    seq![91u8] + decimal(0) + seq![44u8] + decimal(index) + seq![44u8] + decimal(root_fd) + seq![
        93u8,
    ]
}

/// The body of a request that failed: `[29,"message"]`, the message written as it is.
pub open spec fn error_body_bytes(message: Seq<u8>) -> Seq<u8> {
    seq![91u8] + decimal(29) + seq![44u8, 34u8] + message + seq![34u8, 93u8]
}

/// Appends `bytes` to `out`.
pub fn push_bytes(out: &mut Vec<u8>, bytes: &[u8])
    ensures
        final(out)@ == old(out)@ + bytes@,
{
    let mut i: usize = 0;
    while i < bytes.len()
        invariant
            0 <= i <= bytes@.len(),
            out@ == old(out)@ + bytes@.take(i as int),
        decreases bytes@.len() - i,
    {
        out.push(bytes[i]);
        assert(bytes@.take(i + 1) =~= bytes@.take(i as int).push(bytes@[i as int]));
        i = i + 1;
    }
    assert(bytes@.take(bytes@.len() as int) =~= bytes@);
}

/// The body of a call that succeeded.
pub fn success_body() -> (b: Vec<u8>)
    ensures
        b@ == success_body_bytes(),
{
    let mut b: Vec<u8> = Vec::new();
    b.push(91u8);
    push_decimal(&mut b, errno_success() as u128);
    b.push(93u8);
    assert(b@ =~= success_body_bytes());
    b
}

/// The body that answers `/init` with the new instance's index and its root directory's descriptor.
pub fn init_body(index: usize, root_fd: u32) -> (b: Vec<u8>)
    ensures
        b@ == init_body_bytes(index as nat, root_fd as nat),
{
    let mut b: Vec<u8> = Vec::new();
    b.push(91u8);
    push_decimal(&mut b, errno_success() as u128);
    b.push(44u8);
    push_decimal(&mut b, index as u128);
    b.push(44u8);
    push_decimal(&mut b, root_fd as u128);
    b.push(93u8);
    assert(b@ =~= init_body_bytes(index as nat, root_fd as nat));
    b
}

/// The body of a request that failed with `message`.
pub fn error_body(message: &[u8]) -> (b: Vec<u8>)
    ensures
        b@ == error_body_bytes(message@),
{
    let mut b: Vec<u8> = Vec::new();
    b.push(91u8);
    push_decimal(&mut b, errno_io() as u128);
    b.push(44u8);
    b.push(34u8);
    push_bytes(&mut b, message);
    b.push(34u8);
    b.push(93u8);
    assert(b@ =~= error_body_bytes(message@));
    b
}

} // verus!
