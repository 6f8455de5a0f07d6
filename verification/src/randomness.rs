//! The contract's contribution to a game's randomness: the SHA-256 digest
//! of the ledger sequence number at game start, computed by the Soroban host.

use soroban_sdk::Env;
use vstd::prelude::*;

verus! {

#[verifier::external_type_specification]
#[verifier::external_body]
pub struct ExEnv(Env);

/// The SHA-256 digest of a byte string.
pub uninterp spec fn sha256_digest(data: Seq<u8>) -> Seq<u8>;

/// Calls `soroban_sdk::crypto::Crypto::sha256` on `data` (copied into a
/// host `Bytes` value with `Bytes::from_slice`) and returns the 32 digest
/// bytes (`Hash::to_array`).
///
/// Claimed: the result is the SHA-256 digest of `data`, a function of
/// `data` alone; the environment only hosts the computation. Not claimed:
/// that the call returns, since the host aborts the whole invocation when
/// its resource budget runs out, which depends on the invocation and not on
/// the arguments.
#[verifier::external_body]
fn sha256(env: &Env, data: &[u8]) -> (digest: [u8; 32])
    ensures
        digest@ == sha256_digest(data@),
{
    env.crypto().sha256(&soroban_sdk::Bytes::from_slice(env, data)).to_array()
}

/// Big-endian encoding of a `u32`, most significant byte first.
pub open spec fn be_bytes(x: u32) -> Seq<u8> {
    seq![
        (x / 0x100_0000) as u8,
        ((x / 0x1_0000) % 0x100) as u8,
        ((x / 0x100) % 0x100) as u8,
        (x % 0x100) as u8,
    ]
}

/// The big-endian bytes of `x` (what `u32::to_be_bytes` gives).
pub fn u32_be_bytes(x: u32) -> (b: [u8; 4])
    ensures
        b@ == be_bytes(x),
        b[0] * 0x100_0000 + b[1] * 0x1_0000 + b[2] * 0x100 + b[3] == x,
{
    proof {
        lemma_be_bytes_decodes(x);
    }
    let b = [
        (x / 0x100_0000) as u8,
        ((x / 0x1_0000) % 0x100) as u8,
        ((x / 0x100) % 0x100) as u8,
        (x % 0x100) as u8,
    ];
    assert(b@ =~= be_bytes(x));
    b
}

/// The contract-side random contribution for a game started at ledger
/// `ledger_sequence`: the SHA-256 digest of its big-endian bytes.
pub fn contract_random(env: &Env, ledger_sequence: u32) -> (r: [u8; 32])
    ensures
        r@ == sha256_digest(be_bytes(ledger_sequence)),
{
    let bytes = u32_be_bytes(ledger_sequence);
    sha256(env, &bytes)
}

/// The big-endian bytes decode back to the number: four bytes, most
/// significant first, whose base-256 value is `x`. So distinct sequence
/// numbers give distinct byte strings.
pub proof fn lemma_be_bytes_decodes(x: u32)
    ensures
        be_bytes(x).len() == 4,
        be_bytes(x)[0] * 0x100_0000 + be_bytes(x)[1] * 0x1_0000 + be_bytes(x)[2] * 0x100
            + be_bytes(x)[3] == x,
{
}

/// Distinct sequence numbers have distinct big-endian encodings.
pub proof fn lemma_be_bytes_injective(x: u32, y: u32)
    requires
        be_bytes(x) == be_bytes(y),
    ensures
        x == y,
{
    lemma_be_bytes_decodes(x);
    lemma_be_bytes_decodes(y);
}

} // verus!
