//! The wire format of the input that opens an advance.
//!
//! The machine's resident software expects one call: a four-byte selector,
//! seven zero-filled scalar fields of 32 bytes each, and the payload as a
//! trailing argument of variable length (the 32-byte offset of the tail, the
//! 32-byte length, then the bytes, padded with zeros to a multiple of 32).

use vstd::prelude::*;

verus! {

/// Bytes that the encoding adds to a payload, at most.
pub const ENCODING_OVERHEAD: usize = 323;

/// Bytes in front of the payload's own segment: the selector, the seven
/// scalar fields and the offset of the tail.
pub const HEADER_LEN: usize = 260;

/// The Keccak-256 digest of a text's UTF-8 bytes.
pub uninterp spec fn keccak256(text: Seq<char>) -> Seq<u8>;

/// The signature whose digest opens the call.
pub open spec fn evm_advance_signature() -> Seq<char> {
    "EvmAdvance(uint256,address,address,uint256,uint256,uint256,uint256,bytes)"@
}

/// Byte `k` of `n`, counted from the least significant.
pub open spec fn byte_of(n: u64, k: u64) -> u8 {
    ((n >> ((8 * k) as u64)) & 0xff) as u8
}

/// `n` as a 32-byte big-endian word.
pub open spec fn word(n: u64) -> Seq<u8> {
    Seq::new(32, |i: int| if i < 24 { 0u8 } else { byte_of(n, (31 - i) as u64) })
}

/// `count` zero bytes.
pub open spec fn zeros(count: nat) -> Seq<u8> {
    Seq::new(count, |i: int| 0u8)
}

/// Zero bytes that bring a segment of `len` bytes up to a multiple of 32.
pub open spec fn padding(len: nat) -> nat {
    ((32 - len % 32) % 32) as nat
}

/// The part of the call that is the same for every payload.
pub open spec fn call_header(digest: Seq<u8>) -> Seq<u8> {
    digest.subrange(0, 4) + zeros(224) + word(256)
}

/// The part of the call that carries the payload.
pub open spec fn call_tail(payload: Seq<u8>) -> Seq<u8> {
    word(payload.len() as u64) + payload + zeros(padding(payload.len()))
}

/// The whole call for a payload, given the digest of the signature.
pub open spec fn evm_advance_call(digest: Seq<u8>, payload: Seq<u8>) -> Seq<u8> {
    call_header(digest) + call_tail(payload)
}

/// The input that opens an advance with `payload`.
pub open spec fn evm_advance_input(payload: Seq<u8>) -> Seq<u8> {
    evm_advance_call(keccak256(evm_advance_signature()), payload)
}

/// Calls `alloy_primitives::keccak256` on the text's bytes and hands out the
/// 32 bytes of the digest. The digest depends on the text alone.
#[verifier::external_body]
fn keccak256_digest(text: &str) -> (digest: [u8; 32])
    ensures
        digest@ == keccak256(text@),
{
    alloy_primitives::keccak256(text).0
}

fn signature() -> (text: &'static str)
    ensures
        text@ == evm_advance_signature(),
{
    "EvmAdvance(uint256,address,address,uint256,uint256,uint256,uint256,bytes)"
}

fn push_zeros(out: &mut Vec<u8>, count: usize)
    requires
        old(out).len() + count <= usize::MAX,
    ensures
        final(out)@ == old(out)@ + zeros(count as nat),
{
    let mut i: usize = 0;
    while i < count
        invariant
            i <= count,
            old(out).len() + count <= usize::MAX,
            out@ =~= old(out)@ + zeros(i as nat),
        decreases count - i,
    {
        out.push(0u8);
        i += 1;
    }
}

fn push_word(out: &mut Vec<u8>, n: u64)
    requires
        old(out).len() + 32 <= usize::MAX,
    ensures
        final(out)@ == old(out)@ + word(n),
{
    push_zeros(out, 24);
    let mut i: usize = 24;
    while i < 32
        invariant
            24 <= i <= 32,
            old(out).len() + 32 <= usize::MAX,
            out@.len() == old(out)@.len() + i,
            out@ =~= old(out)@ + word(n).subrange(0, i as int),
        decreases 32 - i,
    {
        let k: u64 = (31 - i) as u64;
        let shift: u64 = 8 * k;
        let b: u8 = ((n >> shift) & 0xff) as u8;
        out.push(b);
        i += 1;
    }
}

fn push_all(out: &mut Vec<u8>, bytes: &Vec<u8>)
    requires
        old(out).len() + bytes.len() <= usize::MAX,
    ensures
        final(out)@ == old(out)@ + bytes@,
{
    let mut i: usize = 0;
    while i < bytes.len()
        invariant
            i <= bytes.len(),
            old(out).len() + bytes.len() <= usize::MAX,
            out@ =~= old(out)@ + bytes@.subrange(0, i as int),
        decreases bytes.len() - i,
    {
        out.push(bytes[i]);
        i += 1;
    }
    assert(bytes@.subrange(0, bytes.len() as int) =~= bytes@);
}

/// Lays out the call for `payload` behind the first four bytes of `digest`.
pub fn encode_with_selector(digest: &[u8; 32], payload: &Vec<u8>) -> (call: Vec<u8>)
    requires
        payload.len() + ENCODING_OVERHEAD <= usize::MAX,
    ensures
        call@ == evm_advance_call(digest@, payload@),
        call.len() == HEADER_LEN + 32 + payload.len() + padding(payload.len() as nat),
{
    let mut call: Vec<u8> = Vec::new();
    call.push(digest[0]);
    call.push(digest[1]);
    call.push(digest[2]);
    call.push(digest[3]);
    assert(call@ =~= digest@.subrange(0, 4));
    push_zeros(&mut call, 224);
    push_word(&mut call, 256);
    assert(call@ =~= call_header(digest@));
    push_word(&mut call, payload.len() as u64);
    push_all(&mut call, payload);
    let rest: usize = payload.len() % 32;
    let pad: usize = if rest == 0 { 0 } else { 32 - rest };
    push_zeros(&mut call, pad);
    assert(call@ =~= evm_advance_call(digest@, payload@));
    call
}

/// Encodes `payload` as the call that opens an advance. The same payload
/// always gives the same bytes, and the first 260 of them are the same for
/// every payload: only what follows them varies with it.
pub fn encode_evm_advance(payload: &Vec<u8>) -> (call: Vec<u8>)
    requires
        payload.len() + ENCODING_OVERHEAD <= usize::MAX,
    ensures
        call@ == evm_advance_input(payload@),
        call.len() == HEADER_LEN + 32 + payload.len() + padding(payload.len() as nat),
        call@.subrange(0, HEADER_LEN as int) == call_header(keccak256(evm_advance_signature())),
        call@.subrange(HEADER_LEN as int, call.len() as int) == call_tail(payload@),
{
    let digest = keccak256_digest(signature());
    let call = encode_with_selector(&digest, payload);
    proof {
        assert(call_header(digest@).len() == 260);
        assert(call@.subrange(0, 260) =~= call_header(digest@));
        assert(call@.subrange(260, call.len() as int) =~= call_tail(payload@));
    }
    call
}

/// Whether a payload of `len` bytes can be encoded on this machine.
pub fn encodable(len: usize) -> (r: bool)
    ensures
        r == (len + ENCODING_OVERHEAD <= usize::MAX),
{
    len <= usize::MAX - ENCODING_OVERHEAD
}

} // verus!
