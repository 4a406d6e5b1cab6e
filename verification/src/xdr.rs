//! XDR encodings of the contract values that challenges and keys hash:
//! each value is its `ScVal` form, a 4-byte big-endian type tag followed by
//! the value's body.
use vstd::prelude::*;

use crate::address::{Address, AddressKind, AddressView};
use crate::bytes::append_bytes;

verus! {

/// A 32-bit unsigned integer, big-endian.
pub open spec fn be32(v: u32) -> Seq<u8> {
    seq![(v >> 24u32) as u8, (v >> 16u32) as u8, (v >> 8u32) as u8, v as u8]
}

/// A 64-bit unsigned integer, big-endian.
pub open spec fn be64(v: u64) -> Seq<u8> {
    seq![
        (v >> 56u64) as u8,
        (v >> 48u64) as u8,
        (v >> 40u64) as u8,
        (v >> 32u64) as u8,
        (v >> 24u64) as u8,
        (v >> 16u64) as u8,
        (v >> 8u64) as u8,
        v as u8,
    ]
}

/// Zero bytes that pad a body of `n` bytes to a multiple of four.
pub open spec fn xdr_padding(n: nat) -> Seq<u8> {
    Seq::new(((4 - n % 4) % 4) as nat, |i: int| 0u8)
}

/// An opaque byte body: its length, the bytes, and padding.
pub open spec fn xdr_opaque(b: Seq<u8>) -> Seq<u8> {
    be32(b.len() as u32) + b + xdr_padding(b.len())
}

/// `ScVal::U32`.
pub open spec fn xdr_u32(v: u32) -> Seq<u8> {
    be32(3) + be32(v)
}

/// `ScVal::U64`.
pub open spec fn xdr_u64(v: u64) -> Seq<u8> {
    be32(5) + be64(v)
}

/// `ScVal::I128`: the high and low halves, each big-endian.
pub open spec fn xdr_i128(v: i128) -> Seq<u8> {
    be32(10) + be64((v >> 64u32) as u64) + be64(v as u64)
}

/// `ScVal::Bytes`.
pub open spec fn xdr_bytes(b: Seq<u8>) -> Seq<u8> {
    be32(13) + xdr_opaque(b)
}

/// `ScVal::String`.
pub open spec fn xdr_string(s: Seq<u8>) -> Seq<u8> {
    be32(14) + xdr_opaque(s)
}

/// `ScVal::Symbol`.
pub open spec fn xdr_symbol(s: Seq<u8>) -> Seq<u8> {
    be32(15) + xdr_opaque(s)
}

/// `ScVal::Address`: an account by its Ed25519 key, or a contract by its hash.
pub open spec fn xdr_address(a: AddressView) -> Seq<u8> {
    match a.kind {
        AddressKind::Account => be32(18) + be32(0) + be32(0) + a.key,
        AddressKind::Contract => be32(18) + be32(1) + a.key,
    }
}

/// Distinct `u32` values have distinct big-endian encodings.
pub proof fn lemma_be32_injective(a: u32, b: u32)
    requires
        be32(a) == be32(b),
    ensures
        a == b,
{
    assert(be32(a)[0] == be32(b)[0]);
    assert(be32(a)[1] == be32(b)[1]);
    assert(be32(a)[2] == be32(b)[2]);
    assert(be32(a)[3] == be32(b)[3]);
    assert(a == b) by (bit_vector)
        requires
            (a >> 24u32) as u8 == (b >> 24u32) as u8,
            (a >> 16u32) as u8 == (b >> 16u32) as u8,
            (a >> 8u32) as u8 == (b >> 8u32) as u8,
            a as u8 == b as u8,
    ;
}

/// Distinct `u64` values have distinct big-endian encodings.
pub proof fn lemma_be64_injective(a: u64, b: u64)
    requires
        be64(a) == be64(b),
    ensures
        a == b,
{
    assert(be64(a)[0] == be64(b)[0]);
    assert(be64(a)[1] == be64(b)[1]);
    assert(be64(a)[2] == be64(b)[2]);
    assert(be64(a)[3] == be64(b)[3]);
    assert(be64(a)[4] == be64(b)[4]);
    assert(be64(a)[5] == be64(b)[5]);
    assert(be64(a)[6] == be64(b)[6]);
    assert(be64(a)[7] == be64(b)[7]);
    assert(a == b) by (bit_vector)
        requires
            (a >> 56u64) as u8 == (b >> 56u64) as u8,
            (a >> 48u64) as u8 == (b >> 48u64) as u8,
            (a >> 40u64) as u8 == (b >> 40u64) as u8,
            (a >> 32u64) as u8 == (b >> 32u64) as u8,
            (a >> 24u64) as u8 == (b >> 24u64) as u8,
            (a >> 16u64) as u8 == (b >> 16u64) as u8,
            (a >> 8u64) as u8 == (b >> 8u64) as u8,
            a as u8 == b as u8,
    ;
}

/// Appends a big-endian `u32`.
pub fn push_be32(out: &mut Vec<u8>, v: u32)
    ensures
        final(out)@ == old(out)@ + be32(v),
{
    out.push((v >> 24u32) as u8);
    out.push((v >> 16u32) as u8);
    out.push((v >> 8u32) as u8);
    out.push(v as u8);
    assert(out@ =~= old(out)@ + be32(v));
}

/// Appends a big-endian `u64`.
pub fn push_be64(out: &mut Vec<u8>, v: u64)
    ensures
        final(out)@ == old(out)@ + be64(v),
{
    out.push((v >> 56u64) as u8);
    out.push((v >> 48u64) as u8);
    out.push((v >> 40u64) as u8);
    out.push((v >> 32u64) as u8);
    out.push((v >> 24u64) as u8);
    out.push((v >> 16u64) as u8);
    out.push((v >> 8u64) as u8);
    out.push(v as u8);
    assert(out@ =~= old(out)@ + be64(v));
}

/// Appends an opaque byte body.
pub fn push_opaque(out: &mut Vec<u8>, b: &Vec<u8>)
    requires
        b@.len() <= u32::MAX,
    ensures
        final(out)@ == old(out)@ + xdr_opaque(b@),
{
    push_be32(out, b.len() as u32);
    append_bytes(out, b);
    let pad: usize = (4 - b.len() % 4) % 4;
    let ghost mid = out@;
    let mut i: usize = 0;
    while i < pad
        invariant
            i <= pad,
            pad == (4 - b@.len() % 4) % 4,
            out@ == mid + Seq::new(i as nat, |k: int| 0u8),
        decreases pad - i,
    {
        out.push(0u8);
        i = i + 1;
        assert(out@ =~= mid + Seq::new(i as nat, |k: int| 0u8));
    }
    assert(out@ =~= old(out)@ + xdr_opaque(b@));
}

/// Appends `ScVal::U32`.
pub fn push_xdr_u32(out: &mut Vec<u8>, v: u32)
    ensures
        final(out)@ == old(out)@ + xdr_u32(v),
{
    push_be32(out, 3);
    push_be32(out, v);
    assert(out@ =~= old(out)@ + xdr_u32(v));
}

/// Appends `ScVal::U64`.
pub fn push_xdr_u64(out: &mut Vec<u8>, v: u64)
    ensures
        final(out)@ == old(out)@ + xdr_u64(v),
{
    push_be32(out, 5);
    push_be64(out, v);
    assert(out@ =~= old(out)@ + xdr_u64(v));
}

/// Appends `ScVal::I128`.
pub fn push_xdr_i128(out: &mut Vec<u8>, v: i128)
    ensures
        final(out)@ == old(out)@ + xdr_i128(v),
{
    push_be32(out, 10);
    push_be64(out, (v >> 64u32) as u64);
    push_be64(out, v as u64);
    assert(out@ =~= old(out)@ + xdr_i128(v));
}

/// Appends `ScVal::Bytes`.
pub fn push_xdr_bytes(out: &mut Vec<u8>, b: &Vec<u8>)
    requires
        b@.len() <= u32::MAX,
    ensures
        final(out)@ == old(out)@ + xdr_bytes(b@),
{
    push_be32(out, 13);
    push_opaque(out, b);
    assert(out@ =~= old(out)@ + xdr_bytes(b@));
}

/// Appends `ScVal::String`.
pub fn push_xdr_string(out: &mut Vec<u8>, s: &Vec<u8>)
    requires
        s@.len() <= u32::MAX,
    ensures
        final(out)@ == old(out)@ + xdr_string(s@),
{
    push_be32(out, 14);
    push_opaque(out, s);
    assert(out@ =~= old(out)@ + xdr_string(s@));
}

/// Appends `ScVal::Symbol`.
pub fn push_xdr_symbol(out: &mut Vec<u8>, s: &Vec<u8>)
    requires
        s@.len() <= u32::MAX,
    ensures
        final(out)@ == old(out)@ + xdr_symbol(s@),
{
    push_be32(out, 15);
    push_opaque(out, s);
    assert(out@ =~= old(out)@ + xdr_symbol(s@));
}

/// Appends `ScVal::Address`.
pub fn push_xdr_address(out: &mut Vec<u8>, a: &Address)
    ensures
        final(out)@ == old(out)@ + xdr_address(a@),
{
    push_be32(out, 18);
    match a.kind {
        AddressKind::Account => {
            push_be32(out, 0);
            push_be32(out, 0);
        },
        AddressKind::Contract => {
            push_be32(out, 1);
        },
    }
    append_bytes(out, &a.key);
    assert(out@ =~= old(out)@ + xdr_address(a@));
}

/// The XDR encoding of an address.
pub fn address_to_xdr(a: &Address) -> (r: Vec<u8>)
    ensures
        r@ == xdr_address(a@),
{
    let mut out: Vec<u8> = Vec::new();
    push_xdr_address(&mut out, a);
    assert(out@ =~= xdr_address(a@));
    out
}

} // verus!
