use vstd::prelude::*;

use crate::text::{is_white_space, str_trim, trim_chars};

verus! {

/// FNV-1a 64-bit offset basis.
pub const FNV_OFFSET: u64 = 0xcbf29ce484222325;

/// FNV-1a 64-bit prime.
pub const FNV_PRIME: u64 = 0x100000001b3;

/// One FNV-1a round: xor the byte in, then multiply modulo 2^64.
pub open spec fn fnv_step(h: u64, b: u8) -> u64 {
    vstd::wrapping::u64_specs::wrapping_mul(h ^ (b as u64), FNV_PRIME)
}

/// FNV-1a hash of a byte sequence.
pub open spec fn fnv_bytes(bytes: Seq<u8>) -> u64
    decreases bytes.len(),
{
    if bytes.len() == 0 {
        FNV_OFFSET
    } else {
        fnv_step(fnv_bytes(bytes.drop_last()), bytes.last())
    }
}

/// FNV-1a hash of the UTF-8 encoding of a string.
pub open spec fn fnv_str(s: Seq<char>) -> u64 {
    fnv_bytes(vstd::utf8::encode_utf8(s))
}

/// True when every character of `s` is white space, so that trimming
/// leaves nothing.
pub open spec fn is_blank(s: Seq<char>) -> bool {
    trim_chars(s).len() == 0
}

/// The hash that `runtime_hash_64` gives: 0 for a blank string, else FNV-1a.
pub open spec fn runtime_hash(s: Seq<char>) -> u64 {
    if is_blank(s) { 0 } else { fnv_str(s) }
}

/// Stable FNV-1a 64-bit hash of the UTF-8 bytes of `s`.
pub fn fnv1a_hash_64(s: &str) -> (h: u64)
    ensures
        h == fnv_str(s@),
{
    let bytes = s.as_bytes();
    let mut hash: u64 = FNV_OFFSET;
    let mut i: usize = 0;
    while i < bytes.len()
        invariant
            0 <= i <= bytes@.len(),
            bytes@ == vstd::utf8::encode_utf8(s@),
            hash == fnv_bytes(bytes@.take(i as int)),
        decreases bytes@.len() - i,
    {
        assert(bytes@.take(i + 1).drop_last() =~= bytes@.take(i as int));
        hash = (hash ^ (bytes[i] as u64)).wrapping_mul(FNV_PRIME);
        i += 1;
    }
    assert(bytes@.take(i as int) =~= bytes@);
    hash
}

/// Runtime FNV-1a hash; a blank string (empty or white space only) is
/// refused with the reserved hash 0.
pub fn runtime_hash_64(s: &str) -> (h: u64)
    ensures
        h == runtime_hash(s@),
{
    if str_trim(s).is_empty() {
        return 0;
    }
    fnv1a_hash_64(s)
}


/// FNV-1a rounds over `bytes`, in order, starting from the hash `h`.
pub open spec fn fnv_from(h: u64, bytes: Seq<u8>) -> u64
    decreases bytes.len(),
{
    if bytes.len() == 0 {
        h
    } else {
        fnv_step(fnv_from(h, bytes.drop_last()), bytes.last())
    }
}

/// Hashing `a` then `b` is hashing `a` and continuing with the rounds of
/// `b`.
pub proof fn lemma_fnv_concat(a: Seq<u8>, b: Seq<u8>)
    ensures
        fnv_bytes(a + b) == fnv_from(fnv_bytes(a), b),
    decreases b.len(),
{
    if b.len() == 0 {
        assert(a + b =~= a);
    } else {
        lemma_fnv_concat(a, b.drop_last());
        assert((a + b).drop_last() =~= a + b.drop_last());
        assert((a + b).last() == b.last());
    }
}

/// The UTF-8 encoding of a string with one more character is that of the
/// string followed by that of the character.
pub proof fn lemma_encode_push(s: Seq<char>, c: char)
    ensures
        vstd::utf8::encode_utf8(s.push(c)) == vstd::utf8::encode_utf8(s) + vstd::utf8::encode_scalar(c as u32),
    decreases s.len(),
{
    if s.len() == 0 {
        assert(s.push(c).drop_first() =~= Seq::<char>::empty());
        assert(vstd::utf8::encode_utf8(Seq::<char>::empty()) =~= Seq::<u8>::empty());
        assert(vstd::utf8::encode_scalar(c as u32) + Seq::<u8>::empty() =~= vstd::utf8::encode_scalar(c as u32));
        assert(s =~= Seq::<char>::empty());
        assert(Seq::<u8>::empty() + vstd::utf8::encode_scalar(c as u32) =~= vstd::utf8::encode_scalar(c as u32));
    } else {
        lemma_encode_push(s.drop_first(), c);
        assert(s.push(c).drop_first() =~= s.drop_first().push(c));
        assert(s.push(c)[0] == s[0]);
        let e0 = vstd::utf8::encode_scalar(s[0] as u32);
        let er = vstd::utf8::encode_utf8(s.drop_first());
        let ec = vstd::utf8::encode_scalar(c as u32);
        assert(e0 + (er + ec) =~= (e0 + er) + ec);
    }
}

/// The FNV-1a hash of a string with one more character is the hash of the
/// string continued with one round per UTF-8 byte of the character; for
/// an ASCII character that is the single round of its code.
pub proof fn law_fnv_push(s: Seq<char>, c: char)
    ensures
        fnv_str(s.push(c)) == fnv_from(fnv_str(s), vstd::utf8::encode_scalar(c as u32)),
        (c as u32) < 0x80 ==> fnv_str(s.push(c)) == fnv_step(fnv_str(s), (c as u32) as u8),
{
    lemma_encode_push(s, c);
    lemma_fnv_concat(vstd::utf8::encode_utf8(s), vstd::utf8::encode_scalar(c as u32));
    if (c as u32) < 0x80 {
        let u = c as u32;
        assert((u & 0x7F) as u8 == u as u8) by (bit_vector)
            requires
                u < 0x80,
        ;
        let e = vstd::utf8::encode_scalar(u);
        assert(e =~= seq![u as u8]);
        assert(e.drop_last() =~= Seq::<u8>::empty());
        assert(e.last() == u as u8);
        let h = fnv_str(s);
        assert(fnv_from(h, e.drop_last()) == h);
        assert(fnv_from(h, e) == fnv_step(fnv_from(h, e.drop_last()), e.last()));
    }
}

} // verus!
