//! The 64-bit mixing function that spreads partition ids over the shards of
//! the region state table.

use vstd::prelude::*;

verus! {

/// First multiplier of the splitmix64 finaliser.
pub const MIX_MUL_A: u64 = 0xbf58476d1ce4e5b9;

/// Second multiplier of the splitmix64 finaliser.
pub const MIX_MUL_B: u64 = 0x94d049bb133111eb;

/// Inverse of [`MIX_MUL_B`] modulo 2^64.
pub const UNMIX_MUL_B: u64 = 0x319642b2d24d8ec3;

/// Inverse of [`MIX_MUL_A`] modulo 2^64.
pub const UNMIX_MUL_A: u64 = 0x96de1b173f119089;

/// Product of two 64-bit words, reduced modulo 2^64.
pub open spec fn mul_mod64(x: u64, y: u64) -> u64 {
    ((x as int * y as int) % 0x1_0000_0000_0000_0000) as u64
}

/// The splitmix64 finaliser as a mathematical function.
pub open spec fn hash_u64_spec(i: u64) -> u64 {
    let a = mul_mod64(i ^ (i >> 30), MIX_MUL_A);
    let b = mul_mod64(a ^ (a >> 27), MIX_MUL_B);
    b ^ (b >> 31)
}

/// The inverse of the splitmix64 finaliser as a mathematical function.
pub open spec fn unhash_u64_spec(i: u64) -> u64 {
    let a = mul_mod64(i ^ (i >> 31) ^ (i >> 62), UNMIX_MUL_B);
    let b = mul_mod64(a ^ (a >> 27) ^ (a >> 54), UNMIX_MUL_A);
    b ^ (b >> 30) ^ (b >> 60)
}

/// Mixes the bits of `i` with the splitmix64 finaliser.
pub fn hash_u64(i: u64) -> (r: u64)
    ensures
        r == hash_u64_spec(i),
{
    let a: u64 = (i ^ (i >> 30)).wrapping_mul(MIX_MUL_A);
    let b: u64 = (a ^ (a >> 27)).wrapping_mul(MIX_MUL_B);
    b ^ (b >> 31)
}

/// Undoes [`hash_u64`].
pub fn unhash_u64(i: u64) -> (r: u64)
    ensures
        r == unhash_u64_spec(i),
{
    let a: u64 = (i ^ (i >> 31) ^ (i >> 62)).wrapping_mul(UNMIX_MUL_B);
    let b: u64 = (a ^ (a >> 27) ^ (a >> 54)).wrapping_mul(UNMIX_MUL_A);
    b ^ (b >> 30) ^ (b >> 60)
}


/// Multiplying by a finaliser constant and then by its inverse gives the word
/// back.
proof fn lemma_mul_inverse(x: u64)
    ensures
        mul_mod64(mul_mod64(x, MIX_MUL_A), UNMIX_MUL_A) == x,
        mul_mod64(mul_mod64(x, MIX_MUL_B), UNMIX_MUL_B) == x,
{
    let a = mul_mod64(x, MIX_MUL_A);
    assert(a == (x * 0xbf58476d1ce4e5b9u64) % 0x1_0000_0000_0000_0000);
    assert(a == (x * 0xbf58476d1ce4e5b9u64) % 0x1_0000_0000_0000_0000 ==> (a
        * 0x96de1b173f119089u64) % 0x1_0000_0000_0000_0000 == x) by (bit_vector);
    let b = mul_mod64(x, MIX_MUL_B);
    assert(b == (x * 0x94d049bb133111ebu64) % 0x1_0000_0000_0000_0000);
    assert(b == (x * 0x94d049bb133111ebu64) % 0x1_0000_0000_0000_0000 ==> (b
        * 0x319642b2d24d8ec3u64) % 0x1_0000_0000_0000_0000 == x) by (bit_vector);
}

/// Each xor-shift of the finaliser is undone by its counterpart in the
/// inverse.
proof fn lemma_xorshift_inverse(x: u64)
    ensures
        ({
            let y = x ^ (x >> 30);
            y ^ (y >> 30) ^ (y >> 60)
        }) == x,
        ({
            let y = x ^ (x >> 27);
            y ^ (y >> 27) ^ (y >> 54)
        }) == x,
        ({
            let y = x ^ (x >> 31);
            y ^ (y >> 31) ^ (y >> 62)
        }) == x,
{
    assert(({
        let y = x ^ (x >> 30);
        y ^ (y >> 30) ^ (y >> 60)
    }) == x) by (bit_vector);
    assert(({
        let y = x ^ (x >> 27);
        y ^ (y >> 27) ^ (y >> 54)
    }) == x) by (bit_vector);
    assert(({
        let y = x ^ (x >> 31);
        y ^ (y >> 31) ^ (y >> 62)
    }) == x) by (bit_vector);
}

/// The mixing function loses nothing: `unhash_u64` recovers every input of
/// `hash_u64`.
pub proof fn lemma_unhash_inverts_hash(i: u64)
    ensures
        unhash_u64_spec(hash_u64_spec(i)) == i,
{
    let s0 = i ^ (i >> 30);
    let a = mul_mod64(s0, MIX_MUL_A);
    let s1 = a ^ (a >> 27);
    let b = mul_mod64(s1, MIX_MUL_B);
    let h = b ^ (b >> 31);
    lemma_xorshift_inverse(b);
    assert(h ^ (h >> 31) ^ (h >> 62) == b);
    lemma_mul_inverse(s1);
    lemma_xorshift_inverse(a);
    lemma_mul_inverse(s0);
    lemma_xorshift_inverse(i);
}

/// Multiplying by the inverse of a finaliser constant and then by the
/// constant gives the word back.
proof fn lemma_mul_inverse_back(x: u64)
    ensures
        mul_mod64(mul_mod64(x, UNMIX_MUL_A), MIX_MUL_A) == x,
        mul_mod64(mul_mod64(x, UNMIX_MUL_B), MIX_MUL_B) == x,
{
    let a = mul_mod64(x, UNMIX_MUL_A);
    assert(a == (x * 0x96de1b173f119089u64) % 0x1_0000_0000_0000_0000);
    assert(a == (x * 0x96de1b173f119089u64) % 0x1_0000_0000_0000_0000 ==> (a
        * 0xbf58476d1ce4e5b9u64) % 0x1_0000_0000_0000_0000 == x) by (bit_vector);
    let b = mul_mod64(x, UNMIX_MUL_B);
    assert(b == (x * 0x319642b2d24d8ec3u64) % 0x1_0000_0000_0000_0000);
    assert(b == (x * 0x319642b2d24d8ec3u64) % 0x1_0000_0000_0000_0000 ==> (b
        * 0x94d049bb133111ebu64) % 0x1_0000_0000_0000_0000 == x) by (bit_vector);
}

/// Each xor-shift of the inverse is undone by its counterpart in the
/// finaliser.
proof fn lemma_xorshift_inverse_back(x: u64)
    ensures
        ({
            let y = x ^ (x >> 30) ^ (x >> 60);
            y ^ (y >> 30)
        }) == x,
        ({
            let y = x ^ (x >> 27) ^ (x >> 54);
            y ^ (y >> 27)
        }) == x,
        ({
            let y = x ^ (x >> 31) ^ (x >> 62);
            y ^ (y >> 31)
        }) == x,
{
    assert(({
        let y = x ^ (x >> 30) ^ (x >> 60);
        y ^ (y >> 30)
    }) == x) by (bit_vector);
    assert(({
        let y = x ^ (x >> 27) ^ (x >> 54);
        y ^ (y >> 27)
    }) == x) by (bit_vector);
    assert(({
        let y = x ^ (x >> 31) ^ (x >> 62);
        y ^ (y >> 31)
    }) == x) by (bit_vector);
}

/// Every word is the mix of some input: `hash_u64` recovers every input of
/// `unhash_u64`.
pub proof fn lemma_hash_inverts_unhash(i: u64)
    ensures
        hash_u64_spec(unhash_u64_spec(i)) == i,
{
    let s0 = i ^ (i >> 31) ^ (i >> 62);
    let a = mul_mod64(s0, UNMIX_MUL_B);
    let s1 = a ^ (a >> 27) ^ (a >> 54);
    let b = mul_mod64(s1, UNMIX_MUL_A);
    let u = b ^ (b >> 30) ^ (b >> 60);
    lemma_xorshift_inverse_back(b);
    assert(u ^ (u >> 30) == b);
    lemma_mul_inverse_back(s1);
    lemma_xorshift_inverse_back(a);
    lemma_mul_inverse_back(s0);
    lemma_xorshift_inverse_back(i);
}

/// Two different inputs never mix to the same word.
pub proof fn lemma_hash_injective(i: u64, j: u64)
    requires
        hash_u64_spec(i) == hash_u64_spec(j),
    ensures
        i == j,
{
    lemma_unhash_inverts_hash(i);
    lemma_unhash_inverts_hash(j);
}

} // verus!
