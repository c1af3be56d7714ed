//! Short keys that the registry derives when the caller supplies none.
//!
//! A key is the seven least significant base-62 digits of a seed, least
//! significant digit first, each digit written as a symbol of the alphabet
//! `a`–`z`, `A`–`Z`, `0`–`9`. The seed is the wrapping sum of the ledger's
//! sequence number and its timestamp, so the scheme is repeatable and not
//! secret: two calls in the same ledger derive the same key.

use vstd::arithmetic::div_mod::{lemma_breakdown, lemma_div_denominator, lemma_mod_mod};
use vstd::arithmetic::power::{lemma_pow0, lemma_pow_positive, pow};
use vstd::prelude::*;

verus! {

/// Number of symbols in a derived key.
pub const KEY_LEN: usize = 7;

/// Number of symbols in the alphabet.
pub const RADIX: u64 = 62;

/// The symbol that stands for a digit: `a`–`z` for 0–25, `A`–`Z` for 26–51,
/// `0`–`9` for 52–61.
pub open spec fn symbol(digit: int) -> u8
    recommends
        0 <= digit < 62,
{
    if digit < 26 {
        (97 + digit) as u8
    } else if digit < 52 {
        (65 + (digit - 26)) as u8
    } else {
        (48 + (digit - 52)) as u8
    }
}

/// Whether a byte is a symbol of the alphabet.
pub open spec fn is_symbol(byte: u8) -> bool {
    ||| 97 <= byte <= 122
    ||| 65 <= byte <= 90
    ||| 48 <= byte <= 57
}

/// The seed of a key: the sum of sequence number and timestamp, modulo 2^64.
pub open spec fn seed(sequence: u32, timestamp: u64) -> u64 {
    ((sequence + timestamp) % 0x1_0000_0000_0000_0000) as u64
}

/// The base-62 digit of `seed` at `position`, position 0 being the least
/// significant.
pub open spec fn digit(seed: u64, position: nat) -> int {
    (seed as int / pow(62, position)) % 62
}

/// The key derived from a seed.
pub open spec fn key_of_seed(seed: u64) -> Seq<u8> {
    Seq::new(7, |i: int| symbol(digit(seed, i as nat)))
}

/// The key derived in a ledger with the given sequence number and timestamp.
pub open spec fn derived_key(sequence: u32, timestamp: u64) -> Seq<u8> {
    key_of_seed(seed(sequence, timestamp))
}

/// A derived key has seven symbols, all of the alphabet.
pub proof fn lemma_derived_key_shape(sequence: u32, timestamp: u64)
    ensures
        derived_key(sequence, timestamp).len() == 7,
        forall|i: int| 0 <= i < 7 ==> is_symbol(#[trigger] derived_key(sequence, timestamp)[i]),
{
    let s = seed(sequence, timestamp);
    assert forall|i: int| 0 <= i < 7 implies is_symbol(
        #[trigger] derived_key(sequence, timestamp)[i],
    ) by {
        lemma_pow_positive(62, i as nat);
        let d = digit(s, i as nat);
        assert(0 <= d < 62);
    }
}

/// Different digits have different symbols.
pub proof fn lemma_symbol_injective(first: int, second: int)
    requires
        0 <= first < 62,
        0 <= second < 62,
        symbol(first) == symbol(second),
    ensures
        first == second,
{
}

/// The lowest `count + 1` digits of a seed are its lowest `count` digits and,
/// above them, the digit at position `count`.
proof fn lemma_residue_step(seed: u64, count: nat)
    ensures
        pow(62, count) > 0,
        pow(62, count + 1) == pow(62, count) * 62,
        seed as int % pow(62, count + 1) == pow(62, count) * digit(seed, count) + seed as int
            % pow(62, count),
{
    let p = pow(62, count);
    lemma_pow_positive(62, count);
    assert(pow(62, count + 1) == p * 62) by {
        reveal(pow);
        assert(62 * p == p * 62);
    }
    lemma_breakdown(seed as int, p, 62);
}

/// Seeds with the same lowest `count` digits leave the same remainder
/// modulo 62^`count`.
proof fn lemma_equal_digits_equal_residue(first: u64, second: u64, count: nat)
    requires
        forall|i: nat| i < count ==> digit(first, i) == digit(second, i),
    ensures
        first as int % pow(62, count) == second as int % pow(62, count),
    decreases count,
{
    if count == 0 {
        lemma_pow0(62);
    } else {
        let below = (count - 1) as nat;
        lemma_equal_digits_equal_residue(first, second, below);
        lemma_residue_step(first, below);
        lemma_residue_step(second, below);
        assert(digit(first, below) == digit(second, below));
    }
}

/// Seeds that leave the same remainder modulo 62^`count` have the same lowest
/// `count` digits.
proof fn lemma_equal_residue_equal_digits(first: u64, second: u64, count: nat)
    requires
        first as int % pow(62, count) == second as int % pow(62, count),
    ensures
        forall|i: nat| i < count ==> digit(first, i) == digit(second, i),
    decreases count,
{
    if count > 0 {
        let below = (count - 1) as nat;
        let p = pow(62, below);
        lemma_residue_step(first, below);
        lemma_residue_step(second, below);
        lemma_mod_mod(first as int, p, 62);
        lemma_mod_mod(second as int, p, 62);
        assert(first as int % p == second as int % p);
        let d1 = digit(first, below);
        let d2 = digit(second, below);
        assert(p * d1 == p * d2);
        assert(d1 == d2) by (nonlinear_arith)
            requires
                p > 0,
                p * d1 == p * d2,
        ;
        lemma_equal_residue_equal_digits(first, second, below);
    }
}

/// Two seeds derive the same key if and only if they leave the same
/// remainder modulo 62^7. So two ledgers derive different keys unless their
/// seeds differ by a multiple of 62^7.
pub proof fn law_same_key_same_residue(first: u64, second: u64)
    ensures
        key_of_seed(first) == key_of_seed(second) <==> first as int % pow(62, 7) == second as int
            % pow(62, 7),
{
    if key_of_seed(first) == key_of_seed(second) {
        assert forall|i: nat| i < 7 implies digit(first, i) == digit(second, i) by {
            lemma_pow_positive(62, i);
            assert(key_of_seed(first)[i as int] == symbol(digit(first, i)));
            assert(key_of_seed(second)[i as int] == symbol(digit(second, i)));
            lemma_symbol_injective(digit(first, i), digit(second, i));
        }
        lemma_equal_digits_equal_residue(first, second, 7);
    }
    if first as int % pow(62, 7) == second as int % pow(62, 7) {
        lemma_equal_residue_equal_digits(first, second, 7);
        assert(key_of_seed(first) =~= key_of_seed(second));
    }
}

/// The symbol for a digit.
pub fn symbol_for(digit: u64) -> (byte: u8)
    requires
        digit < 62,
    ensures
        byte == symbol(digit as int),
        is_symbol(byte),
{
    if digit < 26 {
        97u8 + (digit as u8)
    } else if digit < 52 {
        65u8 + ((digit - 26) as u8)
    } else {
        48u8 + ((digit - 52) as u8)
    }
}

/// Derives the key for a ledger's sequence number and timestamp.
pub fn generate_random_key(sequence: u32, timestamp: u64) -> (key: Vec<u8>)
    ensures
        key@ == derived_key(sequence, timestamp),
        key@.len() == 7,
        forall|i: int| 0 <= i < 7 ==> is_symbol(#[trigger] key@[i]),
{
    let combined: u64 = (sequence as u64).wrapping_add(timestamp);
    assert(combined == seed(sequence, timestamp));
    let mut key: Vec<u8> = Vec::new();
    let mut rest: u64 = combined;
    let mut i: usize = 0;
    proof {
        lemma_pow0(62);
    }
    while i < KEY_LEN
        invariant
            0 <= i <= 7,
            key@.len() == i,
            pow(62, i as nat) > 0,
            rest as int == combined as int / pow(62, i as nat),
            forall|j: int| 0 <= j < i ==> key@[j] == symbol(digit(combined, j as nat)),
        decreases 7 - i,
    {
        let d: u64 = rest % RADIX;
        key.push(symbol_for(d));
        proof {
            let p = pow(62, i as nat);
            lemma_div_denominator(combined as int, p, 62);
            assert(pow(62, (i + 1) as nat) == 62 * p) by {
                reveal(pow);
            }
            assert(p * 62 == 62 * p);
            lemma_pow_positive(62, (i + 1) as nat);
        }
        rest = rest / RADIX;
        i += 1;
    }
    proof {
        assert(key@ =~= derived_key(sequence, timestamp));
        lemma_derived_key_shape(sequence, timestamp);
    }
    key
}

} // verus!
