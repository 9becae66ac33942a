//! The genotype encoder: turns raw per-sample genotype call characters into
//! ploidy/missingness bytes and fixed-bit-width probability pairs, for one
//! target alternate allele.
//!
//! A call digit is retained only when it names the reference allele (0) or
//! the target alternate allele; retained calls are mapped 0 and 1. A sample
//! with fewer than two retained calls is missing: its ploidy byte carries the
//! high bit and its probability pair is all zero.
use vstd::prelude::*;

verus! {

use crate::text::{is_digit_char, digit_val};

/// The retained allele calls of a raw genotype string, in order: digit
/// characters equal to 0 map to 0, those equal to `alt` map to 1, all other
/// characters are discarded.
pub open spec fn spec_retained(g: Seq<char>, alt: int) -> Seq<u32>
    decreases g.len(),
{
    if g.len() == 0 {
        Seq::empty()
    } else {
        let rest = spec_retained(g.drop_last(), alt);
        let c = g.last();
        if is_digit_char(c) {
            if digit_val(c) == 0 {
                rest.push(0u32)
            } else if digit_val(c) == alt {
                rest.push(1u32)
            } else {
                rest
            }
        } else {
            rest
        }
    }
}

/// A sample is missing when fewer than two calls were retained.
pub open spec fn spec_missing(g: Seq<char>, alt: int) -> bool {
    spec_retained(g, alt).len() < 2
}

/// Ploidy-2 byte, with the high missingness bit set for a missing sample.
pub open spec fn spec_ploidy_byte(g: Seq<char>, alt: int) -> u8 {
    if spec_missing(g, alt) {
        0x82
    } else {
        0x02
    }
}

/// The largest probability value at the given bit width.
pub open spec fn spec_proba_max(num_bits: u8) -> u32 {
    ((1u32 << num_bits) - 1) as u32
}

/// The probability pair of one sample: all zero when missing, otherwise
/// keyed by the sum of the first two retained calls.
pub open spec fn spec_proba_pair(g: Seq<char>, alt: int, num_bits: u8) -> (u32, u32) {
    if spec_missing(g, alt) {
        (0u32, 0u32)
    } else {
        let s = spec_retained(g, alt)[0] + spec_retained(g, alt)[1];
        if s == 0 {
            (spec_proba_max(num_bits), 0u32)
        } else if s == 1 {
            (0u32, spec_proba_max(num_bits))
        } else {
            (0u32, 0u32)
        }
    }
}

/// Maps the summed pair of allele calls to a probability pair: sum 0 is
/// homozygous reference, sum 1 heterozygous, anything else all zero.
pub fn genos_to_proba(genos: &[u32], num_bits: u8) -> (r: Vec<u32>)
    requires
        genos@.len() >= 2,
        num_bits < 32,
        genos@[0] + genos@[1] <= u32::MAX,
    ensures
        r@.len() == 2,
        ({
            let s = genos@[0] + genos@[1];
            r@ == if s == 0 {
                seq![spec_proba_max(num_bits), 0u32]
            } else if s == 1 {
                seq![0u32, spec_proba_max(num_bits)]
            } else {
                seq![0u32, 0u32]
            }
        }),
{
    proof {
        assert(1u32 << num_bits >= 1) by (bit_vector)
            requires
                num_bits < 32,
        ;
    }
    let sum = genos[0] + genos[1];
    let proba_1 = (1u32 << num_bits) - 1;
    let mut r: Vec<u32> = Vec::new();
    if sum == 0 {
        r.push(proba_1);
        r.push(0);
        proof {
            assert(r@ =~= seq![spec_proba_max(num_bits), 0u32]);
        }
    } else if sum == 1 {
        r.push(0);
        r.push(proba_1);
        proof {
            assert(r@ =~= seq![0u32, spec_proba_max(num_bits)]);
        }
    } else {
        r.push(0);
        r.push(0);
        proof {
            assert(r@ =~= seq![0u32, 0u32]);
        }
    }
    r
}

/// Encodes one raw genotype string for the target alternate allele as
/// (ploidy/missingness byte, left probability, right probability).
pub fn encode_genotype(g: &str, alt_allele_num: usize, num_bits: u8) -> (r: (u8, u32, u32))
    requires
        num_bits < 32,
    ensures
        r.0 == spec_ploidy_byte(g@, alt_allele_num as int),
        (r.1, r.2) == spec_proba_pair(g@, alt_allele_num as int, num_bits),
{
    let ghost alt = alt_allele_num as int;
    let n = g.unicode_len();
    let mut i: usize = 0;
    let mut count: usize = 0;
    let mut first: u32 = 0;
    let mut second: u32 = 0;
    while i < n
        invariant
            alt == alt_allele_num as int,
            0 <= i <= n == g@.len(),
            count <= i,
            count == spec_retained(g@.take(i as int), alt).len(),
            count >= 1 ==> first == spec_retained(g@.take(i as int), alt)[0],
            count >= 2 ==> second == spec_retained(g@.take(i as int), alt)[1],
            first <= 1,
            second <= 1,
        decreases n - i,
    {
        proof {
            assert(g@.take(i + 1).drop_last() =~= g@.take(i as int));
            assert(g@.take(i + 1).last() == g@[i as int]);
        }
        let ghost pre = spec_retained(g@.take(i as int), alt);
        let ghost post = spec_retained(g@.take(i + 1), alt);
        let c = g.get_char(i);
        let cv = c as u32;
        if 48 <= cv && cv <= 57 {
            let d = cv - 48;
            let call: u32 = if d == 0 {
                0
            } else {
                1
            };
            if d == 0 || d as usize == alt_allele_num {
                proof {
                    assert((d as usize) as int == d as int);
                    assert(post =~= pre.push(call));
                }
                if count == 0 {
                    first = call;
                } else if count == 1 {
                    second = call;
                }
                count = count + 1;
            } else {
                proof {
                    assert((d as usize) as int == d as int);
                    assert(post =~= pre);
                }
            }
        } else {
            proof {
                assert(!is_digit_char(g@[i as int]));
                assert(post =~= pre);
            }
        }
        i = i + 1;
    }
    proof {
        assert(g@.take(n as int) =~= g@);
    }
    if count < 2 {
        (0x82, 0, 0)
    } else {
        let mut pair: Vec<u32> = Vec::new();
        pair.push(first);
        pair.push(second);
        let probas = genos_to_proba(pair.as_slice(), num_bits);
        (0x02, probas[0], probas[1])
    }
}

/// Encodes a whole line of raw genotype strings: for sample `i` the ploidy
/// byte lands at index `i` and its probability pair at indexes `2i`, `2i+1`.
pub fn parse_geno_line(geno_line: &Vec<String>, alt_allele_num: usize, num_bits: u8) -> (r: (
    Vec<u32>,
    Vec<u8>,
))
    requires
        num_bits < 32,
    ensures
        r.0@.len() == 2 * geno_line@.len(),
        r.1@.len() == geno_line@.len(),
        forall|i: int|
            0 <= i < geno_line@.len() ==> {
                &&& r.1@[i] == spec_ploidy_byte(#[trigger] geno_line@[i]@, alt_allele_num as int)
                &&& r.0@[2 * i] == spec_proba_pair(geno_line@[i]@, alt_allele_num as int, num_bits).0
                &&& r.0@[2 * i + 1] == spec_proba_pair(
                    geno_line@[i]@,
                    alt_allele_num as int,
                    num_bits,
                ).1
            },
{
    let mut probas: Vec<u32> = Vec::new();
    let mut ploidy: Vec<u8> = Vec::new();
    let n = geno_line.len();
    let mut i: usize = 0;
    while i < n
        invariant
            0 <= i <= n == geno_line@.len(),
            probas@.len() == 2 * i,
            ploidy@.len() == i,
            num_bits < 32,
            forall|k: int|
                0 <= k < i ==> {
                    &&& ploidy@[k] == spec_ploidy_byte(
                        #[trigger] geno_line@[k]@,
                        alt_allele_num as int,
                    )
                    &&& probas@[2 * k] == spec_proba_pair(
                        geno_line@[k]@,
                        alt_allele_num as int,
                        num_bits,
                    ).0
                    &&& probas@[2 * k + 1] == spec_proba_pair(
                        geno_line@[k]@,
                        alt_allele_num as int,
                        num_bits,
                    ).1
                },
        decreases n - i,
    {
        let (pl, p0, p1) = encode_genotype(geno_line[i].as_str(), alt_allele_num, num_bits);
        probas.push(p0);
        probas.push(p1);
        ploidy.push(pl);
        i = i + 1;
    }
    (probas, ploidy)
}

} // verus!
