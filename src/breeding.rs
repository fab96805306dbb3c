//! Pairing of two parents' gene segments and the crossover rule table.

use vstd::prelude::*;

use crate::binary::{bit, high, low, nibble, other_nibble, nibble_up, nibble_down, Binary};

verus! {

/// How the dominant and recessive halves of each parent are ordered in the
/// combined genome.
#[derive(Clone, Copy, Debug, PartialEq, Eq, Structural)]
pub enum BreedType {
    DomDom,
    DomRez,
    RezDom,
    RezRez,
}

/// Whether parent 1's segment enters the combined genome recessive half
/// first.
pub open spec fn left_reversed(t: BreedType) -> bool {
    t == BreedType::RezDom || t == BreedType::RezRez
}

/// Whether parent 2's segment enters the combined genome recessive half
/// first.
pub open spec fn right_reversed(t: BreedType) -> bool {
    t == BreedType::DomRez || t == BreedType::RezDom
}

/// A 16-byte segment with its dominant half (bytes 0 to 7) and its recessive
/// half (bytes 8 to 15), in that order or, when `reversed`, recessive first.
pub open spec fn oriented(segment: Seq<u8>, reversed: bool) -> Seq<u8> {
    if reversed {
        segment.subrange(8, 16) + segment.subrange(0, 8)
    } else {
        segment
    }
}

/// The combined genome: parent 1 in bytes 0 to 15, parent 2 in bytes 16 to
/// 31, each oriented as the breed type says.
pub open spec fn paired(t: BreedType, gen1: Seq<u8>, gen2: Seq<u8>) -> Seq<u8> {
    oriented(gen1, left_reversed(t)) + oriented(gen2, right_reversed(t))
}

/// The byte of the parent's segment that lands at position `i` of its half.
pub open spec fn source_index(reversed: bool, i: int) -> int {
    if reversed {
        (i + 8) % 16
    } else {
        i
    }
}

/// Pairing splits by parent: bytes 0 to 15 of the combined genome are a
/// permutation of parent 1's bytes and bytes 16 to 31 one of parent 2's, each
/// taken through `source_index`, which maps the 16 positions one to one.
pub proof fn lemma_pairing_splits_by_parent(t: BreedType, gen1: Seq<u8>, gen2: Seq<u8>)
    requires
        gen1.len() == 16,
        gen2.len() == 16,
    ensures
        paired(t, gen1, gen2).len() == 32,
        forall|i: int|
            0 <= i < 16 ==> #[trigger] paired(t, gen1, gen2)[i] == gen1[source_index(
                left_reversed(t),
                i,
            )],
        forall|i: int|
            0 <= i < 16 ==> #[trigger] paired(t, gen1, gen2)[16 + i] == gen2[source_index(
                right_reversed(t),
                i,
            )],
        forall|rev: bool, i: int|
            0 <= i < 16 ==> 0 <= #[trigger] source_index(rev, i) < 16,
        forall|rev: bool, i: int, j: int|
            0 <= i < 16 && 0 <= j < 16 && i != j ==> #[trigger] source_index(rev, i)
                != #[trigger] source_index(rev, j),
{
    let p = paired(t, gen1, gen2);
    let l = oriented(gen1, left_reversed(t));
    let r = oriented(gen2, right_reversed(t));
    assert forall|i: int| 0 <= i < 16 implies #[trigger] p[i] == gen1[source_index(
        left_reversed(t),
        i,
    )] by {
        assert(p[i] == l[i]);
    }
    assert forall|i: int| 0 <= i < 16 implies #[trigger] p[16 + i] == gen2[source_index(
        right_reversed(t),
        i,
    )] by {
        assert(p[16 + i] == r[i]);
    }
}

/// Pairing is a function of the breed type and the two segments: two results
/// of it on the same inputs are the same.
pub proof fn lemma_pairing_deterministic(
    t: BreedType,
    gen1: [u8; 16],
    gen2: [u8; 16],
    first: [u8; 32],
    second: [u8; 32],
)
    requires
        first@ == paired(t, gen1@, gen2@),
        second@ == paired(t, gen1@, gen2@),
    ensures
        first == second,
{
    assert(first =~= second);
}

/// Marker codes of the rule table: one nibble per locus.
pub open spec fn marker_code(m: int) -> bool {
    m == 0x0 || m == 0x4 || m == 0x7 || m == 0x8 || m == 0xA || m == 0xB || m == 0xC || m == 0xE
        || m == 0xF
}

/// The marker written over a byte whose assembled value was all ones or all
/// zeros.
pub open spec fn recombination_marker() -> u8 {
    0x33u8
}

/// The rule table: the nibble value and the marker code of one locus, from the
/// two control bits, the two entropy bits, the two source bytes, the entropy
/// byte of the locus and the side of the output byte that the locus fills.
pub open spec fn rule(
    bit_a: bool,
    bit_b: bool,
    ent_a: bool,
    ent_b: bool,
    src_a: u8,
    src_b: u8,
    ent_byte: u8,
    side: usize,
) -> (int, int) {
    if bit_a && !bit_b {
        if ent_a {
            (nibble_up(nibble(src_a, side)), 0x4)
        } else if !ent_b {
            (nibble(src_a, side), 0xA)
        } else {
            (nibble(src_a ^ src_b, side), 0x7)
        }
    } else if !bit_a && bit_b {
        if ent_b {
            (nibble_up(nibble(src_b, side)), 0x8)
        } else if !ent_a {
            (nibble(src_b, side), 0xB)
        } else {
            (nibble(src_b ^ src_a, side), 0x7)
        }
    } else if !bit_a && !bit_b {
        if !ent_a && !ent_b {
            (nibble_down(nibble(!src_a & src_b, side)), 0x0)
        } else if ent_a && ent_b {
            (nibble(!ent_byte, side), 0xE)
        } else if ent_a {
            (nibble(src_a, side), 0xA)
        } else {
            (nibble(src_b, side), 0xB)
        }
    } else {
        if ent_a && ent_b {
            (nibble_up(nibble(src_a | src_b, side)), 0xC)
        } else if !ent_a && !ent_b {
            (nibble(ent_byte, side), 0xF)
        } else if ent_a {
            (nibble(src_a, side), 0xA)
        } else {
            (nibble(src_b, side), 0xB)
        }
    }
}

/// Bit `n` of a byte buffer, bit 0 being the least significant bit of byte 0.
pub open spec fn buffer_bit(s: Seq<u8>, n: int) -> bool {
    bit(s[n / 8], (n % 8) as u8)
}

/// The outcome of locus `i` (0 to 31) of the crossover of `genome` with
/// `entropy`: its nibble value and its marker code.
pub open spec fn locus_outcome(genome: Seq<u8>, entropy: Seq<u8>, i: int) -> (int, int) {
    rule(
        buffer_bit(genome.subrange(8, 12), i),
        buffer_bit(genome.subrange(20, 24), i),
        buffer_bit(entropy, 2 * i),
        buffer_bit(entropy, 2 * i + 1),
        genome[i / 2],
        genome[16 + i / 2],
        entropy[i],
        (i % 2) as usize,
    )
}

/// Output byte `k` as assembled from its two loci, before recombination.
pub open spec fn assembled(genome: Seq<u8>, entropy: Seq<u8>, k: int) -> int {
    locus_outcome(genome, entropy, 2 * k).0 * 16 + locus_outcome(genome, entropy, 2 * k + 1).0
}

/// Marker byte `k` as assembled from its two loci, before recombination.
pub open spec fn assembled_marker(genome: Seq<u8>, entropy: Seq<u8>, k: int) -> int {
    locus_outcome(genome, entropy, 2 * k).1 * 16 + locus_outcome(genome, entropy, 2 * k + 1).1
}

/// Whether output byte `k` is recombined: its assembled value is all ones or
/// all zeros.
pub open spec fn recombines(genome: Seq<u8>, entropy: Seq<u8>, k: int) -> bool {
    assembled(genome, entropy, k) == 0xFF || assembled(genome, entropy, k) == 0x00
}

/// The offspring gene buffer of the crossover.
pub open spec fn offspring(genome: Seq<u8>, entropy: Seq<u8>) -> Seq<u8> {
    Seq::new(
        16,
        |k: int|
            if recombines(genome, entropy, k) {
                (assembled(genome, entropy, k) as u8) & entropy[k]
            } else {
                assembled(genome, entropy, k) as u8
            },
    )
}

/// The evolution marker trace of the crossover.
pub open spec fn markers(genome: Seq<u8>, entropy: Seq<u8>) -> Seq<u8> {
    Seq::new(
        16,
        |k: int|
            if recombines(genome, entropy, k) {
                recombination_marker()
            } else {
                assembled_marker(genome, entropy, k) as u8
            },
    )
}

/// Every nibble value and marker code of the rule table is a nibble, and every
/// marker code is in the table's code set.
pub proof fn lemma_rule_ranges(
    bit_a: bool,
    bit_b: bool,
    ent_a: bool,
    ent_b: bool,
    src_a: u8,
    src_b: u8,
    ent_byte: u8,
    side: usize,
)
    ensures
        0 <= rule(bit_a, bit_b, ent_a, ent_b, src_a, src_b, ent_byte, side).0 < 16,
        marker_code(rule(bit_a, bit_b, ent_a, ent_b, src_a, src_b, ent_byte, side).1),
{
}

/// The crossover is a function of the genome and the entropy block: two
/// results of it on the same inputs are the same.
pub proof fn lemma_crossover_deterministic(
    genome: [u8; 32],
    entropy: [u8; 32],
    first: ([u8; 16], [u8; 16]),
    second: ([u8; 16], [u8; 16]),
)
    requires
        first.0@ == offspring(genome@, entropy@),
        first.1@ == markers(genome@, entropy@),
        second.0@ == offspring(genome@, entropy@),
        second.1@ == markers(genome@, entropy@),
    ensures
        first == second,
{
    assert(first.0 =~= second.0);
    assert(first.1 =~= second.1);
}

/// Every marker byte is either the recombination marker or two nibbles of the
/// rule table's code set.
pub proof fn lemma_markers_in_code_set(genome: Seq<u8>, entropy: Seq<u8>)
    requires
        genome.len() == 32,
        entropy.len() == 32,
    ensures
        markers(genome, entropy).len() == 16,
        forall|k: int|
            0 <= k < 16 ==> #[trigger] markers(genome, entropy)[k] == recombination_marker() || (
            marker_code(high(markers(genome, entropy)[k])) && marker_code(
                low(markers(genome, entropy)[k]),
            )),
{
    assert forall|k: int| 0 <= k < 16 implies #[trigger] markers(genome, entropy)[k]
        == recombination_marker() || (marker_code(high(markers(genome, entropy)[k]))
        && marker_code(low(markers(genome, entropy)[k]))) by {
        lemma_locus_ranges(genome, entropy, 2 * k);
        lemma_locus_ranges(genome, entropy, 2 * k + 1);
    }
}

/// A marker byte is the recombination marker exactly when the byte assembled
/// from its two loci was all ones or all zeros, and the offspring byte is then
/// that assembled byte ANDed with the entropy byte of the same index;
/// otherwise the offspring byte is the assembled byte.
pub proof fn lemma_recombination(genome: Seq<u8>, entropy: Seq<u8>)
    requires
        genome.len() == 32,
        entropy.len() == 32,
    ensures
        forall|k: int|
            0 <= k < 16 ==> (#[trigger] markers(genome, entropy)[k] == recombination_marker() <==> (
            assembled(genome, entropy, k) == 0xFF || assembled(genome, entropy, k) == 0x00)),
        forall|k: int|
            0 <= k < 16 && assembled(genome, entropy, k) == 0xFF ==> #[trigger] offspring(
                genome,
                entropy,
            )[k] == 0xFFu8 & entropy[k],
        forall|k: int|
            0 <= k < 16 && assembled(genome, entropy, k) == 0x00 ==> #[trigger] offspring(
                genome,
                entropy,
            )[k] == 0x00u8 & entropy[k],
        forall|k: int|
            0 <= k < 16 && !recombines(genome, entropy, k) ==> #[trigger] offspring(
                genome,
                entropy,
            )[k] == assembled(genome, entropy, k),
{
    assert forall|k: int| 0 <= k < 16 implies (#[trigger] markers(genome, entropy)[k]
        == recombination_marker() <==> recombines(genome, entropy, k)) by {
        lemma_locus_ranges(genome, entropy, 2 * k);
        lemma_locus_ranges(genome, entropy, 2 * k + 1);
    }
    assert forall|k: int| 0 <= k < 16 && !recombines(genome, entropy, k) implies #[trigger] offspring(
        genome,
        entropy,
    )[k] == assembled(genome, entropy, k) by {
        lemma_locus_ranges(genome, entropy, 2 * k);
        lemma_locus_ranges(genome, entropy, 2 * k + 1);
    }
}

/// The outcome of every locus is a nibble value and a code of the code set.
proof fn lemma_locus_ranges(genome: Seq<u8>, entropy: Seq<u8>, i: int)
    requires
        genome.len() == 32,
        entropy.len() == 32,
        0 <= i < 32,
    ensures
        0 <= locus_outcome(genome, entropy, i).0 < 16,
        marker_code(locus_outcome(genome, entropy, i).1),
{
    lemma_rule_ranges(
        buffer_bit(genome.subrange(8, 12), i),
        buffer_bit(genome.subrange(20, 24), i),
        buffer_bit(entropy, 2 * i),
        buffer_bit(entropy, 2 * i + 1),
        genome[i / 2],
        genome[16 + i / 2],
        entropy[i],
        (i % 2) as usize,
    );
}

/// The pairing operator and the crossover engine.
pub struct Breeding;

impl Breeding {
    /// Combines two parents' 16-byte gene segments into one 32-byte genome,
    /// ordering each parent's halves as `breed_type` says.
    pub fn pairing(breed_type: BreedType, gen1: [u8; 16], gen2: [u8; 16]) -> (r: [u8; 32])
        ensures
            r@ == paired(breed_type, gen1@, gen2@),
    {
        let (left_rev, right_rev) = match breed_type {
            BreedType::DomDom => (false, false),
            BreedType::DomRez => (false, true),
            BreedType::RezDom => (true, true),
            BreedType::RezRez => (true, false),
        };
        let mut final_dna = [0u8; 32];
        for i in 0..16
            invariant
                left_rev == left_reversed(breed_type),
                right_rev == right_reversed(breed_type),
                forall|j: int|
                    0 <= j < i ==> final_dna[j] == gen1[source_index(left_rev, j)]
                        && final_dna[16 + j] == gen2[source_index(right_rev, j)],
        {
            let from1 = if left_rev {
                (i + 8) % 16
            } else {
                i
            };
            let from2 = if right_rev {
                (i + 8) % 16
            } else {
                i
            };
            final_dna[i] = gen1[from1];
            final_dna[16 + i] = gen2[from2];
        }
        proof {
            lemma_pairing_splits_by_parent(breed_type, gen1@, gen2@);
            let p = paired(breed_type, gen1@, gen2@);
            assert forall|j: int| 0 <= j < 32 implies final_dna@[j] == p[j] by {
                if j >= 16 {
                    assert(p[16 + (j - 16)] == gen2[source_index(right_rev, j - 16)]);
                }
            }
            assert(final_dna@ =~= p);
        }
        final_dna
    }

    /// The nibble value and marker of locus `i`, each placed on the locus's
    /// side of an otherwise zero byte.
    fn locus(genome: &[u8; 32], entropy: &[u8; 32], i: usize) -> (r: (u8, u8))
        requires
            i < 32,
        ensures
            nibble(r.0, i % 2) == locus_outcome(genome@, entropy@, i as int).0,
            other_nibble(r.0, i % 2) == 0,
            nibble(r.1, i % 2) == locus_outcome(genome@, entropy@, i as int).1,
            other_nibble(r.1, i % 2) == 0,
    {
        let bit_a = Binary::get_bit_at(genome[8 + i / 8], (i % 8) as u8);
        let bit_b = Binary::get_bit_at(genome[20 + i / 8], (i % 8) as u8);
        let p1: usize = 2 * i;
        let p2: usize = 2 * i + 1;
        let ent_a = Binary::get_bit_at(entropy[p1 / 8], (p1 % 8) as u8);
        let ent_b = Binary::get_bit_at(entropy[p2 / 8], (p2 % 8) as u8);
        let a_byte = genome[i / 2];
        let b_byte = genome[16 + i / 2];
        let ent_byte = entropy[i];
        let side = i % 2;
        proof {
            assert(genome@.subrange(8, 12)[(i / 8) as int] == genome[8 + i / 8]);
            assert(genome@.subrange(20, 24)[(i / 8) as int] == genome[20 + i / 8]);
            lemma_rule_ranges(bit_a, bit_b, ent_a, ent_b, a_byte, b_byte, ent_byte, side);
        }
        let (half, code): (u8, u8) = if bit_a && !bit_b {
            if ent_a {
                (Binary::add_one(Binary::copy_bits(0, a_byte, side), side), 0x44)
            } else if !ent_b {
                (Binary::copy_bits(0, a_byte, side), 0xAA)
            } else {
                (Binary::copy_bits(0, a_byte ^ b_byte, side), 0x77)
            }
        } else if !bit_a && bit_b {
            if ent_b {
                (Binary::add_one(Binary::copy_bits(0, b_byte, side), side), 0x88)
            } else if !ent_a {
                (Binary::copy_bits(0, b_byte, side), 0xBB)
            } else {
                (Binary::copy_bits(0, b_byte ^ a_byte, side), 0x77)
            }
        } else if !bit_a && !bit_b {
            if !ent_a && !ent_b {
                (Binary::sub_one(Binary::copy_bits(0, !a_byte & b_byte, side), side), 0x00)
            } else if ent_a && ent_b {
                (Binary::copy_bits(0, !ent_byte, side), 0xEE)
            } else if ent_a {
                (Binary::copy_bits(0, a_byte, side), 0xAA)
            } else {
                (Binary::copy_bits(0, b_byte, side), 0xBB)
            }
        } else {
            if ent_a && ent_b {
                (Binary::add_one(Binary::copy_bits(0, a_byte | b_byte, side), side), 0xCC)
            } else if !ent_a && !ent_b {
                (Binary::copy_bits(0, ent_byte, side), 0xFF)
            } else if ent_a {
                (Binary::copy_bits(0, a_byte, side), 0xAA)
            } else {
                (Binary::copy_bits(0, b_byte, side), 0xBB)
            }
        };
        let mark = Binary::copy_bits(0, code, side);
        (half, mark)
    }

    /// Crosses a combined genome with an entropy block: returns the offspring
    /// gene buffer and its evolution marker trace.
    pub fn segmenting(gen: [u8; 32], blk: [u8; 32]) -> (r: ([u8; 16], [u8; 16]))
        ensures
            r.0@ == offspring(gen@, blk@),
            r.1@ == markers(gen@, blk@),
    {
        let mut dna = [0u8; 16];
        let mut evo = [0u8; 16];
        for k in 0..16
            invariant
                forall|j: int|
                    0 <= j < k ==> dna[j] == offspring(gen@, blk@)[j] && evo[j] == markers(
                        gen@,
                        blk@,
                    )[j],
        {
            let (hi, hi_mark) = Self::locus(&gen, &blk, 2 * k);
            let (lo, lo_mark) = Self::locus(&gen, &blk, 2 * k + 1);
            let mut full = Binary::copy_bits(Binary::copy_bits(0, hi, 0), lo, 1);
            let mut mark = Binary::copy_bits(Binary::copy_bits(0, hi_mark, 0), lo_mark, 1);
            assert(full as int == assembled(gen@, blk@, k as int));
            assert(mark as int == assembled_marker(gen@, blk@, k as int));
            if full == 0xFF || full == 0x00 {
                full = full & blk[k];
                mark = 0x33;
            }
            dna[k] = full;
            evo[k] = mark;
        }
        assert(dna@ == offspring(gen@, blk@));
        assert(evo@ == markers(gen@, blk@));
        (dna, evo)
    }
}

} // verus!
