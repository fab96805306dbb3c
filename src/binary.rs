//! Bit and nibble primitives used by the crossover rule table.
//!
//! A byte holds two nibbles: side `0` is the high nibble, any other side is
//! the low nibble.

use vstd::prelude::*;

verus! {

/// Bit `n` of `b`, counting from the least significant bit.
pub open spec fn bit(b: u8, n: u8) -> bool {
    (b >> n) & 1u8 == 1u8
}

/// High nibble of `b`.
pub open spec fn high(b: u8) -> int {
    b as int / 16
}

/// Low nibble of `b`.
pub open spec fn low(b: u8) -> int {
    b as int % 16
}

/// The nibble of `b` on `side`.
pub open spec fn nibble(b: u8, side: usize) -> int {
    if side == 0 {
        high(b)
    } else {
        low(b)
    }
}

/// The nibble of `b` opposite to `side`.
pub open spec fn other_nibble(b: u8, side: usize) -> int {
    if side == 0 {
        low(b)
    } else {
        high(b)
    }
}

/// The mask that keeps the nibble on `side`.
pub open spec fn half_mask(side: usize) -> u8 {
    if side == 0 {
        0xF0u8
    } else {
        0x0Fu8
    }
}

/// Saturating increment of a nibble value.
pub open spec fn nibble_up(n: int) -> int {
    if n < 15 {
        n + 1
    } else {
        15
    }
}

/// Saturating decrement of a nibble value.
pub open spec fn nibble_down(n: int) -> int {
    if n > 0 {
        n - 1
    } else {
        0
    }
}

/// A byte built from a high and a low nibble has those nibbles.
proof fn lemma_join(h: u8, l: u8)
    requires
        h < 16,
        l < 16,
    ensures
        high((h << 4u8) | l) == h as int,
        low((h << 4u8) | l) == l as int,
{
    let j = (h << 4u8) | l;
    assert(j / 16 == h && j % 16 == l) by (bit_vector)
        requires
            h < 16,
            l < 16,
            j == (h << 4u8) | l,
    ;
}

/// Shifts and masks of a byte in terms of its nibbles.
proof fn lemma_split(b: u8)
    ensures
        b >> 4u8 == b / 16,
        b & 0x0Fu8 == b % 16,
        b & 0xF0u8 == (b / 16) * 16,
        b / 16 < 16,
{
    assert(b >> 4u8 == b / 16 && b & 0x0Fu8 == b % 16 && b & 0xF0u8 == (b / 16) * 16
        && b / 16 < 16) by (bit_vector);
}

/// The bit and nibble operations of the rule table.
pub struct Binary {}

impl Binary {
    /// Whether bit `n` of `input` is set.
    pub fn get_bit_at(input: u8, n: u8) -> (r: bool)
        requires
            n < 8,
        ensures
            r == bit(input, n),
    {
        proof {
            assert((input & (1u8 << n) != 0u8) == ((input >> n) & 1u8 == 1u8)) by (bit_vector)
                requires
                    n < 8,
            ;
        }
        input & (1u8 << n) != 0
    }

    /// Masks `new` to the nibble on `side` and ORs it into `old`.
    pub fn copy_bits(old: u8, new: u8, side: usize) -> (r: u8)
        ensures
            r == old | (new & half_mask(side)),
            other_nibble(r, side) == other_nibble(old, side),
            nibble(old, side) == 0 ==> nibble(r, side) == nibble(new, side),
    {
        let masked = if side == 0 {
            new & 0xF0
        } else {
            new & 0x0F
        };
        let r = old | masked;
        proof {
            if side == 0 {
                assert(r / 16 == (old / 16) | (new / 16) && r % 16 == old % 16) by (bit_vector)
                    requires
                        r == old | (new & 0xF0u8),
                ;
                assert(old / 16 == 0 ==> (old / 16) | (new / 16) == new / 16) by (bit_vector);
            } else {
                assert(r % 16 == (old % 16) | (new % 16) && r / 16 == old / 16) by (bit_vector)
                    requires
                        r == old | (new & 0x0Fu8),
                ;
                assert(old % 16 == 0 ==> (old % 16) | (new % 16) == new % 16) by (bit_vector);
            }
        }
        r
    }

    /// Saturating increment of the nibble on `side`; the other nibble is kept.
    pub fn add_one(old: u8, side: usize) -> (r: u8)
        ensures
            nibble(r, side) == nibble_up(nibble(old, side)),
            other_nibble(r, side) == other_nibble(old, side),
            nibble(old, side) == 15 ==> nibble(r, side) == 15,
    {
        proof {
            lemma_split(old);
        }
        let h = old >> 4;
        let l = old & 0x0F;
        let (h, l) = if side == 0 {
            (if h < 15 { h + 1 } else { 15 }, l)
        } else {
            (h, if l < 15 { l + 1 } else { 15 })
        };
        proof {
            lemma_join(h, l);
        }
        (h << 4) | l
    }

    /// Saturating decrement of the nibble on `side`; the other nibble is kept.
    pub fn sub_one(old: u8, side: usize) -> (r: u8)
        ensures
            nibble(r, side) == nibble_down(nibble(old, side)),
            other_nibble(r, side) == other_nibble(old, side),
            nibble(old, side) == 0 ==> nibble(r, side) == 0,
    {
        proof {
            lemma_split(old);
        }
        let h = old >> 4;
        let l = old & 0x0F;
        let (h, l) = if side == 0 {
            (if h > 0 { h - 1 } else { 0 }, l)
        } else {
            (h, if l > 0 { l - 1 } else { 0 })
        };
        proof {
            lemma_join(h, l);
        }
        (h << 4) | l
    }
}

} // verus!
