//! Next generation level and rarity tier of an offspring.

use vstd::prelude::*;

verus! {

/// The five rarity tiers, lowest first.
#[derive(Clone, Copy, Debug, PartialEq, Eq, Structural)]
pub enum RarityType {
    Minor,
    Normal,
    Rare,
    Epic,
    Legendary,
}

/// The tier with ordinal `n`; any value out of range gives the lowest tier.
pub open spec fn tier_of(n: int) -> RarityType {
    if n == 1 {
        RarityType::Normal
    } else if n == 2 {
        RarityType::Rare
    } else if n == 3 {
        RarityType::Epic
    } else if n == 4 {
        RarityType::Legendary
    } else {
        RarityType::Minor
    }
}

impl RarityType {
    /// The tier's ordinal: 0 for `Minor` up to 4 for `Legendary`.
    pub open spec fn rank(self) -> int {
        match self {
            RarityType::Minor => 0,
            RarityType::Normal => 1,
            RarityType::Rare => 2,
            RarityType::Epic => 3,
            RarityType::Legendary => 4,
        }
    }

    /// The tier with ordinal `value`; any other value gives `Minor`.
    pub fn from_u32(value: u32) -> (r: RarityType)
        ensures
            r == tier_of(value as int),
    {
        match value {
            0 => RarityType::Minor,
            1 => RarityType::Normal,
            2 => RarityType::Rare,
            3 => RarityType::Epic,
            4 => RarityType::Legendary,
            _ => RarityType::Minor,
        }
    }

    /// The tier's ordinal.
    pub fn ordinal(&self) -> (r: u32)
        ensures
            r == self.rank(),
    {
        match self {
            RarityType::Minor => 0,
            RarityType::Normal => 1,
            RarityType::Rare => 2,
            RarityType::Epic => 3,
            RarityType::Legendary => 4,
        }
    }
}

impl Default for RarityType {
    fn default() -> (r: Self)
        ensures
            r == RarityType::Minor,
    {
        RarityType::Minor
    }
}

/// A parent's ordinal lowered by one, not below zero.
pub open spec fn demoted(rank: int) -> int {
    if rank > 0 {
        rank - 1
    } else {
        0
    }
}

/// The rarity contribution of both parents to the generation level.
pub open spec fn base_rarity(rar1: RarityType, rar2: RarityType) -> int {
    (demoted(rar1.rank()) + demoted(rar2.rank())) / 2
}

/// The modulus of a parent's ladder: twice its level, less its demoted
/// ordinal when that leaves at least the demoted ordinal.
pub open spec fn ladder_modulus(gen: int, demoted_rank: int) -> int {
    if 2 * gen >= 2 * demoted_rank {
        2 * gen - demoted_rank
    } else {
        2 * gen
    }
}

/// The value drawn from entropy bytes `i` and `i + 1`.
pub open spec fn draw(entropy: Seq<u8>, i: int) -> int {
    entropy[i] + entropy[i + 1]
}

/// A parent's ladder: its base level and its tier bonus, from its level, its
/// modulus, its three drawn values and the bar that the third check halves.
pub open spec fn ladder(gen: int, m: int, v1: int, v2: int, v3: int, third_bar: int) -> (int, int) {
    if v1 % m == 0 {
        if v2 % m < (gen + 1) / 2 {
            if v3 % m < third_bar / 2 {
                (gen + 3, 3)
            } else {
                (gen + 2, 2)
            }
        } else {
            (gen + 1, 1)
        }
    } else if v3 % m == 0 {
        (gen - 1, 0)
    } else {
        (gen, 0)
    }
}

/// Whether the ladders run: both levels in [1, 16] and 32 bytes of entropy.
pub open spec fn ladders_run(gen1: int, gen2: int, entropy: Seq<u8>) -> bool {
    1 <= gen1 <= 16 && 1 <= gen2 <= 16 && entropy.len() == 32
}

/// Parent 1's ladder: entropy pairs (1, 2), (3, 4), (5, 6).
pub open spec fn first_ladder(gen1: int, rar1: RarityType, entropy: Seq<u8>) -> (int, int) {
    ladder(
        gen1,
        ladder_modulus(gen1, demoted(rar1.rank())),
        draw(entropy, 1),
        draw(entropy, 3),
        draw(entropy, 5),
        gen1 + 2,
    )
}

/// Parent 2's ladder: entropy pairs (7, 8), (9, 10), (11, 12); its third check
/// halves parent 1's base level.
pub open spec fn second_ladder(
    gen1: int,
    rar1: RarityType,
    gen2: int,
    rar2: RarityType,
    entropy: Seq<u8>,
) -> (int, int) {
    ladder(
        gen2,
        ladder_modulus(gen2, demoted(rar2.rank())),
        draw(entropy, 7),
        draw(entropy, 9),
        draw(entropy, 11),
        first_ladder(gen1, rar1, entropy).0,
    )
}

/// A level clamped to [1, 16].
pub open spec fn clamp_level(x: int) -> int {
    if x > 16 {
        16
    } else if x < 1 {
        1
    } else {
        x
    }
}

/// The offspring's generation level.
pub open spec fn next_level(
    gen1: int,
    rar1: RarityType,
    gen2: int,
    rar2: RarityType,
    entropy: Seq<u8>,
) -> int {
    if ladders_run(gen1, gen2, entropy) {
        clamp_level(
            (first_ladder(gen1, rar1, entropy).0 + second_ladder(gen1, rar1, gen2, rar2, entropy).0
                + base_rarity(rar1, rar2)) / 2,
        )
    } else {
        clamp_level(base_rarity(rar1, rar2) / 2)
    }
}

/// The offspring's rarity tier from the two tier bonuses.
pub open spec fn tier_from_bonuses(
    bonus1: int,
    bonus2: int,
    rar1: RarityType,
    rar2: RarityType,
) -> RarityType {
    tier_of(((bonus1 + bonus2 + (rar1.rank() + rar2.rank()) / 2) / 2) % 5)
}

/// The offspring's rarity tier.
pub open spec fn next_tier(
    gen1: int,
    rar1: RarityType,
    gen2: int,
    rar2: RarityType,
    entropy: Seq<u8>,
) -> RarityType {
    if ladders_run(gen1, gen2, entropy) {
        tier_from_bonuses(
            first_ladder(gen1, rar1, entropy).1,
            second_ladder(gen1, rar1, gen2, rar2, entropy).1,
            rar1,
            rar2,
        )
    } else {
        tier_from_bonuses(0, 0, rar1, rar2)
    }
}

/// The progression engine.
pub struct Generation {}

impl Generation {
    /// A parent's ladder modulus.
    fn modulus(gen: u32, demoted_rank: u32) -> (m: u32)
        requires
            1 <= gen <= 16,
            demoted_rank <= 3,
        ensures
            m == ladder_modulus(gen as int, demoted_rank as int),
            1 <= m <= 32,
    {
        let mut m = gen * 2;
        if m >= demoted_rank * 2 {
            m -= demoted_rank;
        }
        m
    }

    /// A parent's ladder: its base level and its tier bonus.
    fn climb(gen: u32, m: u32, v1: u32, v2: u32, v3: u32, third_bar: u32) -> (r: (u32, u32))
        requires
            1 <= gen <= 16,
            1 <= m,
            third_bar <= 19,
        ensures
            r.0 == ladder(gen as int, m as int, v1 as int, v2 as int, v3 as int, third_bar as int).0,
            r.1 == ladder(gen as int, m as int, v1 as int, v2 as int, v3 as int, third_bar as int).1,
            r.0 <= 19,
    {
        let mut base = gen;
        let mut bonus: u32 = 0;
        if v1 % m == 0 {
            base += 1;
            bonus = 1;
            if v2 % m < base / 2 {
                base += 1;
                bonus = 2;
                if v3 % m < third_bar / 2 {
                    base += 1;
                    bonus = 3;
                }
            }
        } else if v3 % m == 0 {
            base -= 1;
        }
        (base, bonus)
    }

    /// The offspring's rarity tier and generation level from the parents'
    /// levels and tiers and an entropy block.
    pub fn next_gen(gen1: u32, rar1: RarityType, gen2: u32, rar2: RarityType, random_hash: &[u8]) -> (r: (
        RarityType,
        u32,
    ))
        ensures
            r.0 == next_tier(gen1 as int, rar1, gen2 as int, rar2, random_hash@),
            r.1 == next_level(gen1 as int, rar1, gen2 as int, rar2, random_hash@),
            1 <= r.1 <= 16,
            !ladders_run(gen1 as int, gen2 as int, random_hash@) ==> r.0 == tier_from_bonuses(
                0,
                0,
                rar1,
                rar2,
            ) && r.1 == clamp_level(base_rarity(rar1, rar2) / 2),
    {
        let mut result: u32 = 1;
        let mut rarity1: u32 = 0;
        let mut rarity2: u32 = 0;
        let rank1 = rar1.ordinal();
        let rank2 = rar2.ordinal();
        let rar11 = if rank1 > 0 {
            rank1 - 1
        } else {
            0
        };
        let rar22 = if rank2 > 0 {
            rank2 - 1
        } else {
            0
        };
        let base_rar = (rar11 + rar22) / 2;

        if gen1 > 0 && gen1 < 17 && gen2 > 0 && gen2 < 17 && random_hash.len() == 32 {
            let rng_gen11 = random_hash[1] as u32 + random_hash[2] as u32;
            let rng_gen12 = random_hash[3] as u32 + random_hash[4] as u32;
            let rng_gen13 = random_hash[5] as u32 + random_hash[6] as u32;
            let rng_gen21 = random_hash[7] as u32 + random_hash[8] as u32;
            let rng_gen22 = random_hash[9] as u32 + random_hash[10] as u32;
            let rng_gen23 = random_hash[11] as u32 + random_hash[12] as u32;

            let modulus1 = Self::modulus(gen1, rar11);
            let modulus2 = Self::modulus(gen2, rar22);
            // Parent 1's third check halves its own base level, which by then
            // is two above its level; parent 2's halves parent 1's final base.
            let (base_gen1, bonus1) = Self::climb(gen1, modulus1, rng_gen11, rng_gen12, rng_gen13, gen1 + 2);
            let (base_gen2, bonus2) = Self::climb(gen2, modulus2, rng_gen21, rng_gen22, rng_gen23, base_gen1);
            rarity1 = bonus1;
            rarity2 = bonus2;

            result = (base_gen1 + base_gen2 + base_rar) / 2;
            if result > 16 {
                result = 16;
            } else if result < 1 {
                result = 1;
            }
        }

        let rarity = RarityType::from_u32(((rarity1 + rarity2 + (rank1 + rank2) / 2) / 2) % 5);
        (rarity, result)
    }
}

} // verus!
