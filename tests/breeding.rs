use dotmog::{BreedType, Breeding};

fn parent(first: u8) -> [u8; 16] {
    let mut p = [0u8; 16];
    for i in 0..16 {
        p[i] = first + i as u8;
    }
    p
}

#[test]
fn pairing_dom_dom_keeps_both_orders() {
    let r = Breeding::pairing(BreedType::DomDom, [0xAA; 16], [0xBB; 16]);
    let mut expected = [0xAAu8; 32];
    for b in expected[16..].iter_mut() {
        *b = 0xBB;
    }
    assert_eq!(r, expected);
}

#[test]
fn pairing_orders_halves_per_breed_type() {
    let p1 = parent(0);
    let p2 = parent(100);
    let normal1: Vec<u8> = (0..16).collect();
    let reversed1: Vec<u8> = (8..16).chain(0..8).collect();
    let normal2: Vec<u8> = (100..116).collect();
    let reversed2: Vec<u8> = (108..116).chain(100..108).collect();
    let cases = [
        (BreedType::DomDom, &normal1, &normal2),
        (BreedType::DomRez, &normal1, &reversed2),
        (BreedType::RezDom, &reversed1, &reversed2),
        (BreedType::RezRez, &reversed1, &normal2),
    ];
    for (t, left, right) in cases {
        let r = Breeding::pairing(t, p1, p2);
        assert_eq!(&r[..16], &left[..]);
        assert_eq!(&r[16..], &right[..]);
    }
}

#[test]
fn pairing_splits_by_parent() {
    let p1 = parent(0);
    let p2 = parent(100);
    for t in [BreedType::DomDom, BreedType::DomRez, BreedType::RezDom, BreedType::RezRez] {
        let r = Breeding::pairing(t, p1, p2);
        let mut left = r[..16].to_vec();
        let mut right = r[16..].to_vec();
        left.sort();
        right.sort();
        assert_eq!(left, p1.to_vec());
        assert_eq!(right, p2.to_vec());
    }
}

#[test]
fn segmenting_all_zero_recombines_every_byte() {
    let (dna, evo) = Breeding::segmenting([0u8; 32], [0u8; 32]);
    assert_eq!(dna, [0x00u8; 16]);
    assert_eq!(evo, [0x33u8; 16]);
}

#[test]
fn segmenting_all_ones_takes_entropy_bytes() {
    let (dna, evo) = Breeding::segmenting([0xFFu8; 32], [0x5Au8; 32]);
    assert_eq!(dna, [0x5Au8; 16]);
    assert_eq!(evo, [0x33u8; 16]);
}

#[test]
fn segmenting_counting_genome() {
    let mut gen = [0u8; 32];
    let mut blk = [0u8; 32];
    for i in 0..32 {
        gen[i] = i as u8;
        blk[i] = (7 * i + 3) as u8;
    }
    let (dna, evo) = Breeding::segmenting(gen, blk);
    assert_eq!(dna, [240, 17, 34, 0, 0, 21, 22, 0, 137, 25, 42, 16, 13, 45, 30, 32]);
    assert_eq!(
        evo,
        [224, 186, 139, 51, 51, 122, 187, 51, 236, 122, 138, 176, 172, 138, 186, 224]
    );
}

#[test]
fn segmenting_mixed_genome() {
    let mut gen = [0u8; 32];
    let mut blk = [0u8; 32];
    for i in 0..32 {
        gen[i] = ((i * 37 + 11) % 256) as u8;
        blk[i] = ((i * 91 + 200) % 256) as u8;
    }
    let (dna, evo) = Breeding::segmenting(gen, blk);
    assert_eq!(dna, [203, 129, 111, 218, 228, 37, 233, 18, 115, 105, 254, 162, 23, 77, 114, 135]);
    assert_eq!(
        evo,
        [251, 184, 79, 139, 190, 132, 171, 78, 250, 79, 204, 171, 187, 136, 116, 180]
    );
}

#[test]
fn segmenting_first_byte_by_hand() {
    // Locus 0: control bits (0,0), entropy bits both set: NOT entropy[0], code E.
    // Locus 1: control bits (0,0), entropy bits clear: decrement of
    // (NOT genome[0]) AND genome[16] on the low side, code 0.
    let mut gen = [0u8; 32];
    let mut blk = [0u8; 32];
    blk[0] = 0b0000_0011;
    gen[16] = 0x12;
    let (dna, evo) = Breeding::segmenting(gen, blk);
    assert_eq!(dna[0], 0xF1);
    assert_eq!(evo[0], 0xE0);
}

#[test]
fn segmenting_is_deterministic() {
    let mut gen = [0u8; 32];
    let mut blk = [0u8; 32];
    for i in 0..32 {
        gen[i] = ((i * 53 + 5) % 256) as u8;
        blk[i] = ((i * 29 + 77) % 256) as u8;
    }
    assert_eq!(Breeding::segmenting(gen, blk), Breeding::segmenting(gen, blk));
}

fn pseudo_random(seed: &mut u32) -> u8 {
    *seed = seed.wrapping_mul(1_103_515_245).wrapping_add(12_345);
    (*seed >> 16) as u8
}

#[test]
fn segmenting_markers_stay_in_code_set() {
    let codes = [0x0u8, 0x4, 0x7, 0x8, 0xA, 0xB, 0xC, 0xE, 0xF];
    let mut seed = 1u32;
    for _ in 0..200 {
        let mut gen = [0u8; 32];
        let mut blk = [0u8; 32];
        for i in 0..32 {
            gen[i] = pseudo_random(&mut seed);
            blk[i] = pseudo_random(&mut seed);
        }
        let (_, evo) = Breeding::segmenting(gen, blk);
        for m in evo {
            assert!(m == 0x33 || (codes.contains(&(m >> 4)) && codes.contains(&(m & 0x0F))));
        }
    }
}

#[test]
fn segmenting_recombination_marks_exactly_the_extreme_bytes() {
    // Byte 0: control bits (1,1) and clear entropy bits on both loci give the
    // high nibble of entropy[0] and the low nibble of entropy[1], 0xFF, which
    // is then ANDed with entropy[0]. Byte 4 assembles to 0x02 and is kept.
    let mut gen = [0u8; 32];
    let mut blk = [0u8; 32];
    gen[8] = 0b11;
    gen[20] = 0b11;
    blk[0] = 0xF0;
    blk[1] = 0x0F;
    let (dna, evo) = Breeding::segmenting(gen, blk);
    assert_eq!(dna, [0xF0, 0x0F, 0, 0, 0x02, 0, 0, 0, 0, 0, 0, 0, 0, 0, 0, 0]);
    assert_eq!(
        evo,
        [0x33, 0x33, 0x33, 0x33, 0x00, 0x33, 0x33, 0x33, 0x33, 0x33, 0x33, 0x33, 0x33, 0x33, 0x33, 0x33]
    );
}

#[test]
fn segmenting_each_rule_on_first_locus() {
    // (control a, control b, entropy a, entropy b, offspring[0], markers[0]);
    // locus 1 always takes the (0,0) no-entropy rule and gives 0x2.
    let rows: [(u8, u8, u8, u8, u8, u8); 16] = [
        (0, 0, 0, 0, 0x72, 0x00),
        (0, 0, 0, 1, 0x92, 0xB0),
        (0, 0, 1, 0, 0x52, 0xA0),
        (0, 0, 1, 1, 0x92, 0xE0),
        (0, 1, 0, 0, 0x92, 0xB0),
        (0, 1, 0, 1, 0xA2, 0x80),
        (0, 1, 1, 0, 0xC2, 0x70),
        (0, 1, 1, 1, 0xA2, 0x80),
        (1, 0, 0, 0, 0x52, 0xA0),
        (1, 0, 0, 1, 0xC2, 0x70),
        (1, 0, 1, 0, 0x62, 0x40),
        (1, 0, 1, 1, 0x62, 0x40),
        (1, 1, 0, 0, 0x62, 0xF0),
        (1, 1, 0, 1, 0x92, 0xB0),
        (1, 1, 1, 0, 0x52, 0xA0),
        (1, 1, 1, 1, 0xE2, 0xC0),
    ];
    for (bit_a, bit_b, ent_a, ent_b, value, marker) in rows {
        let mut gen = [0u8; 32];
        let mut blk = [0u8; 32];
        gen[0] = 0x5C;
        gen[16] = 0x93;
        gen[8] = bit_a;
        gen[20] = bit_b;
        blk[0] = 0x60 | ent_a | (ent_b << 1);
        let (dna, evo) = Breeding::segmenting(gen, blk);
        assert_eq!((dna[0], evo[0]), (value, marker));
    }
}
