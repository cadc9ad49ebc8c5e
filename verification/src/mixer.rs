//! The mixer: nine samples and a seed folded into one 64-bit signature.

use vstd::prelude::*;

verus! {

/// Value the accumulator starts from.
pub const INITIAL_ACCUMULATOR: u64 = 0x9E3779B97F4A7C15;

/// Multiplier applied after the seed has been folded in.
pub const SEED_MULTIPLIER: u64 = 0xC4CEB9FE1A85EC53;

/// Multiplier applied after the top-left sample.
pub const TOP_LEFT_MULTIPLIER: u64 = 0x165667B19E3779F1;

/// Multiplier applied after the top-center sample.
pub const TOP_CENTER_MULTIPLIER: u64 = 0x1F79A7AECA2324A5;

/// Multiplier applied after the top-right sample.
pub const TOP_RIGHT_MULTIPLIER: u64 = 0x9616EF3348634979;

/// Multiplier applied after the middle-left sample.
pub const MIDDLE_LEFT_MULTIPLIER: u64 = 0xB8F65595A4934737;

/// Multiplier applied after the middle-center sample.
pub const MIDDLE_CENTER_MULTIPLIER: u64 = 0x0BEB655452634B2B;

/// Multiplier applied after the middle-right sample.
pub const MIDDLE_RIGHT_MULTIPLIER: u64 = 0x6295C58D548264A9;

/// Multiplier applied after the bottom-left sample.
pub const BOTTOM_LEFT_MULTIPLIER: u64 = 0x11A2968551968C31;

/// Multiplier applied after the bottom-center sample.
pub const BOTTOM_CENTER_MULTIPLIER: u64 = 0xEEEF07997F4A7C5B;

/// Multiplier applied after the bottom-right sample.
pub const BOTTOM_RIGHT_MULTIPLIER: u64 = 0x0CF6FD4E4863490B;

/// One round of the mixer: `value` is folded into `acc` by exclusive-or and
/// the outcome is multiplied by `multiplier` modulo 2^64.
pub open spec fn absorb(acc: u64, value: u64, multiplier: u64) -> u64 {
    (acc ^ value).wrapping_mul(multiplier)
}

/// The signature of a neighborhood under `seed`: the seed round followed by
/// one round per sample, top row first and left to right within a row.
pub open spec fn mix(
    tl: u32,
    tc: u32,
    tr: u32,
    ml: u32,
    mc: u32,
    mr: u32,
    bl: u32,
    bc: u32,
    br: u32,
    seed: u64,
) -> u64 {
    let acc = absorb(INITIAL_ACCUMULATOR, seed, SEED_MULTIPLIER);
    let acc = absorb(acc, tl as u64, TOP_LEFT_MULTIPLIER);
    let acc = absorb(acc, tc as u64, TOP_CENTER_MULTIPLIER);
    let acc = absorb(acc, tr as u64, TOP_RIGHT_MULTIPLIER);
    let acc = absorb(acc, ml as u64, MIDDLE_LEFT_MULTIPLIER);
    let acc = absorb(acc, mc as u64, MIDDLE_CENTER_MULTIPLIER);
    let acc = absorb(acc, mr as u64, MIDDLE_RIGHT_MULTIPLIER);
    let acc = absorb(acc, bl as u64, BOTTOM_LEFT_MULTIPLIER);
    let acc = absorb(acc, bc as u64, BOTTOM_CENTER_MULTIPLIER);
    absorb(acc, br as u64, BOTTOM_RIGHT_MULTIPLIER)
}

/// The signature of the first nine samples of `cells`, read as a 3x3
/// neighborhood row by row.
pub open spec fn neighborhood_signature(cells: Seq<u32>, seed: u64) -> u64 {
    mix(
        cells[0],
        cells[1],
        cells[2],
        cells[3],
        cells[4],
        cells[5],
        cells[6],
        cells[7],
        cells[8],
        seed,
    )
}

/// Whether `multiplier` is the multiplier of one of the mixer's ten rounds.
pub open spec fn is_round_multiplier(multiplier: u64) -> bool {
    ||| multiplier == SEED_MULTIPLIER
    ||| multiplier == TOP_LEFT_MULTIPLIER
    ||| multiplier == TOP_CENTER_MULTIPLIER
    ||| multiplier == TOP_RIGHT_MULTIPLIER
    ||| multiplier == MIDDLE_LEFT_MULTIPLIER
    ||| multiplier == MIDDLE_CENTER_MULTIPLIER
    ||| multiplier == MIDDLE_RIGHT_MULTIPLIER
    ||| multiplier == BOTTOM_LEFT_MULTIPLIER
    ||| multiplier == BOTTOM_CENTER_MULTIPLIER
    ||| multiplier == BOTTOM_RIGHT_MULTIPLIER
}

/// Computes the signature of one 3x3 neighborhood under `seed`.
pub fn compute_hash_vectorized(
    tl: u32,
    tc: u32,
    tr: u32,
    ml: u32,
    mc: u32,
    mr: u32,
    bl: u32,
    bc: u32,
    br: u32,
    seed: u64,
) -> (signature: u64)
    ensures
        signature == mix(tl, tc, tr, ml, mc, mr, bl, bc, br, seed),
{
    let mut result: u64 = INITIAL_ACCUMULATOR;
    result ^= seed;
    result = result.wrapping_mul(SEED_MULTIPLIER);

    result ^= tl as u64;
    result = result.wrapping_mul(TOP_LEFT_MULTIPLIER);
    result ^= tc as u64;
    result = result.wrapping_mul(TOP_CENTER_MULTIPLIER);
    result ^= tr as u64;
    result = result.wrapping_mul(TOP_RIGHT_MULTIPLIER);
    result ^= ml as u64;
    result = result.wrapping_mul(MIDDLE_LEFT_MULTIPLIER);
    result ^= mc as u64;
    result = result.wrapping_mul(MIDDLE_CENTER_MULTIPLIER);
    result ^= mr as u64;
    result = result.wrapping_mul(MIDDLE_RIGHT_MULTIPLIER);
    result ^= bl as u64;
    result = result.wrapping_mul(BOTTOM_LEFT_MULTIPLIER);
    result ^= bc as u64;
    result = result.wrapping_mul(BOTTOM_CENTER_MULTIPLIER);
    result ^= br as u64;
    result = result.wrapping_mul(BOTTOM_RIGHT_MULTIPLIER);

    result
}

/// Multiplying by a round multiplier modulo 2^64 maps different values to
/// different products.
proof fn lemma_products_differ(a: u64, b: u64)
    by (bit_vector)
    requires
        a != b,
    ensures
        a.wrapping_mul(SEED_MULTIPLIER) != b.wrapping_mul(SEED_MULTIPLIER),
        a.wrapping_mul(TOP_LEFT_MULTIPLIER) != b.wrapping_mul(TOP_LEFT_MULTIPLIER),
        a.wrapping_mul(TOP_CENTER_MULTIPLIER) != b.wrapping_mul(TOP_CENTER_MULTIPLIER),
        a.wrapping_mul(TOP_RIGHT_MULTIPLIER) != b.wrapping_mul(TOP_RIGHT_MULTIPLIER),
        a.wrapping_mul(MIDDLE_LEFT_MULTIPLIER) != b.wrapping_mul(MIDDLE_LEFT_MULTIPLIER),
        a.wrapping_mul(MIDDLE_CENTER_MULTIPLIER) != b.wrapping_mul(MIDDLE_CENTER_MULTIPLIER),
        a.wrapping_mul(MIDDLE_RIGHT_MULTIPLIER) != b.wrapping_mul(MIDDLE_RIGHT_MULTIPLIER),
        a.wrapping_mul(BOTTOM_LEFT_MULTIPLIER) != b.wrapping_mul(BOTTOM_LEFT_MULTIPLIER),
        a.wrapping_mul(BOTTOM_CENTER_MULTIPLIER) != b.wrapping_mul(BOTTOM_CENTER_MULTIPLIER),
        a.wrapping_mul(BOTTOM_RIGHT_MULTIPLIER) != b.wrapping_mul(BOTTOM_RIGHT_MULTIPLIER),
{
}

/// Exclusive-or with equal accumulators tells values apart, and with equal
/// values it tells accumulators apart.
proof fn lemma_xor_cancels(acc_a: u64, value_a: u64, acc_b: u64, value_b: u64)
    by (bit_vector)
    ensures
        acc_a == acc_b ==> (acc_a ^ value_a == acc_b ^ value_b <==> value_a == value_b),
        value_a == value_b ==> (acc_a ^ value_a == acc_b ^ value_b <==> acc_a == acc_b),
{
}

/// A round of the mixer loses nothing: two rounds with the same multiplier
/// agree exactly when what they multiply agrees. With equal accumulators they
/// agree exactly when the values agree, and with equal values exactly when the
/// accumulators agree.
pub proof fn lemma_absorb_injective(
    acc_a: u64,
    value_a: u64,
    acc_b: u64,
    value_b: u64,
    multiplier: u64,
)
    requires
        is_round_multiplier(multiplier),
    ensures
        absorb(acc_a, value_a, multiplier) == absorb(acc_b, value_b, multiplier) <==> acc_a
            ^ value_a == acc_b ^ value_b,
        acc_a == acc_b ==> (absorb(acc_a, value_a, multiplier) == absorb(
            acc_b,
            value_b,
            multiplier,
        ) <==> value_a == value_b),
        value_a == value_b ==> (absorb(acc_a, value_a, multiplier) == absorb(
            acc_b,
            value_b,
            multiplier,
        ) <==> acc_a == acc_b),
{
    if acc_a ^ value_a != acc_b ^ value_b {
        lemma_products_differ(acc_a ^ value_a, acc_b ^ value_b);
    }
    lemma_xor_cancels(acc_a, value_a, acc_b, value_b);
}

/// Inputs that differ in the seed alone, or in one sample alone, get
/// different signatures: the round that takes the differing input separates
/// the accumulators, and every later round keeps them apart.
proof fn lemma_one_difference_separates(
    first: Seq<u32>,
    first_seed: u64,
    second: Seq<u32>,
    second_seed: u64,
)
    requires
        (first_seed != second_seed && forall|i: int| 0 <= i < 9 ==> first[i] == second[i]) || (
        first_seed == second_seed && exists|k: int|
            0 <= k < 9 && first[k] != second[k] && forall|i: int|
                0 <= i < 9 && i != k ==> first[i] == second[i]),
    ensures
        neighborhood_signature(first, first_seed) != neighborhood_signature(second, second_seed),
{
    let a0: u64 = absorb(INITIAL_ACCUMULATOR, first_seed, SEED_MULTIPLIER);
    let a1: u64 = absorb(a0, first[0] as u64, TOP_LEFT_MULTIPLIER);
    let a2: u64 = absorb(a1, first[1] as u64, TOP_CENTER_MULTIPLIER);
    let a3: u64 = absorb(a2, first[2] as u64, TOP_RIGHT_MULTIPLIER);
    let a4: u64 = absorb(a3, first[3] as u64, MIDDLE_LEFT_MULTIPLIER);
    let a5: u64 = absorb(a4, first[4] as u64, MIDDLE_CENTER_MULTIPLIER);
    let a6: u64 = absorb(a5, first[5] as u64, MIDDLE_RIGHT_MULTIPLIER);
    let a7: u64 = absorb(a6, first[6] as u64, BOTTOM_LEFT_MULTIPLIER);
    let a8: u64 = absorb(a7, first[7] as u64, BOTTOM_CENTER_MULTIPLIER);
    let b0: u64 = absorb(INITIAL_ACCUMULATOR, second_seed, SEED_MULTIPLIER);
    let b1: u64 = absorb(b0, second[0] as u64, TOP_LEFT_MULTIPLIER);
    let b2: u64 = absorb(b1, second[1] as u64, TOP_CENTER_MULTIPLIER);
    let b3: u64 = absorb(b2, second[2] as u64, TOP_RIGHT_MULTIPLIER);
    let b4: u64 = absorb(b3, second[3] as u64, MIDDLE_LEFT_MULTIPLIER);
    let b5: u64 = absorb(b4, second[4] as u64, MIDDLE_CENTER_MULTIPLIER);
    let b6: u64 = absorb(b5, second[5] as u64, MIDDLE_RIGHT_MULTIPLIER);
    let b7: u64 = absorb(b6, second[6] as u64, BOTTOM_LEFT_MULTIPLIER);
    let b8: u64 = absorb(b7, second[7] as u64, BOTTOM_CENTER_MULTIPLIER);
    lemma_absorb_injective(
        INITIAL_ACCUMULATOR,
        first_seed,
        INITIAL_ACCUMULATOR,
        second_seed,
        SEED_MULTIPLIER,
    );
    lemma_absorb_injective(a0, first[0] as u64, b0, second[0] as u64, TOP_LEFT_MULTIPLIER);
    lemma_absorb_injective(a1, first[1] as u64, b1, second[1] as u64, TOP_CENTER_MULTIPLIER);
    lemma_absorb_injective(a2, first[2] as u64, b2, second[2] as u64, TOP_RIGHT_MULTIPLIER);
    lemma_absorb_injective(a3, first[3] as u64, b3, second[3] as u64, MIDDLE_LEFT_MULTIPLIER);
    lemma_absorb_injective(a4, first[4] as u64, b4, second[4] as u64, MIDDLE_CENTER_MULTIPLIER);
    lemma_absorb_injective(a5, first[5] as u64, b5, second[5] as u64, MIDDLE_RIGHT_MULTIPLIER);
    lemma_absorb_injective(a6, first[6] as u64, b6, second[6] as u64, BOTTOM_LEFT_MULTIPLIER);
    lemma_absorb_injective(a7, first[7] as u64, b7, second[7] as u64, BOTTOM_CENTER_MULTIPLIER);
    lemma_absorb_injective(a8, first[8] as u64, b8, second[8] as u64, BOTTOM_RIGHT_MULTIPLIER);
}

/// Two different seeds never give one neighborhood the same signature.
pub proof fn lemma_seeds_separate_signatures(cells: Seq<u32>, first_seed: u64, second_seed: u64)
    requires
        first_seed != second_seed,
    ensures
        neighborhood_signature(cells, first_seed) != neighborhood_signature(cells, second_seed),
{
    lemma_one_difference_separates(cells, first_seed, cells, second_seed);
}

/// Two neighborhoods that differ in exactly one of their nine samples never
/// get the same signature under one seed.
pub proof fn lemma_single_sample_separates_signatures(
    first: Seq<u32>,
    second: Seq<u32>,
    position: int,
    seed: u64,
)
    requires
        0 <= position < 9,
        first[position] != second[position],
        forall|i: int| 0 <= i < 9 && i != position ==> first[i] == second[i],
    ensures
        neighborhood_signature(first, seed) != neighborhood_signature(second, seed),
{
    lemma_one_difference_separates(first, seed, second, seed);
}

} // verus!
