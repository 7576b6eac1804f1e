use crate::error::SwapError;
use crate::primitives::U256;
use std::collections::HashMap;
use uniswap_v3_math::error::UniswapV3MathError;
use vstd::arithmetic::power2::pow2;
use vstd::prelude::*;

verus! {

/// Whether bit `bit` of `word` is set.
pub open spec fn bit_is_set(word: nat, bit: int) -> bool {
    bit >= 0 && (word / pow2(bit as nat)) % 2 == 1
}

/// The word of the bitmap at position `position`: zero where the bitmap holds none.
pub open spec fn word_at(bitmap: Map<i16, U256>, position: int) -> nat {
    if bitmap.contains_key(position as i16) {
        bitmap[position as i16]@
    } else {
        0
    }
}

/// The highest set bit of `word` at or below `bit`, or -1 where there is none.
pub open spec fn highest_set_bit_upto(word: nat, bit: int) -> int
    decreases bit + 1,
{
    if bit < 0 {
        -1
    } else if bit_is_set(word, bit) {
        bit
    } else {
        highest_set_bit_upto(word, bit - 1)
    }
}

/// The lowest set bit of `word` at or above `bit` and below 256, or 256 where there is
/// none.
pub open spec fn lowest_set_bit_from(word: nat, bit: int) -> int
    decreases 256 - bit,
{
    if bit >= 256 {
        256
    } else if bit_is_set(word, bit) {
        bit
    } else {
        lowest_set_bit_from(word, bit + 1)
    }
}

/// The ticks from which the bitmap can be searched: the spacing is positive, the tick
/// and the one after it are signed 24-bit numbers, and every tick of the words searched
/// is a 32-bit number.
pub open spec fn navigable(tick: int, tick_spacing: int) -> bool {
    &&& tick_spacing >= 1
    &&& -0x80_0000 <= tick < 0x7f_ffff
    &&& i32::MIN <= tick - 256 * tick_spacing
    &&& tick + 256 * tick_spacing <= i32::MAX
}

/// The next initialized tick within one word of the bitmap, and whether there is one.
///
/// Ticks are counted in units of `tick_spacing`, rounded down; each unit has one bit, 256
/// units make a word. With `lte`, the search runs from the tick's own bit downwards to
/// the start of its word; otherwise from the bit after it upwards to the end of that
/// bit's word. Where no bit is set, the tick at the end of the search is returned.
pub open spec fn next_initialized_tick(
    bitmap: Map<i16, U256>,
    tick: int,
    tick_spacing: int,
    lte: bool,
) -> (int, bool) {
    let compressed = tick / tick_spacing;
    if lte {
        let bit = compressed % 256;
        let found = highest_set_bit_upto(word_at(bitmap, compressed / 256), bit);
        if found >= 0 {
            ((compressed - (bit - found)) * tick_spacing, true)
        } else {
            ((compressed - bit) * tick_spacing, false)
        }
    } else {
        let bit = (compressed + 1) % 256;
        let found = lowest_set_bit_from(word_at(bitmap, (compressed + 1) / 256), bit);
        if found < 256 {
            ((compressed + 1 + (found - bit)) * tick_spacing, true)
        } else {
            ((compressed + 1 + (255 - bit)) * tick_spacing, false)
        }
    }
}

/// Calls `uniswap_v3_math::tick_bitmap::next_initialized_tick_within_one_word` on a copy
/// of the bitmap.
///
/// That function rounds the tick down to a multiple of the spacing, masks the word of the
/// bitmap that holds the tick's bit (with `lte`) or the next bit (without) down to the
/// bits on the side searched, and returns the tick of the nearest set bit, or of the last
/// bit on that side where the masked word is zero. It fails only where it asks for a bit
/// of a zero word, which it never does.
#[verifier::external_body]
fn next_initialized_tick_call(
    tick_bitmap: &HashMap<i16, U256>,
    tick: i32,
    tick_spacing: i32,
    lte: bool,
) -> (r: Result<(i32, bool), UniswapV3MathError>)
    requires
        navigable(tick as int, tick_spacing as int),
    ensures
        r is Ok,
        (r->Ok_0.0 as int, r->Ok_0.1) == next_initialized_tick(
            tick_bitmap@,
            tick as int,
            tick_spacing as int,
            lte,
        ),
{
    let words: HashMap<i16, alloy::primitives::U256> = tick_bitmap.iter().map(
        |(position, word)| (*position, alloy::primitives::U256::from_limbs(word.limbs)),
    ).collect();
    uniswap_v3_math::tick_bitmap::next_initialized_tick_within_one_word(
        &words,
        tick,
        tick_spacing,
        lte,
    )
}

/// Calls `uniswap_v3_math::tick_bitmap::position`, which splits a tick counted in units
/// of the spacing into the position of its word, which is the tick shifted right by eight
/// bits and cut to 16 bits, and its bit in that word, which is the tick's lowest eight
/// bits.
#[verifier::external_body]
pub(crate) fn position(tick: i32) -> (r: (i16, u8))
    ensures
        r.0 == ((tick as int) / 256) as i16,
        r.1 == (tick as int) % 256,
{
    uniswap_v3_math::tick_bitmap::position(tick)
}

/// `highest_set_bit_upto` names a set bit at or below `bit` with no set bit between the
/// two, or -1 where no bit from 0 to `bit` is set.
pub proof fn lemma_highest_set_bit_upto(word: nat, bit: int)
    requires
        bit >= -1,
    ensures
        -1 <= highest_set_bit_upto(word, bit) <= bit,
        highest_set_bit_upto(word, bit) >= 0 ==> bit_is_set(
            word,
            highest_set_bit_upto(word, bit),
        ),
        forall|other: int|
            highest_set_bit_upto(word, bit) < other <= bit ==> !bit_is_set(word, other),
    decreases bit + 1,
{
    if bit >= 0 && !bit_is_set(word, bit) {
        lemma_highest_set_bit_upto(word, bit - 1);
    }
}

/// `lowest_set_bit_from` names a set bit at or above `bit` with no set bit between the
/// two, or 256 where no bit from `bit` to 255 is set.
pub proof fn lemma_lowest_set_bit_from(word: nat, bit: int)
    requires
        0 <= bit <= 256,
    ensures
        bit <= lowest_set_bit_from(word, bit) <= 256,
        lowest_set_bit_from(word, bit) < 256 ==> bit_is_set(word, lowest_set_bit_from(word, bit)),
        forall|other: int|
            bit <= other < lowest_set_bit_from(word, bit) ==> !bit_is_set(word, other),
    decreases 256 - bit,
{
    if bit < 256 && !bit_is_set(word, bit) {
        lemma_lowest_set_bit_from(word, bit + 1);
    }
}

/// The tick that is returned counts a whole number of spacings, and that number lies in
/// the word that was searched, on the side that was searched.
pub open spec fn within_searched_word(tick: int, tick_spacing: int, lte: bool, next: int) -> bool {
    let compressed = tick / tick_spacing;
    let unit = next / tick_spacing;
    &&& next == unit * tick_spacing
    &&& if lte {
        unit / 256 == compressed / 256 && unit <= compressed && next <= tick
    } else {
        unit / 256 == (compressed + 1) / 256 && unit > compressed && next > tick
    }
}

/// The tick that is returned is the last one of the word on the side that was searched:
/// its bit is the word's first with `lte`, the word's last without.
pub open spec fn at_word_boundary(tick_spacing: int, lte: bool, next: int) -> bool {
    (next / tick_spacing) % 256 == if lte {
        0int
    } else {
        255int
    }
}

/// The search never leaves the word it looks at: the tick it returns lies in that word, at
/// or below the tick with `lte` and above it without, is initialized where it is said to
/// be, and is the word's boundary tick where no bit was found. No bit between the tick
/// and the one returned is set.
pub proof fn lemma_next_initialized_tick(
    bitmap: Map<i16, U256>,
    tick: int,
    tick_spacing: int,
    lte: bool,
)
    requires
        tick_spacing >= 1,
    ensures
        ({
            let (next, initialized) = next_initialized_tick(bitmap, tick, tick_spacing, lte);
            let compressed = tick / tick_spacing;
            let word = word_at(
                bitmap,
                if lte {
                    compressed / 256
                } else {
                    (compressed + 1) / 256
                },
            );
            &&& within_searched_word(tick, tick_spacing, lte, next)
            &&& initialized ==> bit_is_set(word, (next / tick_spacing) % 256)
            &&& !initialized ==> at_word_boundary(tick_spacing, lte, next)
            &&& tick - 256 * tick_spacing < next <= tick + 256 * tick_spacing
            &&& forall|unit: int|
                (if lte {
                    next / tick_spacing < unit <= compressed
                } else {
                    compressed < unit < next / tick_spacing
                }) ==> !bit_is_set(word, #[trigger] (unit % 256))
            &&& !initialized ==> !bit_is_set(word, (next / tick_spacing) % 256)
        }),
{
    let (next, initialized) = next_initialized_tick(bitmap, tick, tick_spacing, lte);
    let compressed = tick / tick_spacing;
    vstd::arithmetic::div_mod::lemma_fundamental_div_mod(tick, tick_spacing);
    vstd::arithmetic::div_mod::lemma_mod_bound(tick, tick_spacing);
    if lte {
        let bit = compressed % 256;
        let word = word_at(bitmap, compressed / 256);
        let found = highest_set_bit_upto(word, bit);
        lemma_highest_set_bit_upto(word, bit);
        let unit = if found >= 0 {
            compressed - (bit - found)
        } else {
            compressed - bit
        };
        assert(next == unit * tick_spacing);
        vstd::arithmetic::div_mod::lemma_div_multiples_vanish(unit, tick_spacing);
        vstd::arithmetic::mul::lemma_mul_is_commutative(unit, tick_spacing);
        assert(next / tick_spacing == unit);
        assert(unit * tick_spacing <= compressed * tick_spacing && (compressed - 255)
            * tick_spacing <= unit * tick_spacing && (compressed - 255) * tick_spacing
            == compressed * tick_spacing - 255 * tick_spacing) by (nonlinear_arith)
            requires
                compressed - 255 <= unit <= compressed,
                tick_spacing >= 1,
        ;
        assert(compressed * tick_spacing == tick_spacing * compressed) by (nonlinear_arith);
        assert forall|other: int| unit < other <= compressed implies !bit_is_set(
            word,
            #[trigger] (other % 256),
        ) by {
            assert(other % 256 == bit - (compressed - other));
        }
    } else {
        let bit = (compressed + 1) % 256;
        let word = word_at(bitmap, (compressed + 1) / 256);
        let found = lowest_set_bit_from(word, bit);
        lemma_lowest_set_bit_from(word, bit);
        let unit = if found < 256 {
            compressed + 1 + (found - bit)
        } else {
            compressed + 1 + (255 - bit)
        };
        assert(next == unit * tick_spacing);
        vstd::arithmetic::div_mod::lemma_div_multiples_vanish(unit, tick_spacing);
        vstd::arithmetic::mul::lemma_mul_is_commutative(unit, tick_spacing);
        assert(next / tick_spacing == unit);
        assert((compressed + 1) * tick_spacing <= unit * tick_spacing && unit * tick_spacing <= (
        compressed + 256) * tick_spacing && (compressed + 256) * tick_spacing == compressed
            * tick_spacing + 256 * tick_spacing && (compressed + 1) * tick_spacing == compressed
            * tick_spacing + tick_spacing) by (nonlinear_arith)
            requires
                compressed + 1 <= unit <= compressed + 256,
                tick_spacing >= 1,
        ;
        assert(compressed * tick_spacing == tick_spacing * compressed) by (nonlinear_arith);
        assert forall|other: int| compressed < other < unit implies !bit_is_set(
            word,
            #[trigger] (other % 256),
        ) by {
            assert(other % 256 == bit + (other - (compressed + 1)));
        }
    }
}

/// The next initialized tick within one word of the bitmap: to the left of `tick` or at it
/// with `lte`, to its right without. Where the word holds none on that side, the tick at
/// the word's boundary comes back with `false`, so that a caller can go on from there.
pub fn next_initialized_tick_within_one_word(
    tick_bitmap: &HashMap<i16, U256>,
    tick: i32,
    tick_spacing: i32,
    lte: bool,
) -> (r: Result<(i32, bool), SwapError>)
    requires
        navigable(tick as int, tick_spacing as int),
    ensures
        r is Ok,
        (r->Ok_0.0 as int, r->Ok_0.1) == next_initialized_tick(
            tick_bitmap@,
            tick as int,
            tick_spacing as int,
            lte,
        ),
        within_searched_word(tick as int, tick_spacing as int, lte, r->Ok_0.0 as int),
        !r->Ok_0.1 ==> at_word_boundary(tick_spacing as int, lte, r->Ok_0.0 as int),
{
    proof {
        lemma_next_initialized_tick(tick_bitmap@, tick as int, tick_spacing as int, lte);
    }
    match next_initialized_tick_call(tick_bitmap, tick, tick_spacing, lte) {
        Ok(found) => Ok(found),
        Err(_) => Err(SwapError::TickOutOfRange),
    }
}

} // verus!
