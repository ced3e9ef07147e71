//! Single-bit reasoning about packed output words.

use vstd::prelude::*;

verus! {

/// Number of independently schedulable bits in one output word.
pub const OUTPUT_WORD_BITS: usize = 32;

/// The counter value after `value`, which starts over behind the last one.
pub open spec fn wrapping_next(value: u64) -> u64 {
    if value == u64::MAX {
        0
    } else {
        (value + 1) as u64
    }
}

/// Whether `bit` is set in `word`; no bit outside the word is.
pub open spec fn has_bit(word: u32, bit: int) -> bool {
    0 <= bit < 32 && (word >> (bit as u32)) & 1 == 1
}

/// The word whose set bits are the selected ones below `count`.
pub open spec fn word_of(selected: spec_fn(int) -> bool, count: nat) -> u32
    decreases count,
{
    if count == 0 {
        0
    } else {
        let below = word_of(selected, (count - 1) as nat);
        if selected(count - 1) {
            below | (1u32 << ((count - 1) as u32))
        } else {
            below
        }
    }
}

/// A single-bit mask test reads exactly that bit.
pub proof fn lemma_bit_mask_test(word: u32, bit: u32)
    requires
        bit < 32,
    ensures
        (word & (1u32 << bit) != 0) == has_bit(word, bit as int),
{
    assert((word & (1u32 << bit) != 0) == ((word >> bit) & 1 == 1)) by (bit_vector)
        requires
            bit < 32,
    ;
}

/// Adding one bit to a word changes that bit alone.
pub proof fn lemma_set_bit(word: u32, added: u32, bit: u32)
    requires
        added < 32,
        bit < 32,
    ensures
        has_bit(word | (1u32 << added), bit as int) == (bit == added || has_bit(word, bit as int)),
{
    assert(((word | (1u32 << added)) >> bit) & 1 == 1 <==> (bit == added || (word >> bit) & 1 == 1))
        by (bit_vector)
        requires
            added < 32,
            bit < 32,
    ;
}

/// Exclusive or acts on each bit by itself.
pub proof fn lemma_xor_bit(left: u32, right: u32, bit: u32)
    requires
        bit < 32,
    ensures
        has_bit(left ^ right, bit as int) == (has_bit(left, bit as int) != has_bit(
            right,
            bit as int,
        )),
{
    assert(((left ^ right) >> bit) & 1 == 1 <==> (((left >> bit) & 1 == 1) != ((right >> bit) & 1
        == 1))) by (bit_vector)
        requires
            bit < 32,
    ;
}

/// Or acts on each bit by itself.
pub proof fn lemma_or_bit(left: u32, right: u32, bit: u32)
    requires
        bit < 32,
    ensures
        has_bit(left | right, bit as int) == (has_bit(left, bit as int) || has_bit(
            right,
            bit as int,
        )),
{
    assert(((left | right) >> bit) & 1 == 1 <==> ((left >> bit) & 1 == 1 || (right >> bit) & 1
        == 1)) by (bit_vector)
        requires
            bit < 32,
    ;
}

/// The empty word leaves every word as it is.
pub proof fn lemma_empty_word_is_neutral(word: u32)
    ensures
        word | 0 == word,
        word ^ 0 == word,
        0 & word == 0,
{
    assert(word | 0 == word && word ^ 0 == word && 0 & word == 0) by (bit_vector);
}

/// The empty word has no bit and the full word has every bit.
pub proof fn lemma_empty_and_full_words(bit: int)
    requires
        0 <= bit < 32,
    ensures
        !has_bit(0, bit),
        has_bit(u32::MAX, bit),
{
    let position = bit as u32;
    assert((0u32 >> position) & 1 == 0 && (0xffff_ffffu32 >> position) & 1 == 1) by (bit_vector)
        requires
            position < 32,
    ;
}

/// Bits of a word inside `allowed` are bits of `allowed`.
pub proof fn lemma_bit_within(word: u32, allowed: u32, bit: int)
    requires
        word & !allowed == 0,
        has_bit(word, bit),
    ensures
        has_bit(allowed, bit),
{
    let position = bit as u32;
    assert((allowed >> position) & 1 == 1) by (bit_vector)
        requires
            word & !allowed == 0,
            (word >> position) & 1 == 1,
    ;
}

/// Nothing at all stays inside every mask, and so does a request for nothing.
pub proof fn lemma_nothing_is_within(allowed: u32, mask: u8)
    ensures
        (0u64 as u32) & !0x8000_0000u32 & !allowed == 0,
        0u32 & !allowed == 0,
        0u8 & !mask == 0,
{
    assert((0u64 as u32) & !0x8000_0000u32 & !allowed == 0 && 0u32 & !allowed == 0 && 0u8 & !mask
        == 0) by (bit_vector);
}

/// Words inside `allowed` combine to words inside `allowed`.
pub proof fn lemma_combined_words_stay_within(left: u32, right: u32, allowed: u32)
    requires
        left & !allowed == 0,
        right & !allowed == 0,
    ensures
        (left ^ right) & !allowed == 0,
        (left | right) & !allowed == 0,
{
    assert((left ^ right) & !allowed == 0 && (left | right) & !allowed == 0) by (bit_vector)
        requires
            left & !allowed == 0,
            right & !allowed == 0,
    ;
}

/// Two bytes are together inside `mask` exactly when each of them is.
pub proof fn lemma_byte_parts_within(left: u8, right: u8, mask: u8)
    ensures
        (left | right) & !mask == 0 <==> left & !mask == 0 && right & !mask == 0,
{
    assert(((left | right) & !mask == 0) == (left & !mask == 0 && right & !mask == 0))
        by (bit_vector);
}

/// Whether `pin` is selected in `mask`.
pub open spec fn has_pin(mask: u32, pin: u32) -> bool {
    (mask >> pin) & 1 == 1
}

/// A byte is inside a mask exactly when the mask has each of its eight pins.
pub proof fn lemma_pins_within(byte: u8, mask: u8)
    ensures
        byte & !mask == 0 <==> (forall|pin: u32|
            #![trigger has_pin(byte as u32, pin)]
            pin < 8 && has_pin(byte as u32, pin) ==> has_pin(mask as u32, pin)),
{
    let left = byte as u32;
    let right = mask as u32;
    assert((byte & !mask == 0) == (((left >> 0) & 1 == 1 ==> (right >> 0) & 1 == 1) && ((left >> 1)
        & 1 == 1 ==> (right >> 1) & 1 == 1) && ((left >> 2) & 1 == 1 ==> (right >> 2) & 1 == 1) && ((
    left >> 3) & 1 == 1 ==> (right >> 3) & 1 == 1) && ((left >> 4) & 1 == 1 ==> (right >> 4) & 1
        == 1) && ((left >> 5) & 1 == 1 ==> (right >> 5) & 1 == 1) && ((left >> 6) & 1 == 1 ==> (right
        >> 6) & 1 == 1) && ((left >> 7) & 1 == 1 ==> (right >> 7) & 1 == 1))) by (bit_vector)
        requires
            left == byte as u32,
            right == mask as u32,
    ;
    if forall|pin: u32|
        #![trigger has_pin(byte as u32, pin)]
        pin < 8 && has_pin(byte as u32, pin) ==> has_pin(mask as u32, pin) {
        assert(has_pin(left, 0) ==> has_pin(right, 0));
        assert(has_pin(left, 1) ==> has_pin(right, 1));
        assert(has_pin(left, 2) ==> has_pin(right, 2));
        assert(has_pin(left, 3) ==> has_pin(right, 3));
        assert(has_pin(left, 4) ==> has_pin(right, 4));
        assert(has_pin(left, 5) ==> has_pin(right, 5));
        assert(has_pin(left, 6) ==> has_pin(right, 6));
        assert(has_pin(left, 7) ==> has_pin(right, 7));
    }
}

/// `word_of` selects exactly the bits it was asked for.
pub proof fn lemma_word_of_bit(selected: spec_fn(int) -> bool, count: nat, bit: int)
    requires
        count <= 32,
        0 <= bit < 32,
    ensures
        has_bit(word_of(selected, count), bit) == (bit < count && selected(bit)),
    decreases count,
{
    if count == 0 {
        lemma_empty_and_full_words(bit);
    } else {
        lemma_word_of_bit(selected, (count - 1) as nat, bit);
        lemma_set_bit(
            word_of(selected, (count - 1) as nat),
            (count - 1) as u32,
            bit as u32,
        );
    }
}

/// Selecting nothing yields the empty word.
pub proof fn lemma_word_of_none(selected: spec_fn(int) -> bool, count: nat)
    requires
        forall|bit: int| 0 <= bit < count ==> !#[trigger] selected(bit),
    ensures
        word_of(selected, count) == 0,
    decreases count,
{
    if count > 0 {
        lemma_word_of_none(selected, (count - 1) as nat);
    }
}

/// A word built from bits of `allowed` stays inside `allowed`.
pub proof fn lemma_word_of_within(selected: spec_fn(int) -> bool, count: nat, allowed: u32)
    requires
        count <= 32,
        forall|bit: int| 0 <= bit < count && #[trigger] selected(bit) ==> has_bit(allowed, bit),
    ensures
        word_of(selected, count) & !allowed == 0,
    decreases count,
{
    if count == 0 {
        lemma_empty_word_is_neutral(!allowed);
    } else {
        lemma_word_of_within(selected, (count - 1) as nat, allowed);
        let below = word_of(selected, (count - 1) as nat);
        let position = (count - 1) as u32;
        if selected(count - 1) {
            assert((below | (1u32 << position)) & !allowed == 0) by (bit_vector)
                requires
                    position < 32,
                    below & !allowed == 0,
                    (allowed >> position) & 1 == 1,
            ;
        }
    }
}

} // verus!
