//! What a radio on the other end of the RTX lines sees.

use vstd::prelude::*;

#[allow(unused_imports)]
use crate::bits::{has_bit, lemma_empty_and_full_words};
#[allow(unused_imports)]
use crate::rtx::{
    initial_settle, lemma_lines_low, lines_low, program_steps, serial_data, synthesizer_frequency,
    word_step, word_steps, words_for, ControlStep, RtxWords, RTX_CLOCK_MASK, RTX_CONTROL_MASK,
    RTX_DATA_MASK, RTX_ENABLE_MASK, RTX_LATER_SETTLE, RTX_TRANSMIT_MASK, RTX_TRANSMIT_POWER_MASK,
};

verus! {

/// A serial register as the data pins drive it: it shifts on a rising clock and latches its
/// twenty low bits on a rising enable.
pub struct RtxReceiver {
    /// Level of the clock line.
    pub clock: bool,
    /// Level of the enable line.
    pub enable: bool,
    /// All bits shifted in so far, the newest lowest.
    pub shifted: int,
    /// The last latched register value.
    pub latched: Option<int>,
}

impl RtxReceiver {
    /// The register after the pins took a new value.
    pub open spec fn after(self, data: u8) -> Self {
        let clock = data & RTX_CLOCK_MASK != 0;
        let enable = data & RTX_ENABLE_MASK != 0;
        let shifted = if clock && !self.clock {
            2 * self.shifted + (if data & RTX_DATA_MASK != 0 {
                1int
            } else {
                0int
            })
        } else {
            self.shifted
        };
        RtxReceiver {
            clock,
            enable,
            shifted,
            latched: if enable && !self.enable {
                Some(shifted % 0x10_0000)
            } else {
                self.latched
            },
        }
    }

    /// The register after the first `count` steps.
    pub open spec fn after_steps(self, steps: Seq<ControlStep>, count: nat) -> Self
        decreases count,
    {
        if count == 0 {
            self
        } else {
            self.after_steps(steps, (count - 1) as nat).after(steps[count - 1].data)
        }
    }
}

/// `start` with the `count` most significant of the twenty low bits of `word` shifted in.
pub open spec fn shifted_in(start: int, word: u32, count: nat) -> int
    decreases count,
{
    if count == 0 {
        start
    } else {
        2 * shifted_in(start, word, (count - 1) as nat) + (if has_bit(word, 20 - count) {
            1int
        } else {
            0int
        })
    }
}

/// What each line reads like above a byte that has the protocol lines low.
proof fn lemma_line_levels(base: u8)
    requires
        base & RTX_CONTROL_MASK == 0,
    ensures
        base & RTX_CLOCK_MASK == 0 && base & RTX_DATA_MASK == 0 && base & RTX_ENABLE_MASK == 0,
        (base | RTX_DATA_MASK) & RTX_CLOCK_MASK == 0 && (base | RTX_DATA_MASK) & RTX_DATA_MASK != 0
            && (base | RTX_DATA_MASK) & RTX_ENABLE_MASK == 0,
        (base | RTX_CLOCK_MASK) & RTX_CLOCK_MASK != 0 && (base | RTX_CLOCK_MASK) & RTX_DATA_MASK
            == 0 && (base | RTX_CLOCK_MASK) & RTX_ENABLE_MASK == 0,
        ((base | RTX_DATA_MASK) | RTX_CLOCK_MASK) & RTX_CLOCK_MASK != 0 && ((base | RTX_DATA_MASK)
            | RTX_CLOCK_MASK) & RTX_DATA_MASK != 0 && ((base | RTX_DATA_MASK) | RTX_CLOCK_MASK)
            & RTX_ENABLE_MASK == 0,
        (base | RTX_ENABLE_MASK) & RTX_CLOCK_MASK == 0 && (base | RTX_ENABLE_MASK) & RTX_ENABLE_MASK
            != 0,
{
    assert(base & 1 == 0 && base & 2 == 0 && base & 4 == 0 && (base | 2) & 1 == 0 && (base | 2) & 2
        != 0 && (base | 2) & 4 == 0 && (base | 1) & 1 != 0 && (base | 1) & 2 == 0 && (base | 1) & 4
        == 0 && ((base | 2) | 1) & 1 != 0 && ((base | 2) | 1) & 2 != 0 && ((base | 2) | 1) & 4 == 0
        && (base | 4) & 1 == 0 && (base | 4) & 4 != 0) by (bit_vector)
        requires
            base & 0x1f == 0,
    ;
}

/// After the reset and `count` complete bits, the lines are low and those bits are in.
proof fn lemma_bits_are_shifted(
    receiver: RtxReceiver,
    base: u8,
    word: u32,
    settle: u32,
    count: nat,
)
    requires
        base & RTX_CONTROL_MASK == 0,
        count <= 20,
    ensures
        ({
            let seen = receiver.after_steps(word_steps(base, word, settle), 1 + 3 * count);
            &&& !seen.clock
            &&& !seen.enable
            &&& seen.shifted == shifted_in(receiver.shifted, word, count)
            &&& seen.latched == receiver.latched
        }),
    decreases count,
{
    reveal_with_fuel(RtxReceiver::after_steps, 4);
    lemma_line_levels(base);
    let steps = word_steps(base, word, settle);
    if count > 0 {
        lemma_bits_are_shifted(receiver, base, word, settle, (count - 1) as nat);
        let first = 3 * count - 2;
        assert(steps[first].data == serial_data(base, word, count - 1));
        assert(steps[first + 1].data == serial_data(base, word, count - 1) | RTX_CLOCK_MASK);
        assert(steps[first + 2].data == serial_data(base, word, count - 1));
    }
}

/// Shifting in the leading bits of a word adds them to what zeros alone would give.
proof fn lemma_leading_bits(start: int, word: u32, count: nat)
    requires
        count <= 20,
    ensures
        shifted_in(start, word, count) == shifted_in(start, 0, count) + ((word & 0xf_ffff) >> ((20
            - count) as u32)),
    decreases count,
{
    if count == 0 {
        assert((word & 0xf_ffff) >> 20 == 0) by (bit_vector);
    } else {
        lemma_leading_bits(start, word, (count - 1) as nat);
        lemma_empty_and_full_words(20 - count);
        let position = (20 - count) as u32;
        let above = (21 - count) as u32;
        assert((word & 0xf_ffff) >> position == 2 * ((word & 0xf_ffff) >> above) + ((word
            >> position) & 1) && (word >> position) & 1 <= 1) by (bit_vector)
            requires
                position < 20,
                above == position + 1,
        ;
    }
}

/// Twenty bits shifted in are the twenty low bits of the word.
proof fn lemma_all_bits_are_the_word(start: int, word: u32)
    ensures
        shifted_in(start, word, 20) % 0x10_0000 == word & 0xf_ffff,
{
    lemma_leading_bits(start, word, 20);
    assert((word & 0xf_ffff) >> 0 == word & 0xf_ffff && word & 0xf_ffff < 0x10_0000) by (bit_vector);
    assert(shifted_in(start, 0, 20) == 0x10_0000 * start) by {
        reveal_with_fuel(shifted_in, 21);
        assert forall|bit: int| 0 <= bit < 20 implies !has_bit(0, bit) by {
            lemma_empty_and_full_words(bit);
        }
    }
}

/// The serial steps of a word make the radio latch exactly the twenty low bits of that word,
/// whatever its register held before.
pub proof fn law_radio_latches_the_shifted_word(
    receiver: RtxReceiver,
    output: u8,
    word: u32,
    settle: u32,
)
    ensures
        receiver.after_steps(word_steps(lines_low(output), word, settle), 64).latched == Some(
            (word & 0xf_ffff) as int,
        ),
{
    let base = lines_low(output);
    let steps = word_steps(base, word, settle);
    lemma_lines_low(output);
    lemma_line_levels(base);
    lemma_bits_are_shifted(receiver, base, word, settle, 20);
    lemma_all_bits_are_the_word(receiver.shifted, word);
    assert(receiver.after_steps(steps, 62) == receiver.after_steps(steps, 61).after(
        steps[61].data,
    ));
    assert(receiver.after_steps(steps, 63) == receiver.after_steps(steps, 62).after(
        steps[62].data,
    ));
    assert(receiver.after_steps(steps, 64) == receiver.after_steps(steps, 63).after(
        steps[63].data,
    ));
}

/// Steps behind others act on the register that those left.
proof fn lemma_steps_in_turn(
    receiver: RtxReceiver,
    first: Seq<ControlStep>,
    second: Seq<ControlStep>,
    count: nat,
)
    requires
        count <= second.len(),
    ensures
        receiver.after_steps(first + second, first.len() + count) == receiver.after_steps(
            first,
            first.len(),
        ).after_steps(second, count),
    decreases count,
{
    if count == 0 {
        lemma_leading_steps(receiver, first, second, first.len());
    } else {
        lemma_steps_in_turn(receiver, first, second, (count - 1) as nat);
    }
}

/// Steps that follow do not change what the leading ones do.
proof fn lemma_leading_steps(
    receiver: RtxReceiver,
    first: Seq<ControlStep>,
    second: Seq<ControlStep>,
    count: nat,
)
    requires
        count <= first.len(),
    ensures
        receiver.after_steps(first + second, count) == receiver.after_steps(first, count),
    decreases count,
{
    if count > 0 {
        lemma_leading_steps(receiver, first, second, (count - 1) as nat);
    }
}

/// Programming makes the radio latch the reference word first and the synthesizer word behind it,
/// which it still holds when the transmitter is keyed.
pub proof fn law_programming_latches_both_words(
    receiver: RtxReceiver,
    output: u8,
    words: RtxWords,
    initialized: bool,
    transmitting: bool,
)
    ensures
        ({
            let steps = program_steps(output, words, initialized, transmitting);
            &&& receiver.after_steps(steps, 64).latched == Some((words.reference & 0xf_ffff) as int)
            &&& receiver.after_steps(steps, 129).latched == Some(
                (words.synthesizer & 0xf_ffff) as int,
            )
        }),
{
    let base = lines_low(output);
    let steps = program_steps(output, words, initialized, transmitting);
    let reference = word_steps(base, words.reference, initial_settle(initialized));
    let synthesizer = word_steps(base, words.synthesizer, RTX_LATER_SETTLE);
    let last = seq![steps[128]];
    let middle = receiver.after_steps(reference, 64);
    lemma_lines_low(output);
    law_radio_latches_the_shifted_word(
        receiver,
        output,
        words.reference,
        initial_settle(initialized),
    );
    law_radio_latches_the_shifted_word(middle, output, words.synthesizer, RTX_LATER_SETTLE);
    assert(steps =~= reference + (synthesizer + last));
    lemma_leading_steps(receiver, reference, synthesizer + last, 64);
    lemma_steps_in_turn(receiver, reference, synthesizer + last, 65);
    lemma_leading_steps(middle, synthesizer, last, 64);
    assert(middle.after_steps(synthesizer + last, 65) == middle.after_steps(
        synthesizer + last,
        64,
    ).after(steps[128].data));
    assert(base & 4 == 0 && (base | 8) & 4 == 0) by (bit_vector)
        requires
            base & 0x1f == 0,
    ;
}

/// Bits arrive most significant first: the value of each is on the data line before, while and
/// after its clock pulse.
pub proof fn law_bits_are_sent_most_significant_first(
    output: u8,
    word: u32,
    settle: u32,
    position: int,
)
    requires
        0 <= position < 20,
    ensures
        ({
            let steps = word_steps(lines_low(output), word, settle);
            let first = 1 + 3 * position;
            &&& (steps[first].data & RTX_DATA_MASK != 0) == has_bit(word, 19 - position)
            &&& (steps[first + 1].data & RTX_DATA_MASK != 0) == has_bit(word, 19 - position)
            &&& (steps[first + 2].data & RTX_DATA_MASK != 0) == has_bit(word, 19 - position)
            &&& steps[first].data & RTX_CLOCK_MASK == 0
            &&& steps[first + 1].data & RTX_CLOCK_MASK != 0
            &&& steps[first + 2].data & RTX_CLOCK_MASK == 0
        }),
{
    lemma_lines_low(output);
    lemma_line_levels(lines_low(output));
}

/// Only the reset waits for the initial settling interval; every other wait is a single one.
pub proof fn law_settling_intervals(output: u8, word: u32, settle: u32, index: int)
    requires
        0 <= index < 64,
    ensures
        word_steps(lines_low(output), word, settle)[index].settle == (if index == 0 {
            Some(settle)
        } else if index == 61 || index == 63 {
            None
        } else {
            Some(1u32)
        }),
{
}

/// The divider that a synthesizer word carries: the word without the zero above its seven low
/// bits, halved.
pub open spec fn carried_divider(word: u32) -> int {
    ((word / 256) * 128 + word % 128) / 2
}

/// The synthesizer word tunes to the transmit frequency while transmitting, and below the receive
/// frequency by the intermediate frequency of the band while receiving: its divider counts the
/// whole steps of the band in that frequency. Above 200 MHz a step is 12.5 kHz and the
/// intermediate frequency 21.4 MHz; otherwise they are 5 kHz and 10.7 MHz.
///
/// A receive frequency below the intermediate frequency wraps around at thirty-two bits.
pub proof fn law_synthesizer_is_tuned(rx_frequency_hz: u32, tx_frequency_hz: u32, transmitting: bool)
    ensures
        ({
            let words = words_for(rx_frequency_hz, tx_frequency_hz, transmitting);
            let divider = carried_divider(words.synthesizer);
            let upper = rx_frequency_hz > 200_000_000;
            let step: int = if upper {
                12_500
            } else {
                5_000
            };
            let intermediate: int = if upper {
                21_400_000
            } else {
                10_700_000
            };
            &&& words.synthesizer % 256 < 128
            &&& words.synthesizer % 2 == 0
            &&& transmitting ==> step * divider <= tx_frequency_hz < step * (divider + 1)
            &&& !transmitting && rx_frequency_hz >= intermediate ==> step * divider
                <= rx_frequency_hz - intermediate < step * (divider + 1)
            &&& !transmitting && rx_frequency_hz < intermediate ==> step * divider <= rx_frequency_hz
                - intermediate + 0x1_0000_0000 < step * (divider + 1)
        }),
{
    let words = words_for(rx_frequency_hz, tx_frequency_hz, transmitting);
    let step: int = if rx_frequency_hz > 200_000_000 {
        12_500
    } else {
        5_000
    };
    let frequency = synthesizer_frequency(rx_frequency_hz, tx_frequency_hz, transmitting);
    let quotient = frequency / step;
    assert(0 <= quotient <= 858_993);
    let doubled = 2 * quotient;
    assert(words.synthesizer == (doubled / 128) * 256 + doubled % 128);
    assert(carried_divider(words.synthesizer) == quotient);
}

/// The reference word is fixed by the band: the reference divider doubled, with its low bit set.
/// It does not depend on what is transmitted, and on the receive frequency only through the band.
pub proof fn law_reference_divides_down_to_the_step(
    rx_frequency_hz: u32,
    tx_frequency_hz: u32,
    transmitting: bool,
)
    ensures
        ({
            let words = words_for(rx_frequency_hz, tx_frequency_hz, transmitting);
            &&& words.reference % 2 == 1
            &&& rx_frequency_hz > 200_000_000 ==> (words.reference / 2) * 12_500 == 16_012_500
            &&& rx_frequency_hz <= 200_000_000 ==> (words.reference / 2) * 5_000 == 16_000_000
        }),
{
}

/// While transmitting, receive frequencies of one band give the same words; while receiving, the
/// transmit frequency plays no part.
pub proof fn law_words_depend_on_the_active_frequency(
    rx_frequency_hz: u32,
    other_rx_frequency_hz: u32,
    tx_frequency_hz: u32,
    other_tx_frequency_hz: u32,
)
    ensures
        (rx_frequency_hz > 200_000_000) == (other_rx_frequency_hz > 200_000_000) ==> words_for(
            rx_frequency_hz,
            tx_frequency_hz,
            true,
        ) == words_for(other_rx_frequency_hz, tx_frequency_hz, true),
        words_for(rx_frequency_hz, tx_frequency_hz, false) == words_for(
            rx_frequency_hz,
            other_tx_frequency_hz,
            false,
        ),
{
}

/// A frequency selection programs its own words: the reference word behind the long settling
/// interval of a process that has not shifted a word yet and the short one otherwise, the
/// synthesizer word behind the short one.
pub proof fn law_programming_settles_in_front_of_each_word(
    output: u8,
    words: RtxWords,
    initialized: bool,
    transmitting: bool,
    index: int,
)
    requires
        0 <= index < 129,
    ensures
        ({
            let settle = program_steps(output, words, initialized, transmitting)[index].settle;
            &&& index == 0 ==> settle == Some(if initialized { 4u32 } else { 200u32 })
            &&& index == 64 ==> settle == Some(4u32)
            &&& index == 61 || index == 63 || index == 125 || index == 127 || index == 128
                ==> settle is None
            &&& !(index == 0 || index == 64 || index == 61 || index == 63 || index == 125 || index
                == 127 || index == 128) ==> settle == Some(1u32)
        }),
{
}

/// The protocol lines are the five low data pins: clock, data, enable, transmit and power, in this
/// order.
pub proof fn law_line_order(pins: u8)
    ensures
        pins & RTX_CLOCK_MASK == pins & 0x01,
        pins & RTX_DATA_MASK == pins & 0x02,
        pins & RTX_ENABLE_MASK == pins & 0x04,
        pins & RTX_TRANSMIT_MASK == pins & 0x08,
        pins & RTX_TRANSMIT_POWER_MASK == pins & 0x10,
        pins & RTX_CONTROL_MASK == pins & 0x1f,
{
}

/// One programming step keeps every other pin, never raises the power line and keys the
/// transmitter at the very end, if at all.
pub proof fn law_programming_keeps_other_pins_and_power_low(
    output: u8,
    words: RtxWords,
    initialized: bool,
    transmitting: bool,
    index: int,
)
    requires
        0 <= index < 129,
    ensures
        ({
            let steps = program_steps(output, words, initialized, transmitting);
            let data = steps[index].data;
            &&& steps.len() == 129
            &&& data & !RTX_CONTROL_MASK == output & !RTX_CONTROL_MASK
            &&& data & RTX_TRANSMIT_POWER_MASK == 0
            &&& (data & RTX_TRANSMIT_MASK != 0) == (index == 128 && transmitting)
        }),
{
    lemma_lines_low(output);
    let base = lines_low(output);
    let data = program_steps(output, words, initialized, transmitting)[index].data;
    assert(base & 0x10 == 0 && base & 0x08 == 0 && (base | 1) & !0x1fu8 == base & !0x1fu8 && (base
        | 2) & !0x1fu8 == base & !0x1fu8 && (base | 4) & !0x1fu8 == base & !0x1fu8 && (base | 8)
        & !0x1fu8 == base & !0x1fu8 && (base | 1) & 0x18 == 0 && (base | 2) & 0x18 == 0 && (base
        | 4) & 0x18 == 0 && (base | 8) & 0x10 == 0 && (base | 8) & 0x08 != 0 && ((base | 2) | 1)
        & !0x1fu8 == base & !0x1fu8 && ((base | 2) | 1) & 0x18 == 0 && base & 0x18 == 0 && (data
        & 0x18 == 0 ==> data & 0x10 == 0 && data & 0x08 == 0)) by (bit_vector)
        requires
            base & 0x1f == 0,
    ;
    if index < 64 {
        assert(data == word_step(base, words.reference, initial_settle(initialized), index).data);
    } else if index < 128 {
        assert(data == word_step(base, words.synthesizer, RTX_LATER_SETTLE, index - 64).data);
    }
}

} // verus!
