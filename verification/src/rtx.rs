//! The RTX two-word serial programming protocol on parallel data pins.

use vstd::prelude::*;

#[allow(unused_imports)]
use crate::bits::{has_bit, lemma_bit_mask_test};

verus! {

/// Number of serial bits in each RTX programming register.
pub const RTX_REGISTER_BITS: u32 = 20;

/// Busy-spin iterations in one RTX hardware-settling interval.
pub const RTX_BIT_TIME_ITERATIONS: u64 = 100_000;

/// Data bit used as the RTX serial clock.
pub const RTX_CLOCK_MASK: u8 = 0x01;

/// Data bit carrying the RTX serial value.
pub const RTX_DATA_MASK: u8 = 0x02;

/// Data bit that latches one shifted RTX word.
pub const RTX_ENABLE_MASK: u8 = 0x04;

/// Data bit that keys the RTX transmitter.
pub const RTX_TRANSMIT_MASK: u8 = 0x08;

/// Data bit reserved for RTX transmit power and held low.
pub const RTX_TRANSMIT_POWER_MASK: u8 = 0x10;

/// RTX protocol lines, which are reset before every serial word.
pub const RTX_CONTROL_MASK: u8 = 0x1f;

/// Settling multiplier in front of the first serial word of a process.
pub const RTX_FIRST_SETTLE: u32 = 200;

/// Settling multiplier in front of every later serial word.
pub const RTX_LATER_SETTLE: u32 = 4;

/// The two RTX serial words for one selected receive or transmit frequency.
#[derive(Clone, Copy, Debug, PartialEq, Eq, Structural)]
pub struct RtxWords {
    /// Reference-divider word shifted before the synthesizer word.
    pub reference: u32,
    /// Synthesizer word for the selected receive or transmit frequency.
    pub synthesizer: u32,
}

/// One data byte to write, and how long the hardware settles behind it.
#[derive(Clone, Copy, Debug, PartialEq, Eq, Structural)]
pub struct ControlStep {
    /// Complete data-register byte.
    pub data: u8,
    /// Settling multiplier behind a successful write, if the protocol asks for one.
    pub settle: Option<u32>,
}

/// Whether any RTX word has been shifted in this process.
#[derive(Clone, Copy, Debug)]
pub struct RtxSerialState {
    /// Set by the first serial word.
    pub initialized: bool,
}

/// Reference, step and receiver intermediate frequency of the band that receives on `rx`.
pub open spec fn band_plan(rx_frequency_hz: u32) -> (u32, u32, u32) {
    if rx_frequency_hz > 200_000_000 {
        (16_012_500, 12_500, 21_400_000)
    } else {
        (16_000_000, 5_000, 10_700_000)
    }
}

/// The frequency that the synthesizer is tuned to.
///
/// A receive frequency below the intermediate frequency wraps around.
pub open spec fn synthesizer_frequency(
    rx_frequency_hz: u32,
    tx_frequency_hz: u32,
    transmitting: bool,
) -> int {
    let intermediate = band_plan(rx_frequency_hz).2;
    if transmitting {
        tx_frequency_hz as int
    } else if rx_frequency_hz >= intermediate {
        rx_frequency_hz - intermediate
    } else {
        rx_frequency_hz - intermediate + 0x1_0000_0000
    }
}

/// The serial words for one frequency selection.
///
/// Twice the divider of each register is sent, the reference with its low bit set, the
/// synthesizer with a zero above its seven low bits.
pub open spec fn words_for(rx_frequency_hz: u32, tx_frequency_hz: u32, transmitting: bool) -> RtxWords {
    let (reference, step, intermediate) = band_plan(rx_frequency_hz);
    let divider = 2 * (synthesizer_frequency(rx_frequency_hz, tx_frequency_hz, transmitting)
        / step as int);
    RtxWords {
        reference: (2 * (reference / step) + 1) as u32,
        synthesizer: ((divider / 128) * 256 + divider % 128) as u32,
    }
}

/// Calculate the RTX serial words without performing hardware I/O.
pub fn rtx_words(rx_frequency_hz: u32, tx_frequency_hz: u32, transmitting: bool) -> (words:
    RtxWords)
    ensures
        words == words_for(rx_frequency_hz, tx_frequency_hz, transmitting),
{
    let (reference_frequency_hz, step_frequency_hz, receiver_if_frequency_hz): (u32, u32, u32) =
        if rx_frequency_hz > 200_000_000 {
        (16_012_500, 12_500, 21_400_000)
    } else {
        (16_000_000, 5_000, 10_700_000)
    };
    let synthesizer_frequency_hz: u32 = if transmitting {
        tx_frequency_hz
    } else {
        rx_frequency_hz.wrapping_sub(receiver_if_frequency_hz)
    };
    let divider: u32 = synthesizer_frequency_hz / step_frequency_hz;
    let reference_divider: u32 = reference_frequency_hz / step_frequency_hz;
    assert(divider <= 858_993 && reference_divider <= 3_200);
    let word: u32 = divider << 1;
    proof {
        assert(word == 2 * divider && (word & 0xffff_ff80) << 1 == (word / 128) * 256 && word & 0x7f
            == word % 128 && (reference_divider << 1) | 1 == 2 * reference_divider + 1)
            by (bit_vector)
            requires
                word == divider << 1,
                divider <= 858_993,
                reference_divider <= 3_200,
        ;
    }
    RtxWords {
        reference: (reference_divider << 1) | 1,
        synthesizer: ((word & 0xffff_ff80) << 1) + (word & 0x7f),
    }
}

/// The settling multiplier in front of a serial word.
pub open spec fn initial_settle(initialized: bool) -> u32 {
    if initialized {
        RTX_LATER_SETTLE
    } else {
        RTX_FIRST_SETTLE
    }
}

/// Return the long initial or short subsequent serial-settling delay multiplier.
pub fn rtx_initial_delay_multiplier(state: &mut RtxSerialState) -> (multiplier: u32)
    ensures
        multiplier == initial_settle(old(state).initialized),
        final(state).initialized,
{
    rtx_initial_delay_multiplier_for(&mut state.initialized)
}

/// Return one serial-settling delay multiplier from a supplied protocol state.
pub fn rtx_initial_delay_multiplier_for(initialized: &mut bool) -> (multiplier: u32)
    ensures
        multiplier == initial_settle(*old(initialized)),
        *final(initialized),
{
    let before: bool = *initialized;
    *initialized = true;
    if before {
        RTX_LATER_SETTLE
    } else {
        RTX_FIRST_SETTLE
    }
}

/// `std::hint::spin_loop` tells the processor that it is in a busy-wait; nothing is claimed of it.
pub assume_specification[ std::hint::spin_loop ]();

/// Busy-spin for one settling interval times `multiplier`, outside real-time audio.
///
/// Returns the number of iterations spun.
pub fn rtx_delay(multiplier: u32) -> (iterations: u64)
    ensures
        iterations == RTX_BIT_TIME_ITERATIONS * multiplier,
{
    let total: u64 = RTX_BIT_TIME_ITERATIONS * multiplier as u64;
    let mut iterations: u64 = 0;
    while iterations < total
        invariant
            iterations <= total,
        decreases total - iterations,
    {
        std::hint::spin_loop();
        iterations += 1;
    }
    iterations
}

/// The data byte with the RTX protocol lines low.
pub open spec fn lines_low(output: u8) -> u8 {
    output & !RTX_CONTROL_MASK
}

/// The data byte while the serial value is bit `19 - position` of `word`.
pub open spec fn serial_data(base: u8, word: u32, position: int) -> u8 {
    if has_bit(word, 19 - position) {
        base | RTX_DATA_MASK
    } else {
        base
    }
}

/// One step of shifting and latching `word`: reset, then for each bit from the most significant
/// down its value, its value with the clock high and its value again, then the enable pulse.
pub open spec fn word_step(base: u8, word: u32, settle: u32, index: int) -> ControlStep {
    if index == 0 {
        ControlStep { data: base, settle: Some(settle) }
    } else if index <= 60 {
        let data = serial_data(base, word, (index - 1) / 3);
        ControlStep {
            data: if (index - 1) % 3 == 1 {
                data | RTX_CLOCK_MASK
            } else {
                data
            },
            settle: Some(1),
        }
    } else if index == 62 {
        ControlStep { data: base | RTX_ENABLE_MASK, settle: Some(1) }
    } else {
        ControlStep { data: base, settle: None }
    }
}

/// All steps of shifting and latching `word`.
pub open spec fn word_steps(base: u8, word: u32, settle: u32) -> Seq<ControlStep> {
    Seq::new(64, |index: int| word_step(base, word, settle, index))
}

/// How the protocol lines combine above a byte that has them low.
proof fn lemma_line_bits(base: u8)
    requires
        base & RTX_CONTROL_MASK == 0,
    ensures
        base & !RTX_DATA_MASK == base,
        (base | RTX_DATA_MASK) & !RTX_DATA_MASK == base,
        (base | RTX_DATA_MASK) | RTX_DATA_MASK == base | RTX_DATA_MASK,
        (base | RTX_CLOCK_MASK) & !RTX_CLOCK_MASK == base,
        ((base | RTX_DATA_MASK) | RTX_CLOCK_MASK) & !RTX_CLOCK_MASK == base | RTX_DATA_MASK,
        base & !(RTX_CLOCK_MASK | RTX_DATA_MASK) == base,
        (base | RTX_DATA_MASK) & !(RTX_CLOCK_MASK | RTX_DATA_MASK) == base,
        (base | RTX_ENABLE_MASK) & !RTX_ENABLE_MASK == base,
{
    assert(base & !0x02u8 == base && (base | 0x02) & !0x02u8 == base && (base | 0x02) | 0x02 == base
        | 0x02 && (base | 0x01) & !0x01u8 == base && ((base | 0x02) | 0x01) & !0x01u8 == base | 0x02
        && base & !(0x01u8 | 0x02u8) == base && (base | 0x02) & !(0x01u8 | 0x02u8) == base && (base
        | 0x04) & !0x04u8 == base) by (bit_vector)
        requires
            base & 0x1f == 0,
    ;
}

/// Resetting the protocol lines leaves them low and every other bit alone.
pub proof fn lemma_lines_low(output: u8)
    ensures
        lines_low(output) & RTX_CONTROL_MASK == 0,
        lines_low(lines_low(output)) == lines_low(output),
        lines_low(output) & !RTX_CONTROL_MASK == output & !RTX_CONTROL_MASK,
{
    assert((output & !0x1fu8) & 0x1f == 0 && (output & !0x1fu8) & !0x1fu8 == output & !0x1fu8)
        by (bit_vector);
}

/// Prepare the writes that shift and latch one 20-bit RTX word, most-significant bit first.
pub fn rtx_shift_word(output: &mut u8, word: u32, initial_delay_multiplier: u32) -> (steps: Vec<
    ControlStep,
>)
    ensures
        steps@ == word_steps(lines_low(*old(output)), word, initial_delay_multiplier),
        *final(output) == lines_low(*old(output)),
{
    let mut steps: Vec<ControlStep> = Vec::new();
    *output = *output & !RTX_CONTROL_MASK;
    let ghost base = *output;
    let ghost target = word_steps(base, word, initial_delay_multiplier);
    proof {
        lemma_lines_low(*old(output));
        lemma_line_bits(base);
    }
    steps.push(ControlStep { data: *output, settle: Some(initial_delay_multiplier) });
    let mut bit_index: u32 = RTX_REGISTER_BITS;
    while bit_index > 0
        invariant
            bit_index <= 20,
            base & RTX_CONTROL_MASK == 0,
            *output == base || *output == base | RTX_DATA_MASK,
            target == word_steps(base, word, initial_delay_multiplier),
            steps@.len() == 1 + 3 * (20 - bit_index),
            forall|index: int|
                0 <= index < steps@.len() ==> #[trigger] steps@[index] == target[index],
        decreases bit_index,
    {
        bit_index -= 1;
        let bit: u32 = 1_u32 << bit_index;
        proof {
            lemma_bit_mask_test(word, bit_index);
            lemma_line_bits(base);
        }
        if word & bit != 0 {
            *output = *output | RTX_DATA_MASK;
        } else {
            *output = *output & !RTX_DATA_MASK;
        }
        assert(*output == serial_data(base, word, 19 - bit_index));
        steps.push(ControlStep { data: *output, settle: Some(1) });
        *output = *output | RTX_CLOCK_MASK;
        steps.push(ControlStep { data: *output, settle: Some(1) });
        *output = *output & !RTX_CLOCK_MASK;
        steps.push(ControlStep { data: *output, settle: Some(1) });
    }
    proof {
        lemma_line_bits(base);
    }
    *output = *output & !(RTX_CLOCK_MASK | RTX_DATA_MASK);
    steps.push(ControlStep { data: *output, settle: None });
    *output = *output | RTX_ENABLE_MASK;
    steps.push(ControlStep { data: *output, settle: Some(1) });
    *output = *output & !RTX_ENABLE_MASK;
    steps.push(ControlStep { data: *output, settle: None });
    assert(steps@ =~= target);
    steps
}

/// The data byte that ends RTX programming: the transmitter keyed or not, its power line low.
pub open spec fn final_data(base: u8, transmitting: bool) -> u8 {
    if transmitting {
        base | RTX_TRANSMIT_MASK
    } else {
        base
    }
}

/// All steps of programming one frequency selection.
pub open spec fn program_steps(
    output: u8,
    words: RtxWords,
    initialized: bool,
    transmitting: bool,
) -> Seq<ControlStep> {
    let base = lines_low(output);
    word_steps(base, words.reference, initial_settle(initialized)) + word_steps(
        base,
        words.synthesizer,
        RTX_LATER_SETTLE,
    ) + seq![ControlStep { data: final_data(base, transmitting), settle: None }]
}

/// Prepare the writes that program the RTX reference and synthesizer registers.
pub fn rtx_program(
    output: u8,
    words: RtxWords,
    state: &mut RtxSerialState,
    transmitting: bool,
) -> (steps: Vec<ControlStep>)
    ensures
        steps@ == program_steps(output, words, old(state).initialized, transmitting),
        final(state).initialized,
{
    let mut output: u8 = output;
    let ghost start = output;
    proof {
        lemma_lines_low(start);
    }
    let first: u32 = rtx_initial_delay_multiplier(state);
    let mut steps: Vec<ControlStep> = rtx_shift_word(&mut output, words.reference, first);
    let second: u32 = rtx_initial_delay_multiplier(state);
    let mut synthesizer: Vec<ControlStep> = rtx_shift_word(
        &mut output,
        words.synthesizer,
        second,
    );
    steps.append(&mut synthesizer);
    let ghost base = output;
    proof {
        assert(base & !(0x01u8 | 0x02u8 | 0x04u8) == base && (base & !0x10u8) == base && base & !(
        0x08u8 | 0x10u8) == base) by (bit_vector)
            requires
                base & 0x1f == 0,
        ;
    }
    output = output & !(RTX_CLOCK_MASK | RTX_DATA_MASK | RTX_ENABLE_MASK);
    if transmitting {
        output = output & !RTX_TRANSMIT_POWER_MASK;
        output = output | RTX_TRANSMIT_MASK;
    } else {
        output = output & !(RTX_TRANSMIT_MASK | RTX_TRANSMIT_POWER_MASK);
    }
    steps.push(ControlStep { data: output, settle: None });
    assert(steps@ =~= program_steps(start, words, old(state).initialized, transmitting));
    steps
}

} // verus!
