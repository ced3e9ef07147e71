//! The user tuning region of a CM119 EEPROM and the reports that move its words.

use vstd::prelude::*;

use crate::abi::{EEPROM_WORD_COUNT, HID_REPORT_BYTES};

verus! {

/// First physical word of the user tuning region.
pub const EEPROM_START_WORD: usize = 51;

/// Word containing the tuning-image magic.
pub const EEPROM_MAGIC_WORD: usize = EEPROM_START_WORD;

/// Tuning-image magic.
pub const EEPROM_MAGIC: u16 = 34329;

/// Word containing the tuning checksum.
pub const EEPROM_CHECKSUM_WORD: usize = 63;

/// The sum of the words from `from` up to but not including `to`.
pub open spec fn words_sum(words: Seq<u16>, from: int, to: int) -> int
    decreases to - from,
{
    if to <= from {
        0
    } else {
        words_sum(words, from, to - 1) + words[to - 1]
    }
}

/// Whether the tuning region, its checksum included, cancels the checksum seed.
pub open spec fn checksum_holds(words: Seq<u16>) -> bool {
    (u16::MAX + words_sum(words, 51, 64)) % 0x1_0000 == 0
}

/// Whether a tuning image carries its magic.
pub open spec fn magic_holds(words: Seq<u16>) -> bool {
    words[51] == EEPROM_MAGIC
}

/// Whether `address` is a word of the user tuning region.
pub open spec fn is_tuning_word(address: int) -> bool {
    51 <= address <= 63
}

/// Sum the words from `EEPROM_START_WORD` up to `end` onto the checksum seed.
fn seeded_sum(words: &[u16; EEPROM_WORD_COUNT], end: usize) -> (sum: u16)
    requires
        51 <= end <= 64,
    ensures
        sum == (u16::MAX + words_sum(words@, 51, end as int)) % 0x1_0000,
{
    let mut sum: u16 = u16::MAX;
    let mut index: usize = EEPROM_START_WORD;
    while index < end
        invariant
            51 <= index <= end <= 64,
            sum == (u16::MAX + words_sum(words@, 51, index as int)) % 0x1_0000,
        decreases end - index,
    {
        sum = sum.wrapping_add(words[index]);
        index += 1;
    }
    sum
}

/// Calculate the two's-complement checksum for one tuning image.
pub fn eeprom_checksum_word(words: &[u16; EEPROM_WORD_COUNT]) -> (checksum: u16)
    ensures
        (u16::MAX + words_sum(words@, 51, 63) + checksum) % 0x1_0000 == 0,
        checksum == checksum_of(words@),
{
    let sum: u16 = seeded_sum(words, EEPROM_CHECKSUM_WORD);
    0_u16.wrapping_sub(sum)
}

/// The one word that completes a tuning image to a valid checksum.
pub open spec fn checksum_of(words: Seq<u16>) -> u16 {
    let rest = (u16::MAX + words_sum(words, 51, 63)) % 0x1_0000;
    if rest == 0 {
        0
    } else {
        (0x1_0000 - rest) as u16
    }
}

/// Verify the checksum stored within one complete tuning image.
pub fn eeprom_checksum_is_valid(words: &[u16; EEPROM_WORD_COUNT]) -> (valid: bool)
    ensures
        valid == checksum_holds(words@),
{
    seeded_sum(words, EEPROM_CHECKSUM_WORD + 1) == 0
}

/// Words outside a range do not change its sum.
pub proof fn lemma_sum_frame(left: Seq<u16>, right: Seq<u16>, from: int, to: int)
    requires
        forall|index: int| from <= index < to ==> left[index] == right[index],
    ensures
        words_sum(left, from, to) == words_sum(right, from, to),
    decreases to - from,
{
    if to > from {
        lemma_sum_frame(left, right, from, to - 1);
    }
}

/// An image is valid exactly when its checksum word is the one its other words call for.
pub proof fn law_checksum_is_unique(words: Seq<u16>)
    ensures
        checksum_holds(words) == (words[63] == checksum_of(words)),
{
    assert(words_sum(words, 51, 64) == words_sum(words, 51, 63) + words[63]);
}

/// Stamping the calculated checksum makes any image valid.
pub proof fn law_stamped_checksum_is_valid(words: Seq<u16>)
    requires
        words.len() == 64,
    ensures
        checksum_holds(words.update(63, checksum_of(words))),
{
    let stamped = words.update(63, checksum_of(words));
    lemma_sum_frame(words, stamped, 51, 63);
    law_checksum_is_unique(stamped);
}

/// The thirteen tuning words and the seed 65535 sum up to a multiple of 65536 exactly in valid
/// images; the calculated checksum is the one value that makes them so, and a tuning image is
/// marked by the magic 34329 in its first word.
pub proof fn law_checksum_sums_the_tuning_words(words: Seq<u16>)
    ensures
        checksum_holds(words) <==> (65535 + words[51] + words[52] + words[53] + words[54] + words[55]
            + words[56] + words[57] + words[58] + words[59] + words[60] + words[61] + words[62]
            + words[63]) % 65536 == 0,
        (65535 + words[51] + words[52] + words[53] + words[54] + words[55] + words[56] + words[57]
            + words[58] + words[59] + words[60] + words[61] + words[62] + checksum_of(words)) % 65536
            == 0,
        magic_holds(words) <==> words[51] == 34329,
{
    reveal_with_fuel(words_sum, 14);
}

/// The report that asks for one EEPROM word.
pub open spec fn read_command(address: u8) -> [u8; HID_REPORT_BYTES] {
    [0x80, 0, 0, 0x80 | (address & 0x3f)]
}

/// The report that programs one EEPROM word.
pub open spec fn write_command(address: u8, value: u16) -> [u8; HID_REPORT_BYTES] {
    [0x80, value as u8, (value >> 8) as u8, 0xc0 | (address & 0x3f)]
}

/// The EEPROM word that an input report carries.
pub open spec fn word_in_report(report: [u8; HID_REPORT_BYTES]) -> u16 {
    (report[1] as u16) | ((report[2] as u16) << 8)
}

/// Form the report that asks for one EEPROM word.
pub fn eeprom_read_command(address: u8) -> (report: [u8; HID_REPORT_BYTES])
    ensures
        report == read_command(address),
{
    [0x80, 0, 0, 0x80 | (address & 0x3f)]
}

/// Form the report that programs one EEPROM word.
pub fn eeprom_write_command(address: u8, value: u16) -> (report: [u8; HID_REPORT_BYTES])
    ensures
        report == write_command(address, value),
{
    let low: u8 = #[verifier::truncate] (value as u8);
    let high: u8 = #[verifier::truncate] ((value >> 8) as u8);
    [0x80, low, high, 0xc0 | (address & 0x3f)]
}

/// Take the EEPROM word out of an input report.
pub fn eeprom_word_from_report(report: [u8; HID_REPORT_BYTES]) -> (value: u16)
    ensures
        value == word_in_report(report),
{
    (report[1] as u16) | ((report[2] as u16) << 8)
}

} // verus!
