//! Which texts name a USB topology.

use vstd::prelude::*;

#[allow(unused_imports)]
use crate::topology::{
    after, before, byte_value, byte_values, decimal_value, first_at, is_digit, lemma_first_at,
    pieces, reported_topology, topology_of, UsbTopology, BUS_SEPARATOR, INTERFACE_SEPARATOR,
    PORT_SEPARATOR,
};

verus! {

/// A number below 256 written in decimal digits, without leading zeros.
pub open spec fn written_number(value: int) -> Seq<u8>
    decreases value,
{
    if value < 10 {
        seq![(0x30 + value) as u8]
    } else {
        written_number(value / 10).push((0x30 + value % 10) as u8)
    }
}

/// Port numbers written with dots between them.
pub open spec fn written_chain(ports: Seq<u8>) -> Seq<u8>
    decreases ports.len(),
{
    if ports.len() <= 1 {
        written_number(ports[0] as int)
    } else {
        written_number(ports[0] as int).push(0x2e) + written_chain(ports.skip(1))
    }
}

/// A topology written as its bus, a hyphen and its port chain.
pub open spec fn written_topology(bus: u8, ports: Seq<u8>) -> Seq<u8> {
    written_number(bus as int).push(0x2d) + written_chain(ports)
}

/// A written number is a run of digits that denotes the number.
proof fn lemma_written_number(value: int)
    requires
        0 <= value <= 255,
    ensures
        written_number(value).len() > 0,
        decimal_value(written_number(value)) == value,
        forall|index: int|
            0 <= index < written_number(value).len() ==> is_digit(
                #[trigger] written_number(value)[index],
            ),
        byte_value(written_number(value)) == Some(value as u8),
    decreases value,
{
    reveal_with_fuel(decimal_value, 2);
    let text = written_number(value);
    if value >= 10 {
        lemma_written_number(value / 10);
        assert(text.drop_last() =~= written_number(value / 10));
    } else {
        assert(text.drop_last() =~= Seq::<u8>::empty());
    }
}

/// The number in front of a separator ends at that separator.
proof fn lemma_number_ends(value: int, separator: u8, rest: Seq<u8>)
    requires
        0 <= value <= 255,
        !is_digit(separator),
    ensures
        ({
            let text = written_number(value).push(separator) + rest;
            let at = written_number(value).len() as int;
            &&& first_at(text, separator) == at
            &&& text.take(at) == written_number(value)
            &&& text.skip(at + 1) == rest
            &&& first_at(written_number(value), separator) == at
        }),
{
    let number = written_number(value);
    let text = number.push(separator) + rest;
    lemma_written_number(value);
    assert forall|index: int| 0 <= index < number.len() implies #[trigger] text[index]
        != separator by {
        assert(text[index] == number[index]);
    }
    lemma_first_at(text, separator, number.len() as int);
    lemma_first_at(number, separator, number.len() as int);
    assert(text.take(number.len() as int) =~= number);
    assert(text.skip((number.len() + 1) as int) =~= rest);
}

/// A written chain falls into its ports, and has only digits and dots.
proof fn lemma_written_chain(ports: Seq<u8>)
    requires
        ports.len() > 0,
    ensures
        byte_values(pieces(written_chain(ports), PORT_SEPARATOR)) == Some(ports),
        forall|index: int|
            0 <= index < written_chain(ports).len() ==> is_digit(
                #[trigger] written_chain(ports)[index],
            ) || written_chain(ports)[index] == 0x2e,
    decreases ports.len(),
{
    let text = written_chain(ports);
    let first = written_number(ports[0] as int);
    lemma_written_number(ports[0] as int);
    if ports.len() == 1 {
        lemma_number_ends(ports[0] as int, PORT_SEPARATOR, Seq::empty());
        assert(pieces(text, PORT_SEPARATOR) =~= seq![text]);
        assert(byte_values(seq![text])->0 =~= ports);
    } else {
        let rest = written_chain(ports.skip(1));
        let tail = pieces(rest, PORT_SEPARATOR);
        lemma_written_chain(ports.skip(1));
        lemma_number_ends(ports[0] as int, PORT_SEPARATOR, rest);
        let parts = pieces(text, PORT_SEPARATOR);
        assert(parts =~= seq![first] + tail);
        assert forall|index: int| 0 <= index < parts.len() implies byte_value(
            #[trigger] parts[index],
        ) == Some(ports[index]) by {
            if index > 0 {
                assert(parts[index] == tail[index - 1]);
                assert(byte_values(tail)->0[index - 1] == ports.skip(1)[index - 1]);
            }
        }
        assert((byte_values(tail)->0).len() == tail.len());
        assert(byte_values(parts)->0 =~= ports);
        assert forall|index: int| 0 <= index < text.len() implies is_digit(#[trigger] text[index])
            || text[index] == 0x2e by {
            if index < first.len() {
                assert(text[index] == first[index]);
            } else if index > first.len() {
                assert(text[index] == rest[index - first.len() - 1]);
            }
        }
    }
}

/// Every stable topology is read back from its written form: a bus and one to seven ports, none of
/// them zero.
pub proof fn law_written_topology_is_read_back(bus: u8, ports: Seq<u8>)
    requires
        bus > 0,
        1 <= ports.len() <= 7,
        forall|index: int| 0 <= index < ports.len() ==> #[trigger] ports[index] > 0,
    ensures
        topology_of(written_topology(bus, ports)) == Some(UsbTopology { bus, ports }),
{
    let text = written_topology(bus, ports);
    let chain = written_chain(ports);
    let number = written_number(bus as int);
    lemma_written_number(bus as int);
    lemma_written_chain(ports);
    lemma_number_ends(bus as int, BUS_SEPARATOR, chain);
    assert forall|index: int| 0 <= index < text.len() implies #[trigger] text[index]
        != INTERFACE_SEPARATOR && text[index] <= 0x7f by {
        if index < number.len() {
            assert(text[index] == number[index]);
        } else if index > number.len() {
            assert(text[index] == chain[index - number.len() - 1]);
        }
    }
    lemma_first_at(text, INTERFACE_SEPARATOR, text.len() as int);
    assert(before(text, INTERFACE_SEPARATOR) =~= text);
    lemma_ascii_is_utf8(text);
}

/// ASCII bytes are UTF-8.
proof fn lemma_ascii_is_utf8(text: Seq<u8>)
    requires
        forall|index: int| 0 <= index < text.len() ==> #[trigger] text[index] <= 0x7f,
    ensures
        vstd::utf8::valid_utf8(text),
{
    assert(text.subrange(0, 0) =~= Seq::<u8>::empty());
    assert(vstd::utf8::partial_valid_utf8(text, 0));
    vstd::utf8::partial_valid_utf8_extend_ascii_block(text, 0, text.len() as int);
    assert(text.subrange(0, text.len() as int) =~= text);
}

/// How far `first_at` looks.
proof fn lemma_first_at_is_first(text: Seq<u8>, separator: u8)
    ensures
        0 <= first_at(text, separator) <= text.len(),
        first_at(text, separator) < text.len() ==> text[first_at(text, separator)] == separator,
        forall|index: int|
            0 <= index < first_at(text, separator) ==> #[trigger] text[index] != separator,
    decreases text.len(),
{
    if text.len() > 0 && text[0] != separator {
        let rest = text.skip(1);
        lemma_first_at_is_first(rest, separator);
        let at = first_at(text, separator);
        assert forall|index: int| 0 <= index < at implies #[trigger] text[index] != separator by {
            if index > 0 {
                assert(rest[index - 1] == text[index]);
            }
        }
    }
}

/// Whether a text is digits with single dots between them.
pub open spec fn is_dotted(text: Seq<u8>) -> bool {
    &&& text.len() > 0
    &&& 0x30 <= text[0] <= 0x39
    &&& 0x30 <= text.last() <= 0x39
    &&& forall|index: int|
        0 <= index < text.len() ==> 0x30 <= #[trigger] text[index] <= 0x39 || text[index] == 0x2e
    &&& forall|index: int|
        0 < index < text.len() && #[trigger] text[index] == 0x2e ==> text[index - 1] != 0x2e
}

/// The number of dots in a text.
pub open spec fn dots(text: Seq<u8>) -> nat
    decreases text.len(),
{
    if text.len() == 0 {
        0
    } else {
        dots(text.drop_first()) + (if text[0] == 0x2e {
            1nat
        } else {
            0nat
        })
    }
}

/// Dots are counted part by part.
proof fn lemma_dots_in_parts(left: Seq<u8>, right: Seq<u8>)
    ensures
        dots(left + right) == dots(left) + dots(right),
    decreases left.len(),
{
    if left.len() == 0 {
        assert(left + right =~= right);
    } else {
        lemma_dots_in_parts(left.drop_first(), right);
        assert((left + right).drop_first() =~= left.drop_first() + right);
    }
}

/// A text without dots has none.
proof fn lemma_no_dots(text: Seq<u8>)
    requires
        forall|index: int| 0 <= index < text.len() ==> #[trigger] text[index] != 0x2e,
    ensures
        dots(text) == 0,
    decreases text.len(),
{
    if text.len() > 0 {
        lemma_no_dots(text.drop_first());
    }
}

/// Only a dotted text falls into numbers, one more than it has dots.
proof fn lemma_numbers_are_dotted(text: Seq<u8>)
    requires
        byte_values(pieces(text, PORT_SEPARATOR)) is Some,
    ensures
        is_dotted(text),
        (byte_values(pieces(text, PORT_SEPARATOR))->0).len() == dots(text) + 1,
    decreases text.len(),
{
    let at = first_at(text, PORT_SEPARATOR);
    let parts = pieces(text, PORT_SEPARATOR);
    lemma_first_at_is_first(text, PORT_SEPARATOR);
    assert(byte_value(parts[0]) is Some);
    if at < text.len() {
        let first = text.take(at);
        let rest = text.skip(at + 1);
        let tail = pieces(rest, PORT_SEPARATOR);
        assert(parts[0] == first);
        assert forall|index: int| 0 <= index < tail.len() implies byte_value(
            #[trigger] tail[index],
        ) is Some by {
            assert(parts[index + 1] == tail[index]);
            assert(byte_value(parts[index + 1]) is Some);
        }
        lemma_numbers_are_dotted(rest);
        assert forall|index: int| 0 <= index < text.len() implies 0x30 <= #[trigger] text[index]
            <= 0x39 || text[index] == 0x2e by {
            if index < at {
                assert(is_digit(first[index]));
            } else if index > at {
                assert(text[index] == rest[index - at - 1]);
            }
        }
        assert(is_digit(first[0]));
        assert(is_digit(first[at - 1]));
        assert(text.last() == rest.last());
        assert forall|index: int|
            0 < index < text.len() && #[trigger] text[index] == 0x2e implies text[index - 1]
            != 0x2e by {
            if index > at + 1 {
                assert(text[index] == rest[index - at - 1]);
                assert(text[index - 1] == rest[index - at - 2]);
            } else if index == at + 1 {
                assert(text[index] == rest[0]);
            } else {
                assert(text[index - 1] == first[index - 1]);
            }
        }
        assert(text =~= first + (seq![0x2eu8] + rest));
        lemma_dots_in_parts(first, seq![0x2eu8] + rest);
        lemma_dots_in_parts(seq![0x2eu8], rest);
        lemma_no_dots(first);
        assert(seq![0x2eu8].drop_first() =~= Seq::<u8>::empty());
        reveal_with_fuel(dots, 2);
    } else {
        assert(parts[0] == text);
        assert forall|index: int| 0 <= index < text.len() implies 0x30 <= #[trigger] text[index]
            <= 0x39 by {
            assert(is_digit(text[index]));
        }
        lemma_no_dots(text);
    }
}

/// A text that names a topology is strict: in front of its first colon stand only digits, one
/// hyphen, and behind the hyphen single dots between digits, one port for each run of digits. The
/// bus and all of one to seven ports are above zero.
pub proof fn law_only_strict_texts_name_a_topology(text: Seq<u8>)
    requires
        topology_of(text) is Some,
    ensures
        ({
            let topology = topology_of(text)->0;
            let end = first_at(text, 0x3a);
            &&& topology.bus > 0
            &&& 1 <= topology.ports.len() <= 7
            &&& forall|index: int|
                0 <= index < topology.ports.len() ==> #[trigger] topology.ports[index] > 0
            &&& 0 <= end <= text.len()
            &&& forall|index: int| 0 <= index < end ==> #[trigger] text[index] != 0x3a
            &&& end < text.len() ==> text[end] == 0x3a
            &&& exists|hyphen: int|
                #![trigger text[hyphen]]
                {
                    &&& 0 < hyphen < end
                    &&& text[hyphen] == 0x2d
                    &&& forall|index: int|
                        0 <= index < hyphen ==> 0x30 <= #[trigger] text[index] <= 0x39
                    &&& is_dotted(text.subrange(hyphen + 1, end))
                    &&& topology.ports.len() == dots(text.subrange(hyphen + 1, end)) + 1
                }
        }),
{
    lemma_first_at_is_first(text, INTERFACE_SEPARATOR);
    let end = first_at(text, INTERFACE_SEPARATOR);
    let path = before(text, INTERFACE_SEPARATOR);
    lemma_first_at_is_first(path, BUS_SEPARATOR);
    let hyphen = first_at(path, BUS_SEPARATOR);
    let number = before(path, BUS_SEPARATOR);
    let chain = path.skip(hyphen + 1);
    assert(after(path, BUS_SEPARATOR) == Some(chain));
    assert(chain =~= text.subrange(hyphen + 1, end));
    lemma_numbers_are_dotted(chain);
    assert forall|index: int| 0 <= index < hyphen implies 0x30 <= #[trigger] text[index]
        <= 0x39 by {
        assert(number[index] == text[index]);
        assert(is_digit(number[index]));
    }
    assert(text[hyphen] == path[hyphen]);
}

/// A live device has a stable topology exactly when it reports a bus and one to seven ports, none
/// of them zero, and it is the one reported.
pub proof fn law_reported_topology_is_the_reported_one(bus: u8, count: i32, ports: Seq<u8>)
    requires
        ports.len() == 7,
    ensures
        reported_topology(bus, count, ports) is Some <==> bus > 0 && 1 <= count <= 7 && forall|
            index: int,
        |
            0 <= index < count ==> #[trigger] ports[index] > 0,
        reported_topology(bus, count, ports) matches Some(topology) ==> topology.bus == bus
            && topology.ports.len() == count && forall|index: int|
            0 <= index < count ==> #[trigger] topology.ports[index] == ports[index],
{
    if 0 < count <= 7 {
        let taken = ports.take(count as int);
        assert forall|index: int| 0 <= index < count implies #[trigger] taken[index]
            == ports[index] by {}
        if forall|index: int| 0 <= index < taken.len() ==> #[trigger] taken[index] != 0 {
            assert forall|index: int| 0 <= index < count implies #[trigger] ports[index] > 0 by {
                assert(taken[index] != 0);
            }
        }
    }
}

} // verus!
