//! Stable USB topologies: the text that names one and the live device that has one.

use vstd::prelude::*;
use vstd::slice::slice_subrange;

use crate::abi::PORT_CHAIN_CAPACITY;

verus! {

/// ASCII colon, which ends the topology in front of an interface suffix.
pub const INTERFACE_SEPARATOR: u8 = 0x3a;

/// ASCII hyphen between the bus and its port chain.
pub const BUS_SEPARATOR: u8 = 0x2d;

/// ASCII dot between two ports of a chain.
pub const PORT_SEPARATOR: u8 = 0x2e;

/// ASCII digit zero.
pub const DIGIT_ZERO: u8 = 0x30;

/// ASCII digit nine.
pub const DIGIT_NINE: u8 = 0x39;

/// Validated physical USB topology.
#[derive(Clone, Debug, PartialEq, Eq)]
pub struct UsbPortPath {
    /// USB bus number.
    pub bus: u8,
    /// Hub-port chain below the bus.
    pub ports: Vec<u8>,
}

/// A USB topology as mathematical values.
#[verifier::ext_equal]
pub struct UsbTopology {
    /// USB bus number.
    pub bus: u8,
    /// Hub-port chain below the bus.
    pub ports: Seq<u8>,
}

impl View for UsbPortPath {
    type V = UsbTopology;

    open spec fn view(&self) -> UsbTopology {
        UsbTopology { bus: self.bus, ports: self.ports@ }
    }
}

impl UsbTopology {
    /// A topology names a bus and between one port and a full chain of them, none of them zero.
    pub open spec fn well_formed(self) -> bool {
        &&& self.bus != 0
        &&& 1 <= self.ports.len() <= PORT_CHAIN_CAPACITY
        &&& forall|index: int| 0 <= index < self.ports.len() ==> #[trigger] self.ports[index] != 0
    }
}

/// Where `separator` first occurs in `text`, or the length of `text`.
pub open spec fn first_at(text: Seq<u8>, separator: u8) -> int
    decreases text.len(),
{
    if text.len() == 0 || text[0] == separator {
        0
    } else {
        1 + first_at(text.skip(1), separator)
    }
}

/// The part of `text` in front of the first `separator`, or all of it.
pub open spec fn before(text: Seq<u8>, separator: u8) -> Seq<u8> {
    text.take(first_at(text, separator))
}

/// The part of `text` behind the first `separator`, if there is one.
pub open spec fn after(text: Seq<u8>, separator: u8) -> Option<Seq<u8>> {
    if first_at(text, separator) < text.len() {
        Some(text.skip(first_at(text, separator) + 1))
    } else {
        None
    }
}

/// The pieces of `text` between its separators.
pub open spec fn pieces(text: Seq<u8>, separator: u8) -> Seq<Seq<u8>>
    decreases text.len(),
{
    let at = first_at(text, separator);
    if 0 <= at < text.len() {
        seq![text.take(at)] + pieces(text.skip(at + 1), separator)
    } else {
        seq![text]
    }
}

/// Whether `byte` is a decimal digit.
pub open spec fn is_digit(byte: u8) -> bool {
    DIGIT_ZERO <= byte <= DIGIT_NINE
}

/// The number that a run of decimal digits denotes.
pub open spec fn decimal_value(digits: Seq<u8>) -> int
    decreases digits.len(),
{
    if digits.len() == 0 {
        0
    } else {
        decimal_value(digits.drop_last()) * 10 + (digits.last() - DIGIT_ZERO)
    }
}

/// The byte that a decimal text denotes: digits and nothing else, not even a sign, whose number
/// fits.
pub open spec fn byte_value(digits: Seq<u8>) -> Option<u8> {
    if digits.len() > 0 && (forall|index: int|
        0 <= index < digits.len() ==> is_digit(#[trigger] digits[index])) && decimal_value(digits)
        <= 255 {
        Some(decimal_value(digits) as u8)
    } else {
        None
    }
}

/// The bytes that every piece of a text denotes, if each denotes one.
pub open spec fn byte_values(parts: Seq<Seq<u8>>) -> Option<Seq<u8>> {
    if forall|index: int| 0 <= index < parts.len() ==> byte_value(#[trigger] parts[index]) is Some {
        Some(Seq::new(parts.len(), |index: int| byte_value(parts[index])->0))
    } else {
        None
    }
}

/// The topology that a text names, if it names one.
///
/// The text is UTF-8. A colon and what follows it are an interface suffix and are ignored. In
/// front of it stand the bus number, a hyphen, and the port numbers with dots between them.
pub open spec fn topology_of(text: Seq<u8>) -> Option<UsbTopology> {
    let path = before(text, INTERFACE_SEPARATOR);
    if !vstd::utf8::valid_utf8(text) {
        None
    } else {
        match (byte_value(before(path, BUS_SEPARATOR)), after(path, BUS_SEPARATOR)) {
            (Some(bus), Some(chain)) => match byte_values(pieces(chain, PORT_SEPARATOR)) {
                Some(ports) => {
                    let topology = UsbTopology { bus, ports };
                    if topology.well_formed() {
                        Some(topology)
                    } else {
                        None
                    }
                },
                None => None,
            },
            _ => None,
        }
    }
}

/// Whether a byte string is UTF-8.
///
/// `std::str::from_utf8` is trusted to accept exactly the byte strings that are well-formed
/// UTF-8.
#[verifier::external_body]
fn is_utf8(bytes: &[u8]) -> (valid: bool)
    ensures
        valid == vstd::utf8::valid_utf8(bytes@),
{
    std::str::from_utf8(bytes).is_ok()
}

/// A known first occurrence is the one `first_at` finds.
pub proof fn lemma_first_at(text: Seq<u8>, separator: u8, at: int)
    requires
        0 <= at <= text.len(),
        forall|index: int| 0 <= index < at ==> #[trigger] text[index] != separator,
        at < text.len() ==> text[at] == separator,
    ensures
        first_at(text, separator) == at,
    decreases text.len(),
{
    if text.len() > 0 && text[0] != separator {
        let rest = text.skip(1);
        assert forall|index: int| 0 <= index < at - 1 implies #[trigger] rest[index]
            != separator by {
            assert(rest[index] == text[index + 1]);
        }
        lemma_first_at(rest, separator, at - 1);
    }
}

/// Find the first separator, or the end of the text.
fn find_separator(text: &[u8], separator: u8) -> (at: usize)
    ensures
        at == first_at(text@, separator),
        at <= text@.len(),
{
    let mut at: usize = 0;
    while at < text.len()
        invariant
            at <= text@.len(),
            forall|index: int| 0 <= index < at ==> #[trigger] text@[index] != separator,
        decreases text@.len() - at,
    {
        if text[at] == separator {
            proof {
                lemma_first_at(text@, separator, at as int);
            }
            return at;
        }
        at += 1;
    }
    proof {
        lemma_first_at(text@, separator, at as int);
    }
    at
}

/// Longer digit runs denote no smaller numbers.
proof fn lemma_decimal_value_grows(digits: Seq<u8>, count: int)
    requires
        0 <= count <= digits.len(),
        forall|index: int| 0 <= index < digits.len() ==> is_digit(#[trigger] digits[index]),
    ensures
        0 <= decimal_value(digits.take(count)) <= decimal_value(digits),
    decreases digits.len(),
{
    if digits.len() == 0 {
        assert(digits.take(count) =~= digits);
    } else {
        assert(is_digit(digits[digits.len() - 1]));
        if count == digits.len() {
            assert(digits.take(count) =~= digits);
            lemma_decimal_value_grows(digits.drop_last(), 0);
            assert(digits.drop_last().take(0) =~= Seq::<u8>::empty());
        } else {
            lemma_decimal_value_grows(digits.drop_last(), count);
            assert(digits.drop_last().take(count) =~= digits.take(count));
        }
    }
}

/// Parse one decimal byte.
fn parse_byte(digits: &[u8]) -> (value: Option<u8>)
    ensures
        value == byte_value(digits@),
{
    if digits.len() == 0 {
        return None;
    }
    let mut value: u8 = 0;
    let mut at: usize = 0;
    while at < digits.len()
        invariant
            digits@.len() > 0,
            at <= digits@.len(),
            forall|index: int| 0 <= index < at ==> is_digit(#[trigger] digits@[index]),
            value == decimal_value(digits@.take(at as int)),
        decreases digits@.len() - at,
    {
        let digit: u8 = digits[at];
        if digit < DIGIT_ZERO || digit > DIGIT_NINE {
            assert(!is_digit(digits@[at as int]));
            return None;
        }
        let next: u32 = value as u32 * 10 + (digit - DIGIT_ZERO) as u32;
        assert(digits@.take(at + 1).drop_last() =~= digits@.take(at as int));
        assert(next == decimal_value(digits@.take(at + 1)));
        if next > 255 {
            proof {
                if forall|index: int| 0 <= index < digits@.len() ==> is_digit(#[trigger] digits@[index]) {
                    lemma_decimal_value_grows(digits@, at + 1);
                }
            }
            return None;
        }
        value = next as u8;
        at += 1;
    }
    assert(digits@.take(at as int) =~= digits@);
    Some(value)
}

/// Parse a dotted chain of decimal bytes.
fn parse_chain(text: &[u8]) -> (ports: Option<Vec<u8>>)
    ensures
        match ports {
            Some(values) => byte_values(pieces(text@, PORT_SEPARATOR)) == Some(values@),
            None => byte_values(pieces(text@, PORT_SEPARATOR)) is None,
        },
{
    let mut ports: Vec<u8> = Vec::new();
    let mut rest: &[u8] = text;
    let ghost all = pieces(text@, PORT_SEPARATOR);
    let ghost mut done = Seq::<Seq<u8>>::empty();
    assert(done + all =~= all);
    loop
        invariant
            all == pieces(text@, PORT_SEPARATOR),
            all == done + pieces(rest@, PORT_SEPARATOR),
            done.len() == ports@.len(),
            forall|index: int|
                0 <= index < done.len() ==> byte_value(#[trigger] done[index]) == Some(
                    ports@[index],
                ),
        decreases rest@.len(),
    {
        let at: usize = find_separator(rest, PORT_SEPARATOR);
        let piece: &[u8] = slice_subrange(rest, 0, at);
        assert(piece@ =~= rest@.take(at as int));
        assert(at == rest@.len() ==> piece@ =~= rest@);
        assert(pieces(rest@, PORT_SEPARATOR)[0] == piece@);
        assert(all[done.len() as int] == piece@);
        match parse_byte(piece) {
            Some(port) => {
                ports.push(port);
            },
            None => {
                return None;
            },
        }
        proof {
            done = done.push(piece@);
        }
        if at == rest.len() {
            assert(all =~= done);
            assert forall|index: int| 0 <= index < all.len() implies byte_value(
                #[trigger] all[index],
            ) is Some by {
                assert(byte_value(done[index]) == Some(ports@[index]));
            }
            assert(byte_values(all)->0 =~= ports@) by {
                assert forall|index: int| 0 <= index < all.len() implies (byte_values(
                    all,
                )->0)[index] == ports@[index] by {
                    assert(byte_value(done[index]) == Some(ports@[index]));
                }
            }
            return Some(ports);
        }
        let tail: &[u8] = slice_subrange(rest, at + 1, rest.len());
        assert(tail@ =~= rest@.skip(at + 1));
        assert(all =~= done + pieces(tail@, PORT_SEPARATOR));
        rest = tail;
    }
}

/// The topology that a live device reports, if it reports a stable one.
///
/// `count` is the number of ports that the device stack claims to have written to `ports`.
pub open spec fn reported_topology(bus: u8, count: i32, ports: Seq<u8>) -> Option<UsbTopology> {
    if 0 < count <= PORT_CHAIN_CAPACITY {
        let topology = UsbTopology { bus, ports: ports.take(count as int) };
        if topology.well_formed() {
            Some(topology)
        } else {
            None
        }
    } else {
        None
    }
}

impl UsbPortPath {
    /// Construct a stable topology from what one live device reports.
    pub fn from_parts(bus: u8, count: i32, ports: [u8; PORT_CHAIN_CAPACITY]) -> (path: Option<Self>)
        ensures
            match path {
                Some(reported) => reported_topology(bus, count, ports@) == Some(reported@),
                None => reported_topology(bus, count, ports@) is None,
            },
            path matches Some(reported) ==> reported@.well_formed(),
    {
        if count <= 0 || count as usize > PORT_CHAIN_CAPACITY {
            return None;
        }
        let mut chain: Vec<u8> = Vec::new();
        let mut index: usize = 0;
        while index < count as usize
            invariant
                index <= count <= 7,
                chain@ == ports@.take(index as int),
            decreases count - index,
        {
            chain.push(ports[index]);
            index += 1;
            assert(chain@ =~= ports@.take(index as int));
        }
        let path = UsbPortPath { bus, ports: chain };
        if path.is_stable() {
            Some(path)
        } else {
            None
        }
    }

    /// Whether two topologies are the same bus and the same port chain.
    pub fn matches(&self, other: &UsbPortPath) -> (same: bool)
        ensures
            same == (self@ == other@),
    {
        if self.bus != other.bus || self.ports.len() != other.ports.len() {
            return false;
        }
        let mut index: usize = 0;
        while index < self.ports.len()
            invariant
                index <= self.ports@.len() == other.ports@.len(),
                forall|earlier: int|
                    0 <= earlier < index ==> #[trigger] self.ports@[earlier]
                        == other.ports@[earlier],
            decreases self.ports@.len() - index,
        {
            if self.ports[index] != other.ports[index] {
                assert(self@.ports[index as int] != other@.ports[index as int]);
                return false;
            }
            index += 1;
        }
        assert(self@ =~= other@);
        true
    }

    /// Parse one strict stable Linux USB topology text.
    pub fn parse(text: &[u8]) -> (path: Option<Self>)
        ensures
            match path {
                Some(parsed) => topology_of(text@) == Some(parsed@),
                None => topology_of(text@) is None,
            },
            path matches Some(parsed) ==> parsed@.well_formed(),
    {
        if !is_utf8(text) {
            return None;
        }
        let suffix: usize = find_separator(text, INTERFACE_SEPARATOR);
        let topology: &[u8] = slice_subrange(text, 0, suffix);
        assert(topology@ =~= before(text@, INTERFACE_SEPARATOR));
        let hyphen: usize = find_separator(topology, BUS_SEPARATOR);
        if hyphen == topology.len() {
            return None;
        }
        let bus_text: &[u8] = slice_subrange(topology, 0, hyphen);
        assert(bus_text@ =~= before(topology@, BUS_SEPARATOR));
        let chain: &[u8] = slice_subrange(topology, hyphen + 1, topology.len());
        assert(chain@ =~= topology@.skip(hyphen + 1));
        let bus: u8 = match parse_byte(bus_text) {
            Some(bus) => bus,
            None => {
                return None;
            },
        };
        let ports: Vec<u8> = match parse_chain(chain) {
            Some(ports) => ports,
            None => {
                return None;
            },
        };
        let path = UsbPortPath { bus, ports };
        if path.is_stable() {
            Some(path)
        } else {
            None
        }
    }

    /// Whether the bus and every port are nonzero and the chain has a stable length.
    fn is_stable(&self) -> (stable: bool)
        ensures
            stable == self@.well_formed(),
    {
        if self.bus == 0 || self.ports.len() == 0 || self.ports.len() > PORT_CHAIN_CAPACITY {
            return false;
        }
        let mut index: usize = 0;
        while index < self.ports.len()
            invariant
                index <= self.ports@.len(),
                forall|earlier: int| 0 <= earlier < index ==> #[trigger] self.ports@[earlier] != 0,
            decreases self.ports@.len() - index,
        {
            if self.ports[index] == 0 {
                assert(self@.ports[index as int] == 0);
                return false;
            }
            index += 1;
        }
        true
    }
}

/// An interface suffix does not change which topology a text names.
pub proof fn law_interface_suffix_is_ignored(path: Seq<u8>, suffix: Seq<u8>)
    requires
        !path.contains(INTERFACE_SEPARATOR),
        vstd::utf8::valid_utf8(path),
        vstd::utf8::valid_utf8(path.push(INTERFACE_SEPARATOR) + suffix),
    ensures
        topology_of(path.push(INTERFACE_SEPARATOR) + suffix) == topology_of(path),
{
    let full = path.push(INTERFACE_SEPARATOR) + suffix;
    assert forall|index: int| 0 <= index < path.len() implies #[trigger] full[index]
        != INTERFACE_SEPARATOR by {
        assert(path.contains(path[index]));
        assert(full[index] == path[index]);
    }
    assert forall|index: int| 0 <= index < path.len() implies #[trigger] path[index]
        != INTERFACE_SEPARATOR by {
        assert(path.contains(path[index]));
    }
    lemma_first_at(full, INTERFACE_SEPARATOR, path.len() as int);
    lemma_first_at(path, INTERFACE_SEPARATOR, path.len() as int);
    assert(full.take(path.len() as int) =~= path);
    assert(path.take(path.len() as int) =~= path);
}

} // verus!
