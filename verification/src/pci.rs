//! Addresses of PCI devices.
use vstd::prelude::*;

use crate::digest::{
    hex_digits_value, hex_value, lemma_nibble_digit, nibble, nibble_text, parse_hex_byte,
    parse_hex_message,
};
use crate::text::{fails_with, lemma_until, pieces, split_on};

verus! {

/// The address of a PCI device: segment, bus, device and function.
#[derive(Clone, Copy, Debug, PartialEq, Eq, PartialOrd, Structural)]
pub struct PciBdf(u32);

/// A device with its address.
#[derive(Debug, PartialEq, Eq, PartialOrd)]
pub struct PciDeviceInfo {
    pub id: String,
    pub bdf: PciBdf,
}

/// An address in its usual notation.
pub open spec fn address_text(segment: u16, bus: u8, device: u8, function: u8) -> Seq<char> {
    seq![
        nibble((segment / 4096) as u8),
        nibble((segment / 256 % 16) as u8),
        nibble((segment / 16 % 16) as u8),
        nibble((segment % 16) as u8),
        ':',
        nibble(bus / 16),
        nibble(bus % 16),
        ':',
        nibble(device / 16),
        nibble(device % 16),
        '.',
        nibble(function % 16),
    ]
}

/// The message with which parsing this text as a hexadecimal `u16` fails.
pub uninterp spec fn parse_hex_word_message(s: Seq<char>) -> Seq<char>;

/// Calls `u16::from_str_radix` with radix 16: an optional plus sign followed by
/// hexadecimal digits whose value fits is accepted, everything else is an
/// error, whose displayed text is named `parse_hex_word_message`.
#[verifier::external_body]
fn parse_hex_word(s: &str) -> (r: Result<u16, String>)
    ensures
        match hex_value(s@, 0xffff) {
            Some(v) => r matches Ok(n) && n == v,
            None => fails_with(r, parse_hex_word_message(s@)),
        },
{
    u16::from_str_radix(s, 16).map_err(|error| error.to_string())
}

/// Whether a text has the parts of an address: a function behind a dot and,
/// where that is a number, segment, bus and device before it.
pub open spec fn address_shaped(s: Seq<char>) -> bool {
    &&& pieces(s, '.').len() == 2
    &&& hex_value(pieces(s, '.')[1], 0xff) is Some ==> pieces(pieces(s, '.')[0], ':').len() == 3
}

/// Whether a text has the parts of an address.
pub fn looks_like_address(s: &str) -> (r: bool)
    ensures
        r == address_shaped(s@),
{
    let outer = split_on(s, '.');
    let ghost dots = pieces(s@, '.');
    if outer.len() != 2 {
        return false;
    }
    assert(dots[0] == outer@[0]@ && dots[1] == outer@[1]@);
    parse_hex_byte(outer[1].as_str()).is_err() || split_on(outer[0].as_str(), ':').len() == 3
}

/// The four numbers of an address, or the message about the first that is none.
pub open spec fn address_parts(s: Seq<char>) -> Result<(u16, u8, u8, u8), Seq<char>> {
    let outer = pieces(s, '.');
    let inner = pieces(outer[0], ':');
    match hex_value(outer[1], 0xff) {
        None => Err(parse_hex_message(outer[1])),
        Some(function) => match hex_value(inner[0], 0xffff) {
            None => Err(parse_hex_word_message(inner[0])),
            Some(segment) => match hex_value(inner[1], 0xff) {
                None => Err(parse_hex_message(inner[1])),
                Some(bus) => match hex_value(inner[2], 0xff) {
                    None => Err(parse_hex_message(inner[2])),
                    Some(device) => Ok(
                        (segment as u16, bus as u8, device as u8, function as u8),
                    ),
                },
            },
        },
    }
}

proof fn lemma_recompose(v: int)
    requires
        0 <= v,
    ensures
        v == v / 65536 * 65536 + v / 256 % 256 * 256 + v / 8 % 32 * 8 + v % 8,
{
    assert(v / 256 == v / 65536 * 256 + v / 256 % 256) by {
        assert(v / 65536 == v / 256 / 256);
    }
    assert(v / 8 == v / 256 * 32 + v / 8 % 32) by {
        assert(v / 256 == v / 8 / 32);
    }
    assert(v == v / 8 * 8 + v % 8);
}

proof fn lemma_pack(high: u32, middle: u32, low: u32, last: u32)
    requires
        high < 65536,
        middle < 256,
        low < 32,
        last < 8,
    ensures
        (high << 16 | middle << 8 | low << 3 | last) == high * 65536 + middle * 256 + low * 8
            + last,
{
    let v = high << 16 | middle << 8 | low << 3 | last;
    assert(v / 65536 == high) by (bit_vector)
        requires
            v == (high << 16 | middle << 8 | low << 3 | last),
            high < 65536,
            middle < 256,
            low < 32,
            last < 8,
    ;
    assert(v / 256 % 256 == middle) by (bit_vector)
        requires
            v == (high << 16 | middle << 8 | low << 3 | last),
            middle < 256,
            low < 32,
            last < 8,
    ;
    assert(v / 8 % 32 == low) by (bit_vector)
        requires
            v == (high << 16 | middle << 8 | low << 3 | last),
            low < 32,
            last < 8,
    ;
    assert(v % 8 == last) by (bit_vector)
        requires
            v == (high << 16 | middle << 8 | low << 3 | last),
            last < 8,
    ;
    lemma_recompose(v as int);
}

impl PciBdf {
    /// The bits of the address.
    pub closed spec fn bits(self) -> u32 {
        self.0
    }

    /// Whether the bits are those of this segment, bus, device and function:
    /// devices are counted by five bits, functions by three.
    pub open spec fn is_at(self, segment: u16, bus: u8, device: u8, function: u8) -> bool {
        self.bits() == segment * 65536 + bus * 256 + (device % 32) * 8 + function % 8
    }

    /// The address of a function. What exceeds five bits of the device and
    /// three bits of the function is dropped.
    pub fn new(segment: u16, bus: u8, device: u8, function: u8) -> (bdf: Self)
        ensures
            bdf.is_at(segment, bus, device, function),
    {
        let value: u32 = (segment as u32) << 16 | (bus as u32) << 8 | ((device & 0x1f) as u32) << 3
            | (function & 0x7) as u32;
        proof {
            assert(device & 0x1f == device % 32) by (bit_vector);
            assert(function & 0x7 == function % 8) by (bit_vector);
            lemma_pack(
                segment as u32,
                bus as u32,
                (device & 0x1f) as u32,
                (function & 0x7) as u32,
            );
        }
        PciBdf(value)
    }

    /// The segment of the address.
    pub fn segment(&self) -> (segment: u16)
        ensures
            segment == self.bits() / 65536,
    {
        let bits: u32 = self.0;
        assert((bits >> 16) & 0xffff == bits / 65536 && bits / 65536 <= 0xffff) by (bit_vector);
        ((bits >> 16) & 0xffff) as u16
    }

    /// The bus of the address.
    pub fn bus(&self) -> (bus: u8)
        ensures
            bus == self.bits() / 256 % 256,
    {
        let bits: u32 = self.0;
        assert((bits >> 8) & 0xff == bits / 256 % 256 && bits / 256 % 256 <= 0xff) by (bit_vector);
        ((bits >> 8) & 0xff) as u8
    }

    /// The device of the address.
    pub fn device(&self) -> (device: u8)
        ensures
            device == self.bits() / 8 % 32,
    {
        let bits: u32 = self.0;
        assert((bits >> 3) & 0x1f == bits / 8 % 32 && bits / 8 % 32 <= 0x1f) by (bit_vector);
        ((bits >> 3) & 0x1f) as u8
    }

    /// The function of the address.
    pub fn function(&self) -> (function: u8)
        ensures
            function == self.bits() % 8,
    {
        let bits: u32 = self.0;
        assert(bits & 0x7 == bits % 8 && bits % 8 <= 7) by (bit_vector);
        (bits & 0x7) as u8
    }

    /// The address in its usual notation.
    pub fn to_string(&self) -> (text: String)
        ensures
            text@ == address_text(
                (self.bits() / 65536) as u16,
                (self.bits() / 256 % 256) as u8,
                (self.bits() / 8 % 32) as u8,
                (self.bits() % 8) as u8,
            ),
    {
        let segment: u16 = self.segment();
        let bus: u8 = self.bus();
        let device: u8 = self.device();
        let function: u8 = self.function();
        let text = nibble_text((segment / 4096) as u8).to_owned().concat(
            nibble_text((segment / 256 % 16) as u8),
        ).concat(nibble_text((segment / 16 % 16) as u8)).concat(
            nibble_text((segment % 16) as u8),
        ).concat(":").concat(nibble_text(bus / 16)).concat(nibble_text(bus % 16)).concat(
            ":",
        ).concat(nibble_text(device / 16)).concat(nibble_text(device % 16)).concat(".").concat(
            nibble_text(function % 16),
        );
        proof {
            reveal_strlit(":");
            reveal_strlit(".");
            assert(text@ =~= address_text(segment, bus, device, function));
        }
        text
    }

    /// The address that a text denotes which is known to denote one.
    pub fn from(bdf: &str) -> (address: Self)
        requires
            address_shaped(bdf@),
            address_parts(bdf@) is Ok,
        ensures
            ({
                let (segment, bus, device, function) = address_parts(bdf@)->Ok_0;
                address.is_at(segment, bus, device, function)
            }),
    {
        PciBdf::from_str(bdf).unwrap()
    }

    /// The address that a text denotes.
    pub fn from_str(s: &str) -> (r: Result<Self, String>)
        requires
            address_shaped(s@),
        ensures
            match address_parts(s@) {
                Err(message) => fails_with(r, message),
                Ok((segment, bus, device, function)) => r matches Ok(bdf) && bdf.is_at(
                    segment,
                    bus,
                    device,
                    function,
                ),
            },
    {
        let outer = split_on(s, '.');
        let ghost dots = pieces(s@, '.');
        assert(dots[0] == outer@[0]@ && dots[1] == outer@[1]@);
        let function: u8 = match parse_hex_byte(outer[1].as_str()) {
            Err(message) => return Err(message),
            Ok(function) => function,
        };
        let inner = split_on(outer[0].as_str(), ':');
        let ghost colons = pieces(dots[0], ':');
        assert(colons[0] == inner@[0]@ && colons[1] == inner@[1]@ && colons[2] == inner@[2]@);
        let segment: u16 = match parse_hex_word(inner[0].as_str()) {
            Err(message) => return Err(message),
            Ok(segment) => segment,
        };
        let bus: u8 = match parse_hex_byte(inner[1].as_str()) {
            Err(message) => return Err(message),
            Ok(bus) => bus,
        };
        let device: u8 = match parse_hex_byte(inner[2].as_str()) {
            Err(message) => return Err(message),
            Ok(device) => device,
        };
        Ok(PciBdf::new(segment, bus, device, function))
    }
}

/// An address gives back the segment, bus, device and function that it was made
/// of, as far as they fit.
pub proof fn law_address_gives_its_parts_back(
    bdf: PciBdf,
    segment: u16,
    bus: u8,
    device: u8,
    function: u8,
)
    requires
        bdf.is_at(segment, bus, device, function),
    ensures
        bdf.bits() / 65536 == segment,
        bdf.bits() / 256 % 256 == bus,
        bdf.bits() / 8 % 32 == device % 32,
        bdf.bits() % 8 == function % 8,
{
}

proof fn lemma_hex_word(a: u8, b: u8, c: u8, d: u8)
    requires
        a < 16,
        b < 16,
        c < 16,
        d < 16,
    ensures
        hex_value(seq![nibble(a), nibble(b), nibble(c), nibble(d)], 0xffff) == Some(
            (a * 4096 + b * 256 + c * 16 + d) as nat,
        ),
{
    let s = seq![nibble(a), nibble(b), nibble(c), nibble(d)];
    lemma_nibble_digit(a);
    lemma_nibble_digit(b);
    lemma_nibble_digit(c);
    lemma_nibble_digit(d);
    let s3 = s.drop_last();
    let s2 = s3.drop_last();
    let s1 = s2.drop_last();
    assert(s1.drop_last() =~= Seq::empty());
    assert(s1.last() == nibble(a) && s2.last() == nibble(b) && s3.last() == nibble(c));
    assert(hex_digits_value(s1.drop_last()) == 0);
    assert(hex_digits_value(s1) == a);
    assert(hex_digits_value(s2) == a * 16 + b);
    assert(hex_digits_value(s3) == (a * 16 + b) * 16 + c);
    assert(hex_digits_value(s) == ((a * 16 + b) * 16 + c) * 16 + d);
}

proof fn lemma_hex_byte(a: u8, b: u8)
    requires
        a < 16,
        b < 16,
    ensures
        hex_value(seq![nibble(a), nibble(b)], 0xff) == Some((a * 16 + b) as nat),
        hex_value(seq![nibble(b)], 0xff) == Some(b as nat),
{
    let s = seq![nibble(a), nibble(b)];
    lemma_nibble_digit(a);
    lemma_nibble_digit(b);
    let s1 = s.drop_last();
    assert(s1.drop_last() =~= Seq::empty());
    assert(s1.last() == nibble(a));
    assert(hex_digits_value(s1.drop_last()) == 0);
    assert(hex_digits_value(s1) == a);
    assert(hex_digits_value(s) == a * 16 + b);
    let t = seq![nibble(b)];
    assert(t.drop_last() =~= Seq::empty());
    assert(hex_digits_value(t.drop_last()) == 0);
    assert(hex_digits_value(t) == b);
}

proof fn lemma_address_pieces(text: Seq<char>)
    requires
        text.len() == 12,
        forall|i: int| 0 <= i < 12 ==> (#[trigger] text[i] == '.') == (i == 10),
        forall|i: int| 0 <= i < 10 ==> (#[trigger] text[i] == ':') == (i == 4 || i == 7),
    ensures
        pieces(text, '.') == seq![text.take(10), text.skip(11)],
        pieces(text.take(10), ':') == seq![
            text.subrange(0, 4),
            text.subrange(5, 7),
            text.subrange(8, 10),
        ],
{
    let head = text.take(10);
    let tail = text.skip(11);
    lemma_until(text, '.', 10);
    lemma_until(tail, '.', 1);
    assert(pieces(tail, '.') =~= seq![tail]);
    assert(pieces(text, '.') =~= seq![head, tail]);
    let rest = head.skip(5);
    let last = rest.skip(3);
    lemma_until(head, ':', 4);
    lemma_until(rest, ':', 2);
    lemma_until(last, ':', 2);
    assert(pieces(last, ':') =~= seq![last]);
    assert(pieces(rest, ':') =~= seq![rest.take(2), last]);
    assert(pieces(head, ':') =~= seq![head.take(4), rest.take(2), last]);
    assert(head.take(4) =~= text.subrange(0, 4));
    assert(rest.take(2) =~= text.subrange(5, 7));
    assert(last =~= text.subrange(8, 10));
}

proof fn lemma_nibble_is_no_separator(n: u8)
    requires
        n < 16,
    ensures
        nibble(n) != '.',
        nibble(n) != ':',
{
}

proof fn lemma_word_nibbles(word: u16)
    ensures
        word == (word / 4096) * 4096 + (word / 256 % 16) * 256 + (word / 16 % 16) * 16 + word % 16,
{
    assert(word / 256 == word / 4096 * 16 + word / 256 % 16);
    assert(word / 16 == word / 256 * 16 + word / 16 % 16);
}

/// The notation of an address denotes that address.
#[verifier::spinoff_prover]
pub proof fn law_address_text_round_trip(segment: u16, bus: u8, device: u8, function: u8)
    requires
        function < 16,
    ensures
        address_shaped(address_text(segment, bus, device, function)),
        address_parts(address_text(segment, bus, device, function)) == Ok::<
            (u16, u8, u8, u8),
            Seq<char>,
        >((segment, bus, device, function)),
{
    let text = address_text(segment, bus, device, function);
    let a = (segment / 4096) as u8;
    let b = (segment / 256 % 16) as u8;
    let c = (segment / 16 % 16) as u8;
    let d = (segment % 16) as u8;
    lemma_word_nibbles(segment);
    lemma_nibble_is_no_separator(a);
    lemma_nibble_is_no_separator(b);
    lemma_nibble_is_no_separator(c);
    lemma_nibble_is_no_separator(d);
    lemma_nibble_is_no_separator(bus / 16);
    lemma_nibble_is_no_separator(bus % 16);
    lemma_nibble_is_no_separator(device / 16);
    lemma_nibble_is_no_separator(device % 16);
    lemma_nibble_is_no_separator(function % 16);
    lemma_address_pieces(text);
    assert(text.subrange(0, 4) =~= seq![nibble(a), nibble(b), nibble(c), nibble(d)]);
    assert(text.subrange(5, 7) =~= seq![nibble(bus / 16), nibble(bus % 16)]);
    assert(text.subrange(8, 10) =~= seq![nibble(device / 16), nibble(device % 16)]);
    assert(text.skip(11) =~= seq![nibble(function % 16)]);
    lemma_hex_word(a, b, c, d);
    lemma_hex_byte(bus / 16, bus % 16);
    lemma_hex_byte(device / 16, device % 16);
    lemma_hex_byte(0, function % 16);
}

} // verus!
