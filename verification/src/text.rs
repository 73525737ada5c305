//! Turning the decoder's events into printable lines.
//!
//! Every decoded bit is appended to a bounded string as `'0'`, `'1'`, or `'?'`
//! for a bit that could not be read. When a frame or a data fragment ends the
//! collected bits are reported twice: as they are, and as text, reading the
//! bits as bytes packed least-significant bit first and those bytes as UTF-8
//! in which every malformed sequence shows as U+FFFD.

use crate::bits::{pack_bits, pack_lsb0};
use crate::infrared::Event;
use vstd::prelude::*;

verus! {

/// How many bytes the bit string holds.
pub const BIT_STRING_CAPACITY: usize = 1024;

#[verifier::external_type_specification]
#[verifier::external_body]
pub struct ExHeaplessString<const N: usize>(heapless::String<N>);

/// The characters a bounded bit string holds, in order.
pub uninterp spec fn bit_string_chars(s: heapless::String<1024>) -> Seq<char>;

/// The items that `utf8_iter::ErrorReportingUtf8Chars` yields for `bytes`:
/// `Some(c)` for each well-formed character, `None` for each malformed
/// sequence.
pub uninterp spec fn utf8_decode_reporting(bytes: Seq<u8>) -> Seq<Option<char>>;

/// Length in bytes of the UTF-8 encoding of `c`, as `char::len_utf8`
/// documents it.
pub open spec fn utf8_len(c: char) -> nat {
    let v = c as u32;
    if v < 0x80 {
        1
    } else if v < 0x800 {
        2
    } else if v < 0x10000 {
        3
    } else {
        4
    }
}

/// Length in bytes of the UTF-8 encoding of `s`.
pub open spec fn utf8_len_of(s: Seq<char>) -> nat
    decreases s.len(),
{
    if s.len() == 0 {
        0
    } else {
        utf8_len_of(s.drop_last()) + utf8_len(s.last())
    }
}

/// Creates an empty bounded string with `heapless::String::new`.
#[verifier::external_body]
fn bit_string_new() -> (s: heapless::String<1024>)
    ensures
        bit_string_chars(s) == Seq::<char>::empty(),
{
    heapless::String::new()
}

/// Appends `c` with `heapless::String::push`, which appends the character
/// when its encoding still fits in the 1024 bytes and otherwise leaves the
/// string as it was and fails; the result says whether it appended.
#[verifier::external_body]
fn bit_string_push(s: &mut heapless::String<1024>, c: char) -> (pushed: bool)
    ensures
        pushed == (utf8_len_of(bit_string_chars(*old(s))) + utf8_len(c) <= 1024),
        bit_string_chars(*final(s)) == if pushed {
            bit_string_chars(*old(s)).push(c)
        } else {
            bit_string_chars(*old(s))
        },
{
    s.push(c).is_ok()
}

/// Empties the string with `heapless::String::clear`.
#[verifier::external_body]
fn bit_string_clear(s: &mut heapless::String<1024>)
    ensures
        bit_string_chars(*final(s)) == Seq::<char>::empty(),
{
    s.clear()
}

/// Tells whether the string is empty, with `heapless::String`'s `is_empty`
/// (through its `str` view).
#[verifier::external_body]
fn bit_string_is_empty(s: &heapless::String<1024>) -> (empty: bool)
    ensures
        empty == (bit_string_chars(*s).len() == 0),
{
    s.is_empty()
}

/// Hands out the characters of the string, in order.
#[verifier::external_body]
fn bit_string_to_vec(s: &heapless::String<1024>) -> (chars: Vec<char>)
    ensures
        chars@ == bit_string_chars(*s),
{
    s.chars().collect()
}

/// Decodes `bytes` with `utf8_iter::ErrorReportingUtf8Chars`, one item per
/// character or malformed sequence. Besides naming the result, the contract
/// claims two facts that the crate's source shows: every item consumes at
/// least one byte, and a byte below 0x80 is a character of its own.
#[verifier::external_body]
fn decode_utf8(bytes: &[u8]) -> (items: Vec<Option<char>>)
    ensures
        items@ == utf8_decode_reporting(bytes@),
        items.len() <= bytes.len(),
        (forall|i: int| 0 <= i < bytes.len() ==> bytes@[i] < 0x80u8) ==> items@
            == bytes@.map_values(|b: u8| Some(b as char)),
{
    utf8_iter::ErrorReportingUtf8Chars::new(bytes).map(|r| r.ok()).collect()
}

/// The character shown for a decoded item: the character itself, or U+FFFD
/// for a malformed sequence.
pub open spec fn shown_char(item: Option<char>) -> char {
    match item {
        Some(c) => c,
        None => '\u{FFFD}',
    }
}

/// The bit flags of a bit string: a `'1'` is a set bit, anything else a
/// clear one.
pub open spec fn bit_flags(bits: Seq<char>) -> Seq<bool> {
    bits.map_values(|c: char| c == '1')
}

/// The text a bit string stands for.
pub open spec fn decoded_text(bits: Seq<char>) -> Seq<char> {
    utf8_decode_reporting(pack_lsb0(bit_flags(bits))).map_values(|item: Option<char>| shown_char(item))
}

/// The bytes that a bit string packs into.
pub open spec fn packed_bytes(bits: Seq<char>) -> Seq<u8> {
    pack_lsb0(bit_flags(bits))
}

/// All bytes are ASCII.
pub open spec fn all_ascii(bytes: Seq<u8>) -> bool {
    forall|i: int| 0 <= i < bytes.len() ==> bytes[i] < 0x80u8
}

/// ASCII bytes read as characters, one per byte.
pub open spec fn ascii_chars(bytes: Seq<u8>) -> Seq<char> {
    bytes.map_values(|b: u8| b as char)
}

/// A character that the bit string can hold.
pub open spec fn is_bit_char(c: char) -> bool {
    c == '0' || c == '1' || c == '?'
}

/// The character recorded for a bit event.
pub open spec fn bit_char(e: Event) -> char {
    match e {
        Event::DecodedBit(b) => if b {
            '1'
        } else {
            '0'
        },
        _ => '?',
    }
}

/// Whether an event carries a bit.
pub open spec fn is_bit_event(e: Event) -> bool {
    e == Event::DecodedBit(false) || e == Event::DecodedBit(true) || e == Event::DecodedUnknown
}

/// A string of ASCII characters takes one byte per character.
/// The characters the collector records and shows: `'0'` and `'1'` for read
/// bits, `'?'` for an unreadable one; only those three events are bit
/// events; in the text, a malformed sequence shows as U+FFFD and a
/// character as itself; of the bits, only `'1'` is a set bit.
pub proof fn lemma_recorded_chars(bits: Seq<char>, c: char)
    ensures
        bit_char(Event::DecodedBit(false)) == '0',
        bit_char(Event::DecodedBit(true)) == '1',
        bit_char(Event::DecodedUnknown) == '?',
        is_bit_event(Event::DecodedBit(false)),
        is_bit_event(Event::DecodedBit(true)),
        is_bit_event(Event::DecodedUnknown),
        !is_bit_event(Event::NewFrameReady),
        !is_bit_event(Event::DataFragReady),
        shown_char(None) == '\u{FFFD}',
        shown_char(Some(c)) == c,
        bit_flags(bits).len() == bits.len(),
        forall|i: int| 0 <= i < bits.len() ==> bit_flags(bits)[i] == (bits[i] == '1'),
{
}

proof fn lemma_utf8_len_ascii(s: Seq<char>)
    requires
        forall|i: int| 0 <= i < s.len() ==> is_bit_char(#[trigger] s[i]),
    ensures
        utf8_len_of(s) == s.len(),
    decreases s.len(),
{
    if s.len() > 0 {
        assert(is_bit_char(s[s.len() - 1]));
        lemma_utf8_len_ascii(s.drop_last());
    }
}

proof fn lemma_utf8_len_bound(s: Seq<char>)
    ensures
        utf8_len_of(s) <= 4 * s.len(),
    decreases s.len(),
{
    if s.len() > 0 {
        lemma_utf8_len_bound(s.drop_last());
    }
}

/// The bits and the text of one finished frame or fragment.
pub struct FrameText {
    pub bits: Vec<char>,
    pub text: Vec<char>,
}

/// What the collector has to print after one event.
pub struct DecodeOutput {
    /// The bits collected so far and their text, when a frame or a
    /// fragment ended with bits collected.
    pub report: Option<FrameText>,
    /// Whether a new frame opened, which is marked after the report.
    pub frame_marker: bool,
}

/// Collects the bits of a frame and reports them when it ends.
pub struct BitCollector {
    bit_string: heapless::String<1024>,
    bit_counter: usize,
}

impl BitCollector {
    #[verifier::type_invariant]
    spec fn holds_bits(self) -> bool {
        &&& forall|i: int|
            0 <= i < bit_string_chars(self.bit_string).len() ==> is_bit_char(
                #[trigger] bit_string_chars(self.bit_string)[i],
            )
        &&& bit_string_chars(self.bit_string).len() <= BIT_STRING_CAPACITY
    }

    /// The bits collected since the last frame or fragment ended.
    pub closed spec fn bits(&self) -> Seq<char> {
        bit_string_chars(self.bit_string)
    }

    /// The number of bit events since the last frame or fragment ended,
    /// counting those that no longer fitted in the string.
    pub closed spec fn bit_count(&self) -> usize {
        self.bit_counter
    }

    /// An empty collector.
    pub fn new() -> (c: Self)
        ensures
            c.bits() == Seq::<char>::empty(),
            c.bit_count() == 0,
    {
        BitCollector { bit_string: bit_string_new(), bit_counter: 0 }
    }

    /// The number of bit events since the last frame or fragment ended.
    pub fn bit_counter(&self) -> (n: usize)
        ensures
            n == self.bit_count(),
    {
        self.bit_counter
    }

    /// Takes one decoder event: a bit event appends its character while the
    /// string has room; the end of a frame or fragment reports the bits and
    /// their text, if any bits were collected, and starts afresh.
    pub fn on_event(&mut self, event: Event) -> (out: DecodeOutput)
        requires
            is_bit_event(event) ==> old(self).bit_count() < usize::MAX,
        ensures
            is_bit_event(event) ==> {
                &&& final(self).bits() == if old(self).bits().len() < BIT_STRING_CAPACITY {
                    old(self).bits().push(bit_char(event))
                } else {
                    old(self).bits()
                }
                &&& final(self).bit_count() == old(self).bit_count() + 1
                &&& out.report is None
                &&& !out.frame_marker
            },
            !is_bit_event(event) ==> {
                &&& final(self).bits() == Seq::<char>::empty()
                &&& final(self).bit_count() == 0
                &&& out.frame_marker == (event == Event::NewFrameReady)
                &&& (out.report is Some <==> old(self).bits().len() > 0)
                &&& (out.report matches Some(r) ==> r.bits@ == old(self).bits() && r.text@
                    == decoded_text(old(self).bits()))
                &&& (out.report matches Some(r) ==> all_ascii(packed_bytes(old(self).bits()))
                    ==> r.text@ == ascii_chars(packed_bytes(old(self).bits())))
            },
    {
        proof {
            use_type_invariant(&*self);
        }
        match event {
            Event::DecodedBit(_) | Event::DecodedUnknown => {
                let c = match event {
                    Event::DecodedBit(b) => if b {
                        '1'
                    } else {
                        '0'
                    },
                    _ => '?',
                };
                proof {
                    lemma_utf8_len_ascii(bit_string_chars(self.bit_string));
                }
                let mut s = bit_string_new();
                std::mem::swap(&mut s, &mut self.bit_string);
                let _pushed = bit_string_push(&mut s, c);
                proof {
                    assert forall|i: int| 0 <= i < bit_string_chars(s).len() implies is_bit_char(
                        #[trigger] bit_string_chars(s)[i],
                    ) by {
                        if i < old(self).bits().len() {
                            assert(is_bit_char(old(self).bits()[i]));
                        }
                    }
                }
                self.bit_string = s;
                self.bit_counter = self.bit_counter + 1;
                DecodeOutput { report: None, frame_marker: false }
            },
            Event::NewFrameReady => {
                let report = self.flush();
                self.bit_counter = 0;
                DecodeOutput { report, frame_marker: true }
            },
            Event::DataFragReady => {
                let report = self.flush();
                self.bit_counter = 0;
                DecodeOutput { report, frame_marker: false }
            },
        }
    }

    /// Reports the collected bits and their text, if there are any, and
    /// empties the string.
    fn flush(&mut self) -> (report: Option<FrameText>)
        ensures
            final(self).bits() == Seq::<char>::empty(),
            final(self).bit_count() == old(self).bit_count(),
            report is Some <==> old(self).bits().len() > 0,
            report matches Some(r) ==> r.bits@ == old(self).bits() && r.text@ == decoded_text(
                old(self).bits(),
            ),
            report matches Some(r) ==> all_ascii(packed_bytes(old(self).bits())) ==> r.text@
                == ascii_chars(packed_bytes(old(self).bits())),
    {
        proof {
            use_type_invariant(&*self);
        }
        let mut s = bit_string_new();
        std::mem::swap(&mut s, &mut self.bit_string);
        if bit_string_is_empty(&s) {
            return None;
        }
        let bits = bit_string_to_vec(&s);
        let n = bits.len();
        let mut flags: Vec<bool> = Vec::new();
        let mut i: usize = 0;
        while i < n
            invariant
                n == bits.len(),
                i <= n,
                flags@ == bit_flags(bits@).take(i as int),
            decreases n - i,
        {
            flags.push(bits[i] == '1');
            i = i + 1;
            assert(flags@ =~= bit_flags(bits@).take(i as int));
        }
        assert(flags@ =~= bit_flags(bits@));
        let data = pack_bits(&flags);
        let items = decode_utf8(data.as_slice());
        bit_string_clear(&mut s);
        let m = items.len();
        let mut k: usize = 0;
        while k < m
            invariant
                m == items.len(),
                m <= 128,
                k <= m,
                bit_string_chars(s) == items@.take(k as int).map_values(
                    |item: Option<char>| shown_char(item),
                ),
            decreases m - k,
        {
            let shown = match items[k] {
                Some(c) => c,
                None => '\u{FFFD}',
            };
            proof {
                let before = bit_string_chars(s);
                lemma_utf8_len_bound(before);
                assert(utf8_len_of(before) + utf8_len(shown) <= 1024);
            }
            let _pushed = bit_string_push(&mut s, shown);
            k = k + 1;
            assert(bit_string_chars(s) =~= items@.take(k as int).map_values(
                |item: Option<char>| shown_char(item),
            ));
        }
        assert(items@.take(m as int) =~= items@);
        proof {
            if all_ascii(data@) {
                assert(bit_string_chars(s) =~= ascii_chars(data@));
            }
        }
        let text = bit_string_to_vec(&s);
        bit_string_clear(&mut s);
        self.bit_string = s;
        Some(FrameText { bits, text })
    }
}

} // verus!
