//! Owned and borrowed null-terminated UTF-16 strings.
//!
//! Windows "-W" entry points exchange text as null-terminated runs of 16-bit
//! code units. [`WideString`] owns such a run; [`WideStr`] is a read-only view
//! over one. The UTF-16 transcoding itself is defined here as well, as spec
//! functions ([`wide_seq`], [`decode_wide`]) together with verified encoders
//! and decoders, so every conversion carries an exact contract.

use vstd::prelude::*;
use vstd::utf8::char_is_scalar;
use vstd::utf8::char_u32_cast;

verus! {

/// The UTF-16 code units of one character: one unit for a value below
/// `0x10000`, otherwise a high/low surrogate pair.
pub open spec fn wide_char(c: char) -> Seq<u16> {
    if (c as u32) < 0x10000 {
        seq![(c as u32) as u16]
    } else {
        seq![
            (0xD800 + ((c as u32) - 0x10000) / 0x400) as u16,
            (0xDC00 + ((c as u32) - 0x10000) % 0x400) as u16,
        ]
    }
}

/// The UTF-16 code units of a character sequence, without a terminator.
pub open spec fn wide_seq(s: Seq<char>) -> Seq<u16>
    decreases s.len(),
{
    if s.len() == 0 {
        Seq::empty()
    } else {
        wide_char(s[0]) + wide_seq(s.drop_first())
    }
}

/// The UTF-16 code units of a character sequence, with the trailing
/// terminator that the "-W" entry points expect.
pub open spec fn wide_of(s: Seq<char>) -> Seq<u16> {
    wide_seq(s) + seq![0u16]
}

/// Transcoding distributes over concatenation.
pub proof fn lemma_wide_seq_concat(a: Seq<char>, b: Seq<char>)
    ensures
        wide_seq(a + b) == wide_seq(a) + wide_seq(b),
    decreases a.len(),
{
    if a.len() == 0 {
        assert(a + b =~= b);
        assert(wide_seq(a) + wide_seq(b) =~= wide_seq(b));
    } else {
        assert((a + b).drop_first() =~= a.drop_first() + b);
        lemma_wide_seq_concat(a.drop_first(), b);
        assert(wide_char(a[0]) + (wide_seq(a.drop_first()) + wide_seq(b)) =~= (wide_char(a[0])
            + wide_seq(a.drop_first())) + wide_seq(b));
        assert((a + b)[0] == a[0]);
    }
}

proof fn lemma_wide_seq_snoc(s: Seq<char>, i: int)
    requires
        0 <= i < s.len(),
    ensures
        wide_seq(s.take(i + 1)) == wide_seq(s.take(i)) + wide_char(s[i]),
{
    assert(s.take(i + 1) =~= s.take(i) + seq![s[i]]);
    lemma_wide_seq_concat(s.take(i), seq![s[i]]);
    assert(wide_seq(seq![s[i]]) =~= wide_char(s[i])) by {
        let single = seq![s[i]];
        assert(single.drop_first() =~= Seq::<char>::empty());
        assert(wide_seq(single.drop_first()) == Seq::<u16>::empty());
        assert(single[0] == s[i]);
        assert(wide_seq(single) == wide_char(s[i]) + Seq::<u16>::empty());
    }
}

/// Transcodes a string to UTF-16 code units and appends the terminator.
pub fn get_wide_string(text: &str) -> (units: Vec<u16>)
    ensures
        units@ == wide_of(text@),
{
    let n: usize = text.unicode_len();
    let mut units: Vec<u16> = Vec::new();
    let mut i: usize = 0;
    while i < n
        invariant
            n == text@.len(),
            i <= n,
            units@ == wide_seq(text@.take(i as int)),
        decreases n - i,
    {
        let c = text.get_char(i);
        proof {
            char_is_scalar(c);
            lemma_wide_seq_snoc(text@, i as int);
        }
        let v = c as u32;
        if v < 0x10000 {
            units.push(v as u16);
        } else {
            units.push((0xD800 + (v - 0x10000) / 0x400) as u16);
            units.push((0xDC00 + (v - 0x10000) % 0x400) as u16);
        }
        proof {
            assert(units@ =~= wide_seq(text@.take(i as int)) + wide_char(text@[i as int]));
        }
        i = i + 1;
    }
    proof {
        assert(text@.take(n as int) =~= text@);
    }
    units.push(0);
    units
}

/// True of the leading unit of a surrogate pair.
pub open spec fn is_high_surrogate(u: u16) -> bool {
    0xD800 <= u <= 0xDBFF
}

/// True of the trailing unit of a surrogate pair.
pub open spec fn is_low_surrogate(u: u16) -> bool {
    0xDC00 <= u <= 0xDFFF
}

/// The scalar value that a surrogate pair stands for.
pub open spec fn pair_scalar(hi: u16, lo: u16) -> u32
    recommends
        is_high_surrogate(hi),
        is_low_surrogate(lo),
{
    (0x10000 + (hi - 0xD800) * 0x400 + (lo - 0xDC00)) as u32
}

/// Loss-tolerant UTF-16 decoding: a well-formed surrogate pair becomes its
/// scalar, an unpaired surrogate becomes the replacement character, and any
/// other unit stands for itself.
pub open spec fn decode_wide(units: Seq<u16>) -> Seq<char>
    decreases units.len(),
{
    if units.len() == 0 {
        Seq::empty()
    } else if is_high_surrogate(units[0]) && units.len() >= 2 && is_low_surrogate(units[1]) {
        seq![pair_scalar(units[0], units[1]) as char] + decode_wide(units.skip(2))
    } else if is_high_surrogate(units[0]) || is_low_surrogate(units[0]) {
        seq!['\u{FFFD}'] + decode_wide(units.skip(1))
    } else {
        seq![(units[0] as u32) as char] + decode_wide(units.skip(1))
    }
}

/// Relies on `char::from_u32`: `Some` exactly for Unicode scalar values,
/// `None` for surrogate values and values above `char::MAX`.
#[verifier::external_body]
fn char_from_u32(v: u32) -> (c: Option<char>)
    ensures
        match c {
            Some(ch) => ch as u32 == v,
            None => v > 0x10FFFF || (0xD800 <= v <= 0xDFFF),
        },
{
    char::from_u32(v)
}

/// Relies on `String::push`: appends the one character at the end.
#[verifier::external_body]
fn string_push(text: &mut String, c: char)
    ensures
        final(text)@ == old(text)@.push(c),
{
    text.push(c);
}

/// Decodes the first `end` units of the run, loss-tolerantly.
pub fn decode_wide_units(units: &[u16], end: usize) -> (text: String)
    requires
        end <= units@.len(),
    ensures
        text@ == decode_wide(units@.take(end as int)),
{
    let ghost prefix = units@.take(end as int);
    let mut text = String::new();
    let mut i: usize = 0;
    proof {
        assert(prefix.skip(0) =~= prefix);
        assert(text@ + decode_wide(prefix) =~= decode_wide(prefix));
    }
    while i < end
        invariant
            end <= units@.len(),
            i <= end,
            prefix == units@.take(end as int),
            decode_wide(prefix) == text@ + decode_wide(prefix.skip(i as int)),
        decreases end - i,
    {
        let u = units[i];
        let ghost rest = prefix.skip(i as int);
        proof {
            assert(rest[0] == units@[i as int]);
        }
        if 0xD800 <= u && u <= 0xDBFF && i + 1 < end && 0xDC00 <= units[i + 1] && units[i + 1]
            <= 0xDFFF {
            let lo = units[i + 1];
            let v: u32 = 0x10000 + (u as u32 - 0xD800) * 0x400 + (lo as u32 - 0xDC00);
            proof {
                assert(rest[1] == units@[i + 1]);
                assert(v == pair_scalar(u, lo));
            }
            let c = char_from_u32(v);
            proof {
                char_u32_cast(c.unwrap(), v);
                assert(rest.skip(2) =~= prefix.skip(i + 2));
                assert(text@ + (seq![(v as char)] + decode_wide(rest.skip(2))) =~= text@.push(
                    v as char,
                ) + decode_wide(rest.skip(2)));
            }
            string_push(&mut text, c.unwrap());
            i = i + 2;
        } else if 0xD800 <= u && u <= 0xDFFF {
            proof {
                assert(decode_wide(rest) == seq!['\u{FFFD}'] + decode_wide(rest.skip(1))) by {
                    if is_high_surrogate(u) && rest.len() >= 2 && is_low_surrogate(rest[1]) {
                        assert(rest[1] == units@[i + 1]);
                        assert(false);
                    }
                }
                assert(rest.skip(1) =~= prefix.skip(i + 1));
                assert(text@ + (seq!['\u{FFFD}'] + decode_wide(rest.skip(1))) =~= text@.push(
                    '\u{FFFD}',
                ) + decode_wide(rest.skip(1)));
            }
            string_push(&mut text, '\u{FFFD}');
            i = i + 1;
        } else {
            let c = char_from_u32(u as u32);
            proof {
                char_u32_cast(c.unwrap(), u as u32);
                assert(decode_wide(rest) == seq![(u as u32) as char] + decode_wide(rest.skip(1)))
                    by {
                    if is_high_surrogate(u) && rest.len() >= 2 && is_low_surrogate(rest[1]) {
                        assert(false);
                    }
                }
                assert(rest.skip(1) =~= prefix.skip(i + 1));
                assert(text@ + (seq![((u as u32) as char)] + decode_wide(rest.skip(1))) =~= text@
                    .push((u as u32) as char) + decode_wide(rest.skip(1)));
            }
            string_push(&mut text, c.unwrap());
            i = i + 1;
        }
    }
    proof {
        assert(prefix.skip(end as int) =~= Seq::<u16>::empty());
        assert(text@ =~= text@ + decode_wide(prefix.skip(end as int)));
    }
    text
}

/// Decoding inverts encoding: transcoding a character sequence to UTF-16 and
/// decoding the units loss-tolerantly gives the sequence back.
pub proof fn lemma_decode_wide_seq(s: Seq<char>)
    ensures
        decode_wide(wide_seq(s)) == s,
    decreases s.len(),
{
    if s.len() == 0 {
    } else {
        let c = s[0];
        char_is_scalar(c);
        let v = c as u32;
        let units = wide_seq(s);
        let rest = wide_seq(s.drop_first());
        lemma_decode_wide_seq(s.drop_first());
        if v < 0x10000 {
            let u = v as u16;
            assert(u as u32 == v);
            assert(units[0] == u);
            assert(!is_high_surrogate(u) && !is_low_surrogate(u));
            char_u32_cast(c, v);
            assert(units.skip(1) =~= rest);
            assert(decode_wide(units) == seq![c] + decode_wide(rest)) by {
                if is_high_surrogate(units[0]) && units.len() >= 2 && is_low_surrogate(
                    units[1],
                ) {
                    assert(false);
                }
            }
            assert(seq![c] + s.drop_first() =~= s);
        } else {
            let hi = (0xD800 + (v - 0x10000) / 0x400) as u16;
            let lo = (0xDC00 + (v - 0x10000) % 0x400) as u16;
            assert(units[0] == hi && units[1] == lo);
            assert(0 <= (v - 0x10000) / 0x400 <= 0x3FF && 0 <= (v - 0x10000) % 0x400 <= 0x3FF);
            assert(is_high_surrogate(hi) && is_low_surrogate(lo));
            assert(pair_scalar(hi, lo) == v) by {
                assert(hi == 0xD800 + (v - 0x10000) / 0x400);
                assert(lo == 0xDC00 + (v - 0x10000) % 0x400);
                assert((v - 0x10000) / 0x400 * 0x400 + (v - 0x10000) % 0x400 == v - 0x10000);
            }
            char_u32_cast(c, v);
            assert(units.skip(2) =~= rest);
            assert(decode_wide(units) == seq![c] + decode_wide(rest));
            assert(seq![c] + s.drop_first() =~= s);
        }
    }
}

/// The run resized to exactly `n` units: truncated, or zero-padded at the
/// end.
pub open spec fn pad_units(units: Seq<u16>, n: int) -> Seq<u16> {
    if n <= units.len() {
        units.take(n)
    } else {
        units + Seq::new((n - units.len()) as nat, |i: int| 0u16)
    }
}

/// The run with its final unit removed; the empty run stays empty.
pub open spec fn pop_last(units: Seq<u16>) -> Seq<u16> {
    if units.len() == 0 {
        units
    } else {
        units.drop_last()
    }
}

/// True of a run that carries exactly one terminator, as its final unit.
pub open spec fn terminated(units: Seq<u16>) -> bool {
    &&& units.len() > 0
    &&& units.last() == 0
    &&& forall|i: int| 0 <= i < units.len() - 1 ==> units[i] != 0
}

/// An owned, resizable null-terminated UTF-16 string, as the Windows "-W"
/// entry points exchange them.
///
/// The constructors that transcode text leave the run terminated; the sized
/// constructors may truncate the terminator away, which callers filling a
/// fixed-length struct field accept.
#[derive(Debug)]
pub struct WideString {
    pub bytes: Vec<u16>,
}

impl View for WideString {
    type V = Seq<u16>;

    open spec fn view(&self) -> Seq<u16> {
        self.bytes@
    }
}

impl Default for WideString {
    /// A single terminator: the empty wide string, safe to hand to the API.
    fn default() -> (r: Self)
        ensures
            r@ == seq![0u16],
    {
        let mut bytes: Vec<u16> = Vec::new();
        bytes.push(0);
        proof {
            assert(bytes@ =~= seq![0u16]);
        }
        WideString { bytes }
    }
}

impl WideString {
    /// Transcodes native text into a terminated UTF-16 run.
    pub fn from(text: &str) -> (r: Self)
        ensures
            r@ == wide_of(text@),
    {
        WideString { bytes: get_wide_string(text) }
    }

    /// A borrow of the storage, for a Win32 call; it ends where the run ends.
    #[inline]
    pub fn ptr(&self) -> (units: &[u16])
        ensures
            units@ == self@,
    {
        self.bytes.as_slice()
    }

    /// A mutable borrow of the storage, for a Win32 call that writes into it.
    #[inline]
    pub fn mut_ptr(&mut self) -> (units: &mut [u16])
        ensures
            units@ == old(self)@,
            final(self)@ == final(units)@,
    {
        self.bytes.as_mut_slice()
    }

    /// A wide string with no storage at all. **Make sure it is not empty
    /// before handing it to the Windows API**; otherwise start from
    /// `Default`.
    pub fn empty() -> (r: Self)
        ensures
            r@ == Seq::<u16>::empty(),
    {
        WideString { bytes: Vec::new() }
    }

    /// `size` zero units; `size == 0` falls back to the `Default` run `[0]`.
    pub fn with_size(size: usize) -> (r: Self)
        ensures
            size == 0 ==> r@ == seq![0u16],
            size > 0 ==> r@ == Seq::new(size as nat, |i: int| 0u16),
    {
        if size == 0 {
            return Self::default();
        }
        let mut bytes: Vec<u16> = Vec::new();
        bytes.resize(size, 0);
        proof {
            assert(bytes@ =~= Seq::new(size as nat, |i: int| 0u16));
        }
        WideString { bytes }
    }

    /// The transcoded text, resized to exactly `size` units: zero-padded, or
    /// truncated — in which case the run may lack its terminator.
    pub fn from_str_with_size(text: &str, size: usize) -> (r: Self)
        ensures
            r@ == pad_units(wide_of(text@), size as int),
    {
        let mut bytes = get_wide_string(text);
        let ghost before = bytes@;
        bytes.resize(size, 0);
        proof {
            assert(bytes@ =~= pad_units(before, size as int));
        }
        WideString { bytes }
    }

    /// Appends another wide string: the terminator of `self` goes, the whole
    /// run of `other` follows, its terminator included. Does nothing when
    /// `other` is empty.
    pub fn push_wide(&mut self, other: &Self)
        ensures
            other@.len() > 0 ==> final(self)@ == pop_last(old(self)@) + other@,
            other@.len() == 0 ==> final(self)@ == old(self)@,
    {
        let len = other.bytes.len();
        if len > 0 {
            self.bytes.pop();
            let ghost popped = self.bytes@;
            let mut i: usize = 0;
            while i < len
                invariant
                    len == other@.len(),
                    i <= len,
                    self.bytes@ == popped + other@.take(i as int),
                decreases len - i,
            {
                self.bytes.push(other.bytes[i]);
                proof {
                    assert(popped + other@.take(i + 1) =~= (popped + other@.take(i as int)).push(
                        other@[i as int],
                    ));
                }
                i = i + 1;
            }
            proof {
                assert(other@.take(len as int) =~= other@);
            }
        }
    }

    /// Appends native text: the terminator of `self` goes, the transcoded
    /// run follows, terminator included. Does nothing when `text` is empty.
    pub fn push_str(&mut self, text: &str)
        ensures
            text@.len() > 0 ==> final(self)@ == pop_last(old(self)@) + wide_of(text@),
            text@.len() == 0 ==> final(self)@ == old(self)@,
    {
        if !text.is_empty() {
            let wide = get_wide_string(text);
            self.bytes.pop();
            let ghost popped = self.bytes@;
            let mut i: usize = 0;
            let len = wide.len();
            while i < len
                invariant
                    len == wide@.len(),
                    i <= len,
                    self.bytes@ == popped + wide@.take(i as int),
                decreases len - i,
            {
                self.bytes.push(wide[i]);
                proof {
                    assert(popped + wide@.take(i + 1) =~= (popped + wide@.take(i as int)).push(
                        wide@[i as int],
                    ));
                }
                i = i + 1;
            }
            proof {
                assert(wide@.take(len as int) =~= wide@);
            }
        }
    }

    /// Decodes the run, excluding its final unit, into native text; unpaired
    /// surrogates come out as the replacement character.
    pub fn to_string(&self) -> (text: String)
        requires
            self@.len() > 0,
        ensures
            text@ == decode_wide(self@.drop_last()),
    {
        let end = self.bytes.len() - 1;
        let text = decode_wide_units(self.bytes.as_slice(), end);
        proof {
            assert(self@.take(end as int) =~= self@.drop_last());
        }
        text
    }
}

/// The index of the first terminator in the run, or its length when none
/// appears.
pub open spec fn scan_len(units: Seq<u16>) -> int
    decreases units.len(),
{
    if units.len() == 0 {
        0
    } else if units[0] == 0 {
        0
    } else {
        1 + scan_len(units.drop_first())
    }
}

/// The run through its first terminator inclusive — the span a Win32 caller
/// would read — or the whole run when no terminator appears.
pub open spec fn scanned(units: Seq<u16>) -> Seq<u16> {
    if scan_len(units) < units.len() {
        units.take(scan_len(units) + 1)
    } else {
        units
    }
}

/// The index that a forward scan stops at is [`scan_len`].
proof fn lemma_scan_len_is(units: Seq<u16>, i: int)
    requires
        0 <= i <= units.len(),
        forall|j: int| 0 <= j < i ==> units[j] != 0,
        i < units.len() ==> units[i] == 0,
    ensures
        i == scan_len(units),
    decreases units.len(),
{
    if units.len() == 0 {
    } else if units[0] == 0 {
    } else {
        assert(units.drop_first() =~= units.skip(1));
        lemma_scan_len_is(units.drop_first(), i - 1);
    }
}

/// A read-only view over an externally owned, null-terminated run of UTF-16
/// code units — for text that a Win32 call handed back. The embedding
/// program asserts that a terminator lies within the borrowed span.
#[derive(Debug, Clone, Copy)]
pub struct WideStr<'a> {
    units: &'a [u16],
}

impl<'a> View for WideStr<'a> {
    type V = Seq<u16>;

    closed spec fn view(&self) -> Seq<u16> {
        self.units@
    }
}

impl<'a> WideStr<'a> {
    /// Adopts a borrowed span of code units.
    pub fn from(units: &'a [u16]) -> (r: Self)
        ensures
            r@ == units@,
    {
        WideStr { units }
    }

    /// Borrows the storage of a [`WideString`].
    pub fn from_buffer(buffer: &'a WideString) -> (r: Self)
        ensures
            r@ == buffer@,
    {
        WideStr { units: buffer.bytes.as_slice() }
    }

    /// The span through the first terminator inclusive, found by a forward
    /// scan; the whole span when no terminator appears.
    pub fn as_bytes(&self) -> (run: &[u16])
        ensures
            run@ == scanned(self@),
    {
        let n = self.units.len();
        let mut i: usize = 0;
        while i < n && self.units[i] != 0
            invariant
                n == self@.len(),
                i <= n,
                forall|j: int| 0 <= j < i ==> self@[j] != 0,
            decreases n - i,
        {
            i = i + 1;
        }
        proof {
            lemma_scan_len_is(self@, i as int);
        }
        if i < n {
            let run = vstd::slice::slice_subrange(self.units, 0, i + 1);
            proof {
                assert(run@ =~= scanned(self@));
            }
            run
        } else {
            proof {
                assert(scanned(self@) =~= self@);
            }
            self.units
        }
    }

    /// Copies the scanned span into an owned [`WideString`].
    pub fn to_wide_string(&self) -> (r: WideString)
        ensures
            r@ == scanned(self@),
    {
        let run = self.as_bytes();
        let bytes = vstd::slice::slice_to_vec(run);
        WideString { bytes }
    }

    /// Decodes the units before the first terminator into native text;
    /// unpaired surrogates come out as the replacement character.
    pub fn to_string(&self) -> (text: String)
        ensures
            text@ == decode_wide(self@.take(scan_len(self@))),
    {
        let n = self.units.len();
        let mut i: usize = 0;
        while i < n && self.units[i] != 0
            invariant
                n == self@.len(),
                i <= n,
                forall|j: int| 0 <= j < i ==> self@[j] != 0,
            decreases n - i,
        {
            i = i + 1;
        }
        proof {
            lemma_scan_len_is(self@, i as int);
        }
        decode_wide_units(self.units, i)
    }
}

/// A run transcoded from text that holds no NUL character has no zero unit.
pub proof fn lemma_wide_seq_no_zero(s: Seq<char>)
    requires
        forall|i: int| 0 <= i < s.len() ==> s[i] != '\0',
    ensures
        forall|i: int| 0 <= i < wide_seq(s).len() ==> wide_seq(s)[i] != 0,
    decreases s.len(),
{
    if s.len() == 0 {
    } else {
        let c = s[0];
        char_is_scalar(c);
        assert(c as u32 != 0) by {
            char_u32_cast(c, c as u32);
            if c as u32 == 0 {
                assert(('\0' as u32) as char == '\0');
            }
        }
        lemma_wide_seq_no_zero(s.drop_first());
        assert forall|i: int| 0 <= i < wide_seq(s).len() implies wide_seq(s)[i] != 0 by {
            if i >= wide_char(c).len() {
                assert(wide_seq(s.drop_first())[i - wide_char(c).len()] != 0);
            }
        }
    }
}

/// Round trip: transcoding text and decoding the run back, terminator
/// excluded, returns the text — for every character sequence.
pub proof fn lemma_round_trip(s: Seq<char>)
    ensures
        wide_of(s).len() == wide_seq(s).len() + 1,
        decode_wide(wide_of(s).drop_last()) == s,
{
    assert(wide_of(s).drop_last() =~= wide_seq(s));
    lemma_decode_wide_seq(s);
}

/// Layout of a padded run whose size exceeds the transcoded length: exactly
/// `n` units, the transcoded prefix, the terminator right after it, and
/// zeros through the end.
pub proof fn lemma_padded_layout(s: Seq<char>, n: int)
    requires
        n > wide_seq(s).len() + 1,
    ensures
        pad_units(wide_of(s), n).len() == n,
        pad_units(wide_of(s), n).take(wide_seq(s).len() as int) == wide_seq(s),
        forall|k: int| wide_seq(s).len() <= k < n ==> pad_units(wide_of(s), n)[k] == 0,
{
    let padded = pad_units(wide_of(s), n);
    assert(padded.take(wide_seq(s).len() as int) =~= wide_seq(s));
}

/// Appending one terminated run to another drops the terminator between
/// them and yields the run of the concatenated text: the decoded result is
/// the two decoded texts joined, and — when neither text holds a NUL
/// character — the run carries exactly one terminator, at its end.
pub proof fn lemma_push_wide_concat(a: Seq<char>, b: Seq<char>)
    ensures
        pop_last(wide_of(a)) + wide_of(b) == wide_of(a + b),
        decode_wide(wide_of(a + b).drop_last()) == a + b,
        (forall|i: int| 0 <= i < a.len() ==> a[i] != '\0') && (forall|i: int|
            0 <= i < b.len() ==> b[i] != '\0') ==> terminated(wide_of(a + b)),
{
    lemma_wide_seq_concat(a, b);
    assert(pop_last(wide_of(a)) =~= wide_seq(a));
    assert(pop_last(wide_of(a)) + wide_of(b) =~= wide_of(a + b));
    lemma_round_trip(a + b);
    if (forall|i: int| 0 <= i < a.len() ==> a[i] != '\0') && (forall|i: int|
        0 <= i < b.len() ==> b[i] != '\0') {
        assert forall|i: int| 0 <= i < (a + b).len() implies (a + b)[i] != '\0' by {}
        lemma_wide_seq_no_zero(a + b);
        assert(terminated(wide_of(a + b))) by {
            assert forall|i: int| 0 <= i < wide_of(a + b).len() - 1 implies wide_of(a + b)[i]
                != 0 by {
                assert(wide_of(a + b)[i] == wide_seq(a + b)[i]);
            }
        }
    }
}

/// The borrow that [`WideString::ptr`] hands out points at a run whose
/// forward scan stops at the terminator in final position — for every run
/// transcoded from text without NUL characters.
pub proof fn lemma_terminator_offset(s: Seq<char>)
    requires
        forall|i: int| 0 <= i < s.len() ==> s[i] != '\0',
    ensures
        terminated(wide_of(s)),
        scan_len(wide_of(s)) == wide_of(s).len() - 1,
{
    lemma_wide_seq_no_zero(s);
    assert forall|i: int| 0 <= i < wide_of(s).len() - 1 implies wide_of(s)[i] != 0 by {
        assert(wide_of(s)[i] == wide_seq(s)[i]);
    }
    lemma_scan_len_is(wide_of(s), wide_of(s).len() - 1);
}

} // verus!
