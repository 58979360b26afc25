//! Text as the operating system exchanges it: sequences of UTF-16 code units.

use vstd::prelude::*;

verus! {

/// The UTF-16 code units of one character: the character itself where it lies
/// in the basic plane, a high and a low surrogate otherwise.
pub open spec fn utf16_units(c: char) -> Seq<u16> {
    let v = c as u32;
    if v < 0x10000 {
        seq![v as u16]
    } else {
        seq![(0xD800 + (v - 0x10000) / 0x400) as u16, (0xDC00 + (v - 0x10000) % 0x400) as u16]
    }
}

/// The UTF-16 encoding of a text, character by character.
pub open spec fn encode_utf16(text: Seq<char>) -> Seq<u16>
    decreases text.len(),
{
    if text.len() == 0 {
        Seq::empty()
    } else {
        encode_utf16(text.drop_last()) + utf16_units(text.last())
    }
}

/// A text as a wide string: its UTF-16 encoding, closed by a zero unit.
pub open spec fn wide_string(text: Seq<char>) -> Seq<u16> {
    encode_utf16(text).push(0)
}

/// Encodes `text` as a zero-terminated wide string.
pub fn to_wide(text: &str) -> (wide: Vec<u16>)
    ensures
        wide@ == wide_string(text@),
{
    let mut wide: Vec<u16> = Vec::new();
    let ghost mut seen: Seq<char> = Seq::empty();
    for c in it: text.chars()
        invariant
            it.seq() == text@,
            seen == text@.take(it.index()),
            it.index() == text@.len() ==> seen == text@,
            wide@ == encode_utf16(seen),
    {
        proof {
            let after = text@.take(it.index() + 1);
            assert(after.drop_last() == seen);
            assert(after.last() == c);
            seen = after;
        }
        let v: u32 = c as u32;
        if v < 0x10000 {
            wide.push(v as u16);
        } else {
            let offset: u32 = v - 0x10000;
            wide.push((0xD800 + offset / 0x400) as u16);
            wide.push((0xDC00 + offset % 0x400) as u16);
        }
    }
    wide.push(0);
    wide
}

/// What `units` decode to when read from the front, or `None` where a
/// surrogate stands without its partner.
spec fn decode_utf16(units: Seq<u16>) -> Option<Seq<char>>
    decreases units.len(),
{
    if units.len() == 0 {
        Some(Seq::empty())
    } else if units[0] < 0xD800 || units[0] >= 0xE000 {
        prefixed(seq![units[0] as char], decode_utf16(units.skip(1)))
    } else if units[0] < 0xDC00 && units.len() >= 2 && 0xDC00 <= units[1] < 0xE000 {
        prefixed(
            seq![(0x10000 + (units[0] - 0xD800) * 0x400 + (units[1] - 0xDC00)) as char],
            decode_utf16(units.skip(2)),
        )
    } else {
        None
    }
}

/// `head` followed by `tail`, where there is a tail.
spec fn prefixed(head: Seq<char>, tail: Option<Seq<char>>) -> Option<Seq<char>> {
    match tail {
        Some(rest) => Some(head + rest),
        None => None,
    }
}

/// Encoding distributes over concatenation.
proof fn lemma_encode_concat(a: Seq<char>, b: Seq<char>)
    ensures
        encode_utf16(a + b) == encode_utf16(a) + encode_utf16(b),
    decreases b.len(),
{
    if b.len() == 0 {
        assert(a + b == a);
    } else {
        lemma_encode_concat(a, b.drop_last());
        assert((a + b).drop_last() == a + b.drop_last());
        assert((a + b).last() == b.last());
    }
}

/// The encoding of a single character is its code units.
proof fn lemma_encode_single(c: char)
    ensures
        encode_utf16(seq![c]) == utf16_units(c),
{
    assert(seq![c].drop_last() == Seq::<char>::empty());
    assert(encode_utf16(seq![c].drop_last()) == Seq::<u16>::empty());
}

/// Decoding undoes encoding.
proof fn lemma_decode_inverts_encode(text: Seq<char>)
    ensures
        decode_utf16(encode_utf16(text)) == Some(text),
    decreases text.len(),
{
    if text.len() == 0 {
    } else {
        let c = text[0];
        let rest = text.drop_first();
        let v = c as u32;
        lemma_decode_inverts_encode(rest);
        assert(text == seq![c] + rest);
        lemma_encode_concat(seq![c], rest);
        lemma_encode_single(c);
        let units = encode_utf16(text);
        assert(units == utf16_units(c) + encode_utf16(rest));
        vstd::utf8::char_is_scalar(c);
        vstd::utf8::char_u32_cast(c, v);
        if v < 0x10000 {
            assert(units[0] == v as u16);
            assert(units.skip(1) == encode_utf16(rest));
            assert(units[0] as char == c);
        } else {
            let offset = (v - 0x10000) as int;
            assert(0 <= offset / 0x400 < 0x400);
            assert(units[0] == 0xD800 + offset / 0x400);
            assert(units[1] == 0xDC00 + offset % 0x400);
            assert(units.skip(2) == encode_utf16(rest));
            assert(0x10000 + (units[0] - 0xD800) * 0x400 + (units[1] - 0xDC00) == v);
            assert(v as char == c);
        }
    }
}

/// No two texts share an encoding: the units determine the text.
pub proof fn lemma_encoding_is_injective(a: Seq<char>, b: Seq<char>)
    requires
        encode_utf16(a) == encode_utf16(b),
    ensures
        a == b,
{
    lemma_decode_inverts_encode(a);
    lemma_decode_inverts_encode(b);
}

/// The text that `units` encode, if they encode one.
pub open spec fn decoded(units: Seq<u16>) -> Option<Seq<char>> {
    if exists|text: Seq<char>| encode_utf16(text) == units {
        Some(choose|text: Seq<char>| encode_utf16(text) == units)
    } else {
        None
    }
}

/// Decoding undoes encoding: the units of a text encode that text and no other.
pub proof fn lemma_decoded_inverts_encoding(text: Seq<char>)
    ensures
        decoded(encode_utf16(text)) == Some(text),
{
    let found = choose|other: Seq<char>| encode_utf16(other) == encode_utf16(text);
    lemma_encoding_is_injective(found, text);
}

/// Reads `units` as UTF-16. Gives the text that they encode, or `None` where
/// they encode none: where a surrogate stands without its partner.
pub fn from_wide(units: &[u16]) -> (text: Option<Vec<char>>)
    ensures
        match text {
            Some(chars) => decoded(units@) == Some(chars@),
            None => decoded(units@) is None,
        },
{
    let mut chars: Vec<char> = Vec::new();
    let mut i: usize = 0;
    proof {
        assert(units@.skip(0) == units@);
        assert(forall|rest: Seq<char>| chars@ + rest == rest);
    }
    while i < units.len()
        invariant
            i <= units.len(),
            encode_utf16(chars@) == units@.take(i as int),
            decode_utf16(units@) == prefixed(chars@, decode_utf16(units@.skip(i as int))),
        decreases units.len() - i,
    {
        let ghost tail = units@.skip(i as int);
        let ghost before = chars@;
        let first: u16 = units[i];
        assert(tail[0] == first);
        let scalar: u32;
        let width: usize;
        if first < 0xD800 || first >= 0xE000 {
            scalar = first as u32;
            width = 1;
        } else if first < 0xDC00 && units.len() - i >= 2 && 0xDC00 <= units[i + 1] && units[i + 1]
            < 0xE000 {
            assert(tail[1] == units[i + 1]);
            scalar = 0x10000 + (first as u32 - 0xD800) * 0x400 + (units[i + 1] as u32 - 0xDC00);
            width = 2;
        } else {
            proof {
                assert(decode_utf16(tail) is None);
                assert forall|s: Seq<char>| encode_utf16(s) != units@ by {
                    lemma_decode_inverts_encode(s);
                }
            }
            return None;
        }
        let c = char::from_u32(scalar).unwrap();
        chars.push(c);
        proof {
            vstd::utf8::char_u32_cast(c, scalar);
            assert(tail.skip(width as int) == units@.skip(i + width));
            assert(decode_utf16(tail) == prefixed(seq![c], decode_utf16(units@.skip(i + width))));
            assert(forall|rest: Seq<char>| before + (seq![c] + rest) == chars@ + rest);
            assert(chars@.drop_last() == before);
            assert(units@.take(i + width) == units@.take(i as int) + utf16_units(c));
        }
        i += width;
    }
    proof {
        assert(units@.take(i as int) == units@);
        lemma_decoded_inverts_encoding(chars@);
    }
    Some(chars)
}

/// Whether `c` is white space: one of the characters to which Unicode gives
/// the property of that name.
pub open spec fn is_space(c: char) -> bool {
    let v = c as u32;
    ||| 0x09 <= v <= 0x0D
    ||| v == 0x20
    ||| v == 0x85
    ||| v == 0xA0
    ||| v == 0x1680
    ||| 0x2000 <= v <= 0x200A
    ||| v == 0x2028
    ||| v == 0x2029
    ||| v == 0x202F
    ||| v == 0x205F
    ||| v == 0x3000
}

/// Tells whether `c` is white space.
pub fn is_whitespace(c: char) -> (space: bool)
    ensures
        space == is_space(c),
{
    let v: u32 = c as u32;
    (0x09 <= v && v <= 0x0D) || v == 0x20 || v == 0x85 || v == 0xA0 || v == 0x1680 || (0x2000 <= v
        && v <= 0x200A) || v == 0x2028 || v == 0x2029 || v == 0x202F || v == 0x205F || v == 0x3000
}

/// `text` without the white space that it begins with.
pub open spec fn skip_leading_space(text: Seq<char>) -> Seq<char>
    decreases text.len(),
{
    if text.len() > 0 && is_space(text[0]) {
        skip_leading_space(text.drop_first())
    } else {
        text
    }
}

/// `text` without the white space that it ends with.
pub open spec fn drop_trailing_space(text: Seq<char>) -> Seq<char>
    decreases text.len(),
{
    if text.len() > 0 && is_space(text.last()) {
        drop_trailing_space(text.drop_last())
    } else {
        text
    }
}

/// `text` without the white space around it.
pub open spec fn trimmed(text: Seq<char>) -> Seq<char> {
    drop_trailing_space(skip_leading_space(text))
}

/// The number of bytes that `text` takes in UTF-8.
pub open spec fn utf8_len(text: Seq<char>) -> nat {
    vstd::utf8::encode_utf8(text).len()
}

/// How many characters from the front of `text` fit, whole, into `budget`
/// bytes of UTF-8.
pub open spec fn fitting(text: Seq<char>, budget: nat) -> nat
    decreases text.len(),
{
    if text.len() == 0 || utf8_len(seq![text[0]]) > budget {
        0
    } else {
        1 + fitting(text.drop_first(), (budget - utf8_len(seq![text[0]])) as nat)
    }
}

/// The text of a system message as it is handed out: `text` cut to the length
/// in bytes that it has once trimmed, and never inside a character. A text
/// that begins with no white space is thereby rid of the white space at its
/// end, which is how system messages arrive: closed by a line break.
pub open spec fn message_text(text: Seq<char>) -> Seq<char> {
    text.take(fitting(text, utf8_len(trimmed(text))) as int)
}

/// The number of bytes that `c` takes in UTF-8.
fn utf8_width(c: char) -> (width: u8)
    ensures
        width == utf8_len(seq![c]),
        1 <= width <= 4,
{
    proof {
        lemma_utf8_len_prepend(c, Seq::empty());
        assert(seq![c] + Seq::<char>::empty() == seq![c]);
        vstd::utf8::char_is_scalar(c);
    }
    let v: u32 = c as u32;
    if v < 0x80 {
        1
    } else if v < 0x800 {
        2
    } else if v < 0x10000 {
        3
    } else {
        4
    }
}

/// A character in front of a text adds its own bytes to the text's length.
proof fn lemma_utf8_len_prepend(c: char, rest: Seq<char>)
    ensures
        utf8_len(seq![c] + rest) == vstd::utf8::encode_scalar(c as u32).len() + utf8_len(rest),
{
    let whole = seq![c] + rest;
    assert(whole.drop_first() == rest);
    assert(whole[0] == c);
}

/// A character in front of a text adds the bytes of the one to those of the other.
proof fn lemma_utf8_len_split(c: char, rest: Seq<char>)
    ensures
        utf8_len(seq![c] + rest) == utf8_len(seq![c]) + utf8_len(rest),
{
    lemma_utf8_len_prepend(c, rest);
    lemma_utf8_len_prepend(c, Seq::empty());
    assert(seq![c] + Seq::<char>::empty() == seq![c]);
}

/// What is left of a text without its trailing white space is a prefix of it.
proof fn lemma_drop_trailing_is_prefix(text: Seq<char>) -> (k: int)
    ensures
        0 <= k <= text.len(),
        drop_trailing_space(text) == text.take(k),
    decreases text.len(),
{
    if text.len() > 0 && is_space(text.last()) {
        let k = lemma_drop_trailing_is_prefix(text.drop_last());
        assert(text.drop_last().take(k) == text.take(k));
        k
    } else {
        assert(text.take(text.len() as int) == text);
        text.len() as int
    }
}

/// Into the bytes of a prefix fit the characters of that prefix, and no more.
proof fn lemma_fitting_prefix(text: Seq<char>, k: int)
    requires
        0 <= k <= text.len(),
    ensures
        fitting(text, utf8_len(text.take(k))) == k,
    decreases text.len(),
{
    if text.len() == 0 {
    } else {
        let c = text[0];
        let rest = text.drop_first();
        lemma_utf8_len_prepend(c, Seq::empty());
        assert(seq![c] + Seq::<char>::empty() == seq![c]);
        vstd::utf8::char_is_scalar(c);
        assert(utf8_len(seq![c]) >= 1);
        if k == 0 {
            assert(text.take(0) == Seq::<char>::empty());
        } else {
            lemma_fitting_prefix(rest, k - 1);
            lemma_utf8_len_split(c, rest.take(k - 1));
            assert(seq![c] + rest.take(k - 1) == text.take(k));
        }
    }
}

/// A message that begins with no white space is handed out without the white
/// space at its end, and otherwise whole.
pub proof fn lemma_message_without_trailing_space(text: Seq<char>)
    requires
        text.len() == 0 || !is_space(text[0]),
    ensures
        message_text(text) == drop_trailing_space(text),
{
    let k = lemma_drop_trailing_is_prefix(text);
    lemma_fitting_prefix(text, k);
}

/// A message of nothing but white space is handed out empty.
pub proof fn lemma_blank_message_is_empty(text: Seq<char>)
    requires
        forall|i: int| 0 <= i < text.len() ==> is_space(#[trigger] text[i]),
    ensures
        message_text(text) == Seq::<char>::empty(),
    decreases text.len(),
{
    lemma_skip_leading_blank(text);
    if text.len() > 0 {
        lemma_utf8_len_prepend(text[0], Seq::empty());
        assert(seq![text[0]] + Seq::<char>::empty() == seq![text[0]]);
        vstd::utf8::char_is_scalar(text[0]);
    }
}

/// Nothing is left of a text of white space once the leading white space is gone.
proof fn lemma_skip_leading_blank(text: Seq<char>)
    requires
        forall|i: int| 0 <= i < text.len() ==> is_space(#[trigger] text[i]),
    ensures
        skip_leading_space(text) == Seq::<char>::empty(),
    decreases text.len(),
{
    if text.len() > 0 {
        assert forall|i: int| 0 <= i < text.drop_first().len() implies is_space(
            #[trigger] text.drop_first()[i],
        ) by {
            assert(text.drop_first()[i] == text[i + 1]);
        }
        lemma_skip_leading_blank(text.drop_first());
    }
}

/// Cuts the text of a system message as `message_text` says.
pub fn cut_message(chars: &[char]) -> (message: String)
    ensures
        message@ == message_text(chars@),
{
    let n = chars.len();
    let mut start: usize = 0;
    proof {
        assert(chars@.skip(0) == chars@);
    }
    while start < n && is_whitespace(chars[start])
        invariant
            n == chars@.len(),
            start <= n,
            skip_leading_space(chars@) == skip_leading_space(chars@.skip(start as int)),
        decreases n - start,
    {
        proof {
            assert(chars@.skip(start as int).drop_first() == chars@.skip(start + 1));
        }
        start += 1;
    }
    let mut end: usize = n;
    proof {
        assert(chars@.skip(start as int) == chars@.subrange(start as int, end as int));
    }
    while end > start && is_whitespace(chars[end - 1])
        invariant
            n == chars@.len(),
            start <= end <= n,
            trimmed(chars@) == drop_trailing_space(chars@.subrange(start as int, end as int)),
        decreases end,
    {
        proof {
            assert(chars@.subrange(start as int, end as int).drop_last() == chars@.subrange(
                start as int,
                end - 1,
            ));
        }
        end -= 1;
    }
    // Four bytes for each of `usize::MAX` characters do not fit into a `usize`.
    let mut budget: u128 = 0;
    let mut from: usize = end;
    proof {
        assert(chars@.subrange(end as int, end as int) == Seq::<char>::empty());
    }
    while from > start
        invariant
            n == chars@.len(),
            start <= from <= end <= n,
            budget == utf8_len(chars@.subrange(from as int, end as int)),
            budget <= 4 * (end - from),
        decreases from,
    {
        from -= 1;
        let width = utf8_width(chars[from]);
        proof {
            lemma_utf8_len_split(chars@[from as int], chars@.subrange(from + 1, end as int));
            assert(seq![chars@[from as int]] + chars@.subrange(from + 1, end as int)
                == chars@.subrange(from as int, end as int));
        }
        budget += width as u128;
    }
    let ghost whole = budget;
    let mut kept: usize = 0;
    while kept < n && utf8_width(chars[kept]) as u128 <= budget
        invariant
            n == chars@.len(),
            kept <= n,
            fitting(chars@, whole as nat) == kept + fitting(
                chars@.skip(kept as int),
                budget as nat,
            ),
        decreases n - kept,
    {
        proof {
            assert(chars@.skip(kept as int).drop_first() == chars@.skip(kept + 1));
        }
        budget -= utf8_width(chars[kept]) as u128;
        kept += 1;
    }
    let mut message = String::new();
    let mut copied: usize = 0;
    while copied < kept
        invariant
            n == chars@.len(),
            copied <= kept <= n,
            message@ == chars@.take(copied as int),
        decreases kept - copied,
    {
        message.push(chars[copied]);
        proof {
            assert(chars@.take(copied + 1) == chars@.take(copied as int).push(chars@[copied as int]));
        }
        copied += 1;
    }
    message
}

/// `String::push` puts one character at the end of the string.
pub assume_specification[ String::push ](s: &mut String, ch: char)
    ensures
        final(s)@ == old(s)@.push(ch),
;

/// `char::from_u32` gives the character with the scalar value `i`, or `None`
/// where `i` is no scalar value: where it is a surrogate or lies beyond the
/// last code point.
pub assume_specification[ char::from_u32 ](i: u32) -> (r: Option<char>)
    ensures
        match r {
            Some(c) => c as u32 == i,
            None => !(i < 0xD800 || (0xE000 <= i && i <= 0x10FFFF)),
        },
;

} // verus!
