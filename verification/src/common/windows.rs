//! Wide strings for the Windows API.
use vstd::prelude::*;
use vstd::utf8::char_u32_cast;

verus! {

/// The UTF-16 code units of one character: the character itself inside the
/// basic plane, a high and a low surrogate above it.
pub open spec fn utf16_of_char(c: char) -> Seq<u16> {
    let code = c as u32 as int;
    if code < 0x10000 {
        seq![code as u16]
    } else {
        seq![
            (0xD800 + (code - 0x10000) / 0x400) as u16,
            (0xDC00 + (code - 0x10000) % 0x400) as u16,
        ]
    }
}

/// The UTF-16 encoding of a text, character after character.
pub open spec fn utf16(text: Seq<char>) -> Seq<u16>
    decreases text.len(),
{
    if text.len() == 0 {
        Seq::empty()
    } else {
        utf16(text.drop_last()) + utf16_of_char(text.last())
    }
}

/// The wide string of a text: its UTF-16 encoding and a closing zero.
pub open spec fn wide_string(text: Seq<char>) -> Seq<u16> {
    utf16(text).push(0u16)
}

/// The encoding loses nothing: a character of the basic plane is its own
/// single unit, which is no surrogate; any other character becomes a high
/// surrogate followed by a low one, and the two give the character back.
pub proof fn lemma_utf16_of_char_decodes(c: char)
    ensures
        ({
            let code = c as u32 as int;
            let units = utf16_of_char(c);
            if code < 0x10000 {
                &&& units.len() == 1
                &&& units[0] == code
                &&& !(0xD800 <= units[0] <= 0xDFFF)
            } else {
                &&& units.len() == 2
                &&& 0xD800 <= units[0] <= 0xDBFF
                &&& 0xDC00 <= units[1] <= 0xDFFF
                &&& code == 0x10000 + (units[0] - 0xD800) * 0x400 + (units[1] - 0xDC00)
            }
        }),
{
}

/// A wide string is never empty, ends in zero, and has one or two units for
/// each character of the text before that zero.
pub proof fn lemma_wide_string_shape(text: Seq<char>)
    ensures
        wide_string(text).last() == 0,
        text.len() + 1 <= wide_string(text).len() <= 2 * text.len() + 1,
    decreases text.len(),
{
    if text.len() > 0 {
        lemma_wide_string_shape(text.drop_last());
    }
}

/// Encoding a text that ends in `c` is encoding the text before it and then
/// `c`.
pub proof fn lemma_utf16_push(text: Seq<char>, c: char)
    ensures
        utf16(text.push(c)) == utf16(text) + utf16_of_char(c),
{
    assert(text.push(c).drop_last() == text);
}

/// Two texts with the same encoding are the same text.
pub proof fn lemma_utf16_is_injective(a: Seq<char>, b: Seq<char>)
    requires
        utf16(a) == utf16(b),
    ensures
        a == b,
    decreases a.len(),
{
    lemma_wide_string_shape(a);
    lemma_wide_string_shape(b);
    if a.len() == 0 || b.len() == 0 {
        assert(a =~= b);
    } else {
        let c = a.last();
        let d = b.last();
        let before_a = utf16(a.drop_last());
        let before_b = utf16(b.drop_last());
        lemma_utf16_of_char_decodes(c);
        lemma_utf16_of_char_decodes(d);
        // The last unit is a low surrogate if and only if the last character
        // took two units, so both took as many, and the units give them back.
        assert(utf16(a).last() == utf16_of_char(c).last());
        assert(utf16(b).last() == utf16_of_char(d).last());
        if utf16_of_char(c).len() == 2 {
            assert(utf16(a)[utf16(a).len() - 2] == utf16_of_char(c)[0]);
            assert(utf16(b)[utf16(b).len() - 2] == utf16_of_char(d)[0]);
        }
        char_u32_cast(c, c as u32);
        char_u32_cast(d, d as u32);
        assert(before_a == utf16(a).take(before_a.len() as int));
        assert(before_b == utf16(b).take(before_b.len() as int));
        lemma_utf16_is_injective(a.drop_last(), b.drop_last());
        assert(a == a.drop_last().push(c));
        assert(b == b.drop_last().push(d));
    }
}

/// Two texts with the same wide string are the same text.
pub proof fn lemma_wide_string_is_injective(a: Seq<char>, b: Seq<char>)
    requires
        wide_string(a) == wide_string(b),
    ensures
        a == b,
{
    assert(utf16(a) == wide_string(a).drop_last());
    assert(utf16(b) == wide_string(b).drop_last());
    lemma_utf16_is_injective(a, b);
}

/// Text handles that can be handed to a wide-character API.
pub trait Wide {
    /// The characters of the handle.
    spec fn text(&self) -> Seq<char>;

    /// The handle as a zero-terminated sequence of UTF-16 code units. There
    /// is no text for which this fails.
    fn wide(&self) -> (units: Vec<u16>)
        ensures
            units@ == wide_string(self.text()),
    ;
}

impl Wide for str {
    open spec fn text(&self) -> Seq<char> {
        self@
    }

    fn wide(&self) -> (units: Vec<u16>) {
        let mut units: Vec<u16> = Vec::new();
        for c in chars: self.chars()
            invariant
                chars.seq() == self@,
                units@ == utf16(self@.take(chars.index() as int)),
        {
            proof {
                let done = self@.take(chars.index() as int);
                lemma_utf16_push(done, c);
                assert(done.push(c) == self@.take(chars.index() + 1));
            }
            let code: u32 = c as u32;
            if code < 0x10000 {
                units.push(code as u16);
            } else {
                let above: u32 = code - 0x10000;
                units.push((0xD800 + above / 0x400) as u16);
                units.push((0xDC00 + above % 0x400) as u16);
            }
        }
        assert(self@.take(self@.len() as int) == self@);
        units.push(0);
        units
    }
}

impl Wide for String {
    open spec fn text(&self) -> Seq<char> {
        self@
    }

    fn wide(&self) -> (units: Vec<u16>) {
        self.as_str().wide()
    }
}

} // verus!
