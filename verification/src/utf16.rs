//! UTF-16: the code units of a text, and the text behind a run of code units.
use vstd::prelude::*;

verus! {

/// `char::from_u32` gives the character with the given scalar value, and nothing for a value
/// that is a surrogate or lies above the last code point.
pub assume_specification[ char::from_u32 ](value: u32) -> (c: Option<char>)
    ensures
        c is Some <==> (value < 0xD800 || 0xE000 <= value <= 0x10FFFF),
        c matches Some(found) ==> found as u32 == value,
;

/// `String::push` appends one character to the end of the string.
pub assume_specification[ String::push ](s: &mut String, c: char)
    ensures
        final(s)@ == old(s)@.push(c),
;

/// The first half of a surrogate pair.
pub open spec fn is_high_surrogate(unit: u16) -> bool {
    0xD800 <= unit < 0xDC00
}

/// The second half of a surrogate pair.
pub open spec fn is_low_surrogate(unit: u16) -> bool {
    0xDC00 <= unit < 0xE000
}

/// The code units of one character: the scalar value itself inside the basic plane, a
/// surrogate pair beyond it.
pub open spec fn char_units(c: char) -> Seq<u16> {
    let value = c as u32;
    if value < 0x10000 {
        seq![value as u16]
    } else {
        seq![
            (0xD800 + (value - 0x10000) / 0x400) as u16,
            (0xDC00 + (value - 0x10000) % 0x400) as u16,
        ]
    }
}

/// The code units of a text, character after character.
pub open spec fn text_units(text: Seq<char>) -> Seq<u16>
    decreases text.len(),
{
    if text.len() == 0 {
        seq![]
    } else {
        text_units(text.drop_last()) + char_units(text.last())
    }
}

/// No surrogate stands alone: each first half is followed by a second half, and each second
/// half follows a first half.
pub open spec fn well_formed(units: Seq<u16>) -> bool {
    forall|i: int| 0 <= i < units.len() ==> #[trigger] surrogate_paired(units, i)
}

/// The unit at `i` is no surrogate, or its other half stands beside it.
pub open spec fn surrogate_paired(units: Seq<u16>, i: int) -> bool {
    &&& is_high_surrogate(units[i]) ==> i + 1 < units.len() && is_low_surrogate(units[i + 1])
    &&& is_low_surrogate(units[i]) ==> 0 < i && is_high_surrogate(units[i - 1])
}

/// The units of a text followed by a character are the units of the text followed by those of
/// the character.
pub proof fn lemma_text_units_push(text: Seq<char>, c: char)
    ensures
        text_units(text.push(c)) == text_units(text) + char_units(c),
{
    assert(text.push(c).drop_last() =~= text);
}

/// The units of two texts in a row are those of the first followed by those of the second.
pub proof fn lemma_text_units_concat(a: Seq<char>, b: Seq<char>)
    ensures
        text_units(a + b) == text_units(a) + text_units(b),
    decreases b.len(),
{
    if b.len() == 0 {
        assert(a + b =~= a);
        assert(text_units(a) + text_units(b) =~= text_units(a));
    } else {
        lemma_text_units_concat(a, b.drop_last());
        assert((a + b).drop_last() =~= a + b.drop_last());
        assert(text_units(a + b) =~= text_units(a) + text_units(b));
    }
}

/// The last code unit of a character tells whether the character has one unit or two, and with
/// the first it gives the character back.
proof fn lemma_char_units_shape(c: char)
    ensures
        1 <= char_units(c).len() <= 2,
        char_units(c).len() == 1 ==> {
            &&& !is_high_surrogate(char_units(c)[0])
            &&& !is_low_surrogate(char_units(c)[0])
            &&& char_units(c)[0] == c as u32
        },
        char_units(c).len() == 2 ==> {
            &&& is_high_surrogate(char_units(c)[0])
            &&& is_low_surrogate(char_units(c)[1])
            &&& c as u32 == 0x10000 + (char_units(c)[0] - 0xD800) * 0x400 + (char_units(c)[1]
                - 0xDC00)
        },
{
    let value = c as u32;
    assert(value < 0xD800 || 0xE000 <= value <= 0x10FFFF);
}

/// Distinct characters have distinct code units.
proof fn lemma_char_units_injective(c: char, d: char)
    requires
        char_units(c) == char_units(d),
    ensures
        c == d,
{
    lemma_char_units_shape(c);
    lemma_char_units_shape(d);
}

/// A character of the basic plane is one unit, its own code. One beyond it is two, a first and a
/// second half of a surrogate pair that hold the upper and the lower ten bits of its distance
/// from the first code beyond the plane.
pub proof fn law_units_of_one_char(c: char)
    ensures
        (c as u32) < 0x10000 ==> text_units(seq![c]).len() == 1 && text_units(seq![c])[0]
            == c as u32,
        (c as u32) >= 0x10000 ==> {
            &&& text_units(seq![c]).len() == 2
            &&& 0xD800 <= text_units(seq![c])[0] < 0xDC00
            &&& 0xDC00 <= text_units(seq![c])[1] < 0xE000
            &&& c as u32 - 0x10000 == 0x400 * (text_units(seq![c])[0] - 0xD800) + (text_units(
                seq![c],
            )[1] - 0xDC00)
        },
{
    lemma_char_units_shape(c);
    assert(Seq::<char>::empty().push(c) =~= seq![c]);
    lemma_text_units_push(Seq::<char>::empty(), c);
    assert(text_units(seq![c]) =~= char_units(c));
}

/// The units of two texts in a row are those of the one followed by those of the other, and a
/// text without characters has none.
pub proof fn law_units_of_texts_in_a_row(a: Seq<char>, b: Seq<char>)
    ensures
        text_units(a + b) == text_units(a) + text_units(b),
        text_units(Seq::<char>::empty()).len() == 0,
{
    lemma_text_units_concat(a, b);
}

/// Distinct texts have distinct code units, so the code units determine the text.
pub proof fn law_text_units_injective(a: Seq<char>, b: Seq<char>)
    requires
        text_units(a) == text_units(b),
    ensures
        a == b,
    decreases a.len(),
{
    let units = text_units(a);
    if a.len() > 0 {
        lemma_char_units_shape(a.last());
        assert(text_units(a).len() > 0);
    }
    if b.len() > 0 {
        lemma_char_units_shape(b.last());
        assert(text_units(b).len() > 0);
    }
    if a.len() == 0 || b.len() == 0 {
        assert(a =~= b);
    } else {
        let ua = char_units(a.last());
        let ub = char_units(b.last());
        assert(units.last() == ua.last());
        assert(units.last() == ub.last());
        assert(ua.len() == ub.len());
        assert(ua =~= ub) by {
            assert forall|i: int| 0 <= i < ua.len() implies ua[i] == ub[i] by {
                assert(units[units.len() - ua.len() + i] == ua[i]);
                assert(units[units.len() - ub.len() + i] == ub[i]);
            }
        }
        lemma_char_units_injective(a.last(), b.last());
        assert(text_units(a.drop_last()) =~= units.take(units.len() - ua.len()));
        assert(text_units(b.drop_last()) =~= units.take(units.len() - ub.len()));
        law_text_units_injective(a.drop_last(), b.drop_last());
        assert(a =~= a.drop_last().push(a.last()));
        assert(b =~= b.drop_last().push(b.last()));
    }
}

/// The code units of a text hold no lone surrogate.
pub proof fn law_text_units_well_formed(text: Seq<char>)
    ensures
        well_formed(text_units(text)),
    decreases text.len(),
{
    if text.len() > 0 {
        let front = text_units(text.drop_last());
        let units = text_units(text);
        law_text_units_well_formed(text.drop_last());
        lemma_char_units_shape(text.last());
        assert forall|i: int| 0 <= i < units.len() implies #[trigger] surrogate_paired(
            units,
            i,
        ) by {
            if i < front.len() {
                assert(surrogate_paired(front, i));
            }
        }
    }
}

/// A run of code units is that of some text exactly if it holds no lone surrogate.
pub proof fn law_well_formed_iff_text(units: Seq<u16>)
    ensures
        well_formed(units) <==> exists|text: Seq<char>| text_units(text) == units,
    decreases units.len(),
{
    if exists|text: Seq<char>| text_units(text) == units {
        let text = choose|text: Seq<char>| text_units(text) == units;
        law_text_units_well_formed(text);
    }
    if well_formed(units) {
        lemma_text_of_well_formed(units);
    }
}

/// A text whose code units are the given ones.
proof fn lemma_text_of_well_formed(units: Seq<u16>) -> (text: Seq<char>)
    requires
        well_formed(units),
    ensures
        text_units(text) == units,
    decreases units.len(),
{
    if units.len() == 0 {
        assert(units =~= seq![]);
        seq![]
    } else {
        let last = units.last();
        assert(surrogate_paired(units, units.len() - 1));
        let width: int = if is_low_surrogate(last) {
            2
        } else {
            1
        };
        let front = units.take(units.len() - width);
        assert forall|i: int| 0 <= i < front.len() implies #[trigger] surrogate_paired(
            front,
            i,
        ) by {
            assert(surrogate_paired(units, i));
            assert(surrogate_paired(units, i + 1));
            if i + 1 == front.len() {
                assert(surrogate_paired(units, front.len() as int));
            }
        }
        let text = lemma_text_of_well_formed(front);
        let c: char = if width == 1 {
            last as char
        } else {
            (0x10000 + (units[units.len() - 2] - 0xD800) * 0x400 + (last - 0xDC00)) as char
        };
        lemma_text_units_push(text, c);
        assert(text_units(text.push(c)) =~= units);
        text.push(c)
    }
}

/// The code units of `text`.
pub fn encode_units(text: &str) -> (units: Vec<u16>)
    ensures
        units@ == text_units(text@),
{
    let mut units: Vec<u16> = Vec::new();
    for c in chars: text.chars()
        invariant
            chars.seq() == text@,
            units@ == text_units(text@.take(chars.index())),
    {
        let ghost done = text@.take(chars.index());
        let value: u32 = c as u32;
        if value < 0x10000 {
            units.push(value as u16);
        } else {
            units.push((0xD800 + (value - 0x10000) / 0x400) as u16);
            units.push((0xDC00 + (value - 0x10000) % 0x400) as u16);
        }
        proof {
            lemma_text_units_push(done, c);
            assert(units@ =~= text_units(done) + char_units(c));
            assert(text@.take(chars.index() + 1) =~= done.push(c));
        }
    }
    assert(text@.take(text@.len() as int) =~= text@);
    units
}

/// The text with the given code units, or nothing where a surrogate stands alone.
pub fn decode_units(units: &[u16]) -> (text: Option<String>)
    ensures
        text is Some <==> well_formed(units@),
        text matches Some(found) ==> text_units(found@) == units@,
{
    let mut text = String::new();
    let mut i: usize = 0;
    while i < units.len()
        invariant
            0 <= i <= units@.len(),
            text_units(text@) == units@.take(i as int),
            forall|j: int| 0 <= j < i ==> #[trigger] surrogate_paired(units@, j),
            0 < i < units@.len() ==> !is_high_surrogate(units@[i - 1]),
        decreases units.len() - i,
    {
        let unit: u16 = units[i];
        let ghost before = text@;
        if 0xDC00 <= unit && unit < 0xE000 {
            assert(!surrogate_paired(units@, i as int));
            return None;
        }
        if 0xD800 <= unit && unit < 0xDC00 {
            if i + 1 >= units.len() {
                assert(!surrogate_paired(units@, i as int));
                return None;
            }
            let low: u16 = units[i + 1];
            if low < 0xDC00 || 0xE000 <= low {
                assert(!surrogate_paired(units@, i as int));
                return None;
            }
            let value: u32 = 0x10000 + (unit as u32 - 0xD800) * 0x400 + (low as u32 - 0xDC00);
            let c: char = match char::from_u32(value) {
                Some(c) => c,
                None => {
                    return None;
                },
            };
            text.push(c);
            proof {
                lemma_text_units_push(before, c);
                assert(char_units(c) =~= seq![unit, low]);
                assert(text_units(text@) =~= units@.take(i + 2));
            }
            i = i + 2;
        } else {
            let c: char = match char::from_u32(unit as u32) {
                Some(c) => c,
                None => {
                    return None;
                },
            };
            text.push(c);
            proof {
                lemma_text_units_push(before, c);
                assert(char_units(c) =~= seq![unit]);
                assert(text_units(text@) =~= units@.take(i + 1));
            }
            i = i + 1;
        }
    }
    assert(units@.take(i as int) =~= units@);
    Some(text)
}

} // verus!
