//! The message on the pipe: a path in UTF-16LE, without a byte order mark, ended by a NUL.
use vstd::prelude::*;

use crate::text::{decimal, push_decimal};
use crate::utf16::{
    char_units, decode_units, encode_units, law_text_units_injective, law_text_units_well_formed,
    law_well_formed_iff_text, lemma_text_units_concat, lemma_text_units_push, text_units, well_formed,
};

verus! {

/// The name of the pipe that the plugin serves and the client writes to.
pub const PIPE_NAME: &'static str = "\\\\.\\pipe\\aviutl2_alias_inserter";

/// The longest payload of one message, in bytes.
pub const MAX_PAYLOAD_BYTES: usize = 32_768;

/// The two bytes of each unit, low byte first.
pub open spec fn le_bytes(units: Seq<u16>) -> Seq<u8> {
    Seq::new(
        2 * units.len(),
        |i: int|
            if i % 2 == 0 {
                (units[i / 2] % 256) as u8
            } else {
                (units[i / 2] / 256) as u8
            },
    )
}

/// The units that the bytes hold pair by pair, low byte first.
pub open spec fn le_units(bytes: Seq<u8>) -> Seq<u16> {
    Seq::new(bytes.len() / 2, |i: int| (bytes[2 * i] + 256 * bytes[2 * i + 1]) as u16)
}

/// The units before the first NUL; all of them where there is none.
pub open spec fn units_before_null(units: Seq<u16>) -> Seq<u16> {
    match units.index_of_first(0u16) {
        Some(end) => units.take(end),
        None => units,
    }
}

/// The characters before the first NUL; all of them where there is none.
pub open spec fn text_before_null(text: Seq<char>) -> Seq<char> {
    match text.index_of_first('\0') {
        Some(end) => text.take(end),
        None => text,
    }
}

/// The units of a payload that count as text.
pub open spec fn payload_units(bytes: Seq<u8>) -> Seq<u16> {
    units_before_null(le_units(bytes))
}

/// The payload that carries `text`.
pub open spec fn payload_of(text: Seq<char>) -> Seq<u8> {
    le_bytes(text_units(text).push(0u16))
}

/// `bytes` is a payload that stands for a text: whole units, and no lone surrogate before the
/// first NUL.
pub open spec fn is_text_payload(bytes: Seq<u8>) -> bool {
    bytes.len() % 2 == 0 && well_formed(payload_units(bytes))
}

/// `bytes` is a payload that stands for `text`.
pub open spec fn carries(bytes: Seq<u8>, text: Seq<char>) -> bool {
    bytes.len() % 2 == 0 && text_units(text) == payload_units(bytes)
}

/// What is said of a payload of `len` bytes, an odd number.
pub open spec fn odd_length_message(len: nat) -> Seq<char> {
    "バイト数が奇数です: "@ + decimal(len)
}

/// What is said of a payload with a lone surrogate.
pub open spec fn lone_surrogate_message() -> Seq<char> {
    "UTF-16 デコードエラー: invalid utf-16: lone surrogate found"@
}

/// The units in the bytes of some units are those units.
pub proof fn law_le_units_of_le_bytes(units: Seq<u16>)
    ensures
        le_units(le_bytes(units)) == units,
        le_bytes(units).len() == 2 * units.len(),
{
    let bytes = le_bytes(units);
    assert forall|i: int| 0 <= i < units.len() implies le_units(bytes)[i] == units[i] by {
        lemma_unit_of_its_bytes(units[i]);
        assert((2 * i) / 2 == i);
        assert((2 * i + 1) / 2 == i);
        assert((2 * i) % 2 == 0);
        assert((2 * i + 1) % 2 == 1);
    }
    assert(le_units(bytes) =~= units);
}

/// A unit is put together from its two bytes.
proof fn lemma_unit_of_its_bytes(unit: u16)
    ensures
        ((unit % 256) as u8 + 256 * ((unit / 256) as u8)) as u16 == unit,
{
}

/// Every unit is two bytes, at every position the low one first.
pub proof fn law_le_bytes(units: Seq<u16>, i: int)
    ensures
        le_bytes(units).len() == 2 * units.len(),
        0 <= i < units.len() ==> le_bytes(units)[2 * i] == units[i] % 256 && le_bytes(units)[2 * i
            + 1] == units[i] / 256,
{
    assert((2 * i) / 2 == i && (2 * i) % 2 == 0);
    assert((2 * i + 1) / 2 == i && (2 * i + 1) % 2 == 1);
}

/// Every two bytes are a unit, at every position the low one first. A last byte alone is none.
pub proof fn law_le_units(bytes: Seq<u8>, i: int)
    ensures
        le_units(bytes).len() == bytes.len() / 2,
        0 <= 2 * i && 2 * i + 1 < bytes.len() ==> le_units(bytes)[i] == bytes[2 * i] + 256
            * bytes[2 * i + 1],
{
}

/// The bytes of units in a row are the bytes of the ones followed by those of the others, and
/// those of one unit are its low byte and its high byte.
pub proof fn law_le_bytes_in_a_row(a: Seq<u16>, b: Seq<u16>, unit: u16)
    ensures
        le_bytes(a + b) == le_bytes(a) + le_bytes(b),
        le_bytes(seq![unit]) == seq![(unit % 256) as u8, (unit / 256) as u8],
{
    let bytes = le_bytes(a) + le_bytes(b);
    assert forall|i: int| 0 <= i < bytes.len() implies le_bytes(a + b)[i] == bytes[i] by {
        if i < 2 * a.len() {
            assert(i / 2 < a.len());
        } else {
            let j = i - 2 * a.len();
            assert(i / 2 == a.len() + j / 2);
            assert(i % 2 == j % 2);
        }
    }
    assert(le_bytes(a + b) =~= bytes);
    assert(le_bytes(seq![unit]) =~= seq![(unit % 256) as u8, (unit / 256) as u8]);
}

/// Where the first NUL stands decides what comes before it.
proof fn lemma_units_before_null(units: Seq<u16>, end: int)
    requires
        0 <= end <= units.len(),
        forall|i: int| 0 <= i < end ==> units[i] != 0,
        end < units.len() ==> units[end] == 0,
    ensures
        units_before_null(units) == units.take(end),
{
    units.index_of_first_ensures(0u16);
    if end < units.len() {
        assert(units.contains(units[end]));
        let found = units.index_of_first(0u16)->0;
        assert(found == end) by {
            if found < end {
                assert(units[found] != 0);
            }
        }
    } else {
        assert(!units.contains(0u16));
        assert(units.take(end) =~= units);
    }
}

/// A text without NUL has no NUL among its units.
proof fn lemma_no_null_unit(text: Seq<char>)
    requires
        !text.contains('\0'),
    ensures
        !text_units(text).contains(0u16),
    decreases text.len(),
{
    if text.len() > 0 {
        let front = text.drop_last();
        assert forall|i: int| 0 <= i < front.len() implies front[i] != '\0' by {
            assert(text.contains(text[i]));
        }
        lemma_no_null_unit(front);
        let last = text.last();
        assert(text.contains(text[text.len() - 1]));
        lemma_no_null_char_unit(last);
        let units = text_units(text);
        assert forall|i: int| 0 <= i < units.len() implies units[i] != 0 by {
            if i < text_units(front).len() {
                assert(text_units(front).contains(text_units(front)[i]));
            } else {
                assert(char_units(last).contains(char_units(last)[i - text_units(front).len()]));
            }
        }
    }
}

/// A character other than NUL has no NUL among its units.
proof fn lemma_no_null_char_unit(c: char)
    requires
        c != '\0',
    ensures
        !char_units(c).contains(0u16),
{
}

/// What `text_before_null` leaves out starts with a NUL, and nothing before it is one.
proof fn lemma_text_before_null(text: Seq<char>)
    ensures
        !text_before_null(text).contains('\0'),
        text_before_null(text) == text.take(text_before_null(text).len() as int),
        text_before_null(text).len() <= text.len(),
        text_before_null(text).len() < text.len() ==> text[text_before_null(text).len() as int]
            == '\0',
{
    text.index_of_first_ensures('\0');
    let front = text_before_null(text);
    assert(front =~= text.take(front.len() as int));
}

/// The bytes of a payload: for every code unit of the text its low byte and then its high byte,
/// and two zero bytes at the end. Nothing stands before the first unit.
pub proof fn law_payload_bytes(text: Seq<char>, i: int)
    ensures
        payload_of(text).len() == 2 * text_units(text).len() + 2,
        0 <= i < text_units(text).len() ==> payload_of(text)[2 * i] == text_units(text)[i] % 256
            && payload_of(text)[2 * i + 1] == text_units(text)[i] / 256,
        payload_of(text)[payload_of(text).len() - 2] == 0,
        payload_of(text)[payload_of(text).len() - 1] == 0,
{
    let units = text_units(text).push(0u16);
    if 0 <= i < text_units(text).len() {
        law_le_bytes(units, i);
    }
    law_le_bytes(units, units.len() - 1);
}

/// The payload of two texts in a row is that of the first without its NUL, followed by that of
/// the second.
pub proof fn law_payload_in_a_row(a: Seq<char>, b: Seq<char>)
    ensures
        payload_of(a + b) == payload_of(a).take(payload_of(a).len() - 2) + payload_of(b),
{
    lemma_text_units_concat(a, b);
    let ua = text_units(a);
    let ub = text_units(b);
    assert(text_units(a + b).push(0u16) =~= ua + ub.push(0u16));
    law_le_bytes_in_a_row(ua, ub.push(0u16), 0);
    assert(ua.push(0u16) =~= ua + seq![0u16]);
    law_le_bytes_in_a_row(ua, seq![0u16], 0);
    assert(payload_of(a).take(payload_of(a).len() - 2) =~= le_bytes(ua));
}

/// The text before the first NUL is the front of the text, up to a NUL or to its end, and holds
/// no NUL.
pub proof fn law_text_before_null(text: Seq<char>, i: int)
    ensures
        text_before_null(text).len() <= text.len(),
        0 <= i < text_before_null(text).len() ==> text_before_null(text)[i] == text[i] && text[i]
            as u32 != 0,
        text_before_null(text).len() < text.len() ==> text[text_before_null(text).len() as int]
            as u32 == 0,
{
    lemma_text_before_null(text);
    let front = text_before_null(text);
    if 0 <= i < front.len() {
        assert(front.contains(front[i]));
        assert(front[i] == text[i]);
        lemma_null_char(text[i]);
    }
}

/// The one character with the code zero.
proof fn lemma_null_char(c: char)
    requires
        c != '\0',
    ensures
        c as u32 != 0,
{
}

/// What it is for bytes to carry a text: they are whole units; each unit of the text stands in
/// its two bytes, low byte first, and is no NUL; and after them the bytes end or go on with a
/// NUL.
pub proof fn law_carries(bytes: Seq<u8>, text: Seq<char>)
    ensures
        carries(bytes, text) <==> {
            let units = text_units(text);
            let n = units.len() as int;
            &&& bytes.len() % 2 == 0
            &&& 2 * n <= bytes.len()
            &&& forall|i: int|
                0 <= i < n ==> #[trigger] units[i] != 0 && units[i] == bytes[2 * i] + 256 * bytes[2
                    * i + 1]
            &&& 2 * n < bytes.len() ==> bytes[2 * n] == 0 && bytes[2 * n + 1] == 0
        },
{
    let units = text_units(text);
    let n = units.len() as int;
    let all = le_units(bytes);
    let front = payload_units(bytes);
    all.index_of_first_ensures(0u16);
    assert(front =~= all.take(front.len() as int));
    if carries(bytes, text) {
        assert forall|i: int| 0 <= i < units.len() implies #[trigger] units[i] != 0 && units[i]
            == bytes[2 * i] + 256 * bytes[2 * i + 1] by {
            assert(units[i] == front[i]);
            assert(front[i] == all[i]);
            if all[i] == 0 {
                assert(all.contains(all[i]));
            }
        }
        if 2 * units.len() < bytes.len() {
            assert(all[units.len() as int] == 0);
        }
    } else if bytes.len() % 2 == 0 && 2 * n <= bytes.len() && (forall|i: int|
        0 <= i < n ==> #[trigger] units[i] != 0 && units[i] == bytes[2 * i] + 256 * bytes[2 * i
            + 1]) && (2 * n < bytes.len() ==> bytes[2 * n] == 0 && bytes[2 * n + 1] == 0) {
        assert forall|i: int| 0 <= i < units.len() implies all[i] != 0 by {
            assert(units[i] != 0);
        }
        lemma_units_before_null(all, units.len() as int);
        assert(all.take(units.len() as int) =~= units) by {
            assert forall|i: int| 0 <= i < units.len() implies all[i] == units[i] by {
                assert(units[i] != 0);
            }
        }
    }
}

/// Bytes are a payload that stands for a text exactly if there is a text that they carry.
pub proof fn law_text_payload_carries(bytes: Seq<u8>)
    ensures
        is_text_payload(bytes) <==> exists|text: Seq<char>| carries(bytes, text),
{
    law_well_formed_iff_text(payload_units(bytes));
    if is_text_payload(bytes) {
        let text = choose|text: Seq<char>| text_units(text) == payload_units(bytes);
        assert(carries(bytes, text));
    }
    if exists|text: Seq<char>| carries(bytes, text) {
        let text = choose|text: Seq<char>| carries(bytes, text);
        assert(text_units(text) == payload_units(bytes));
    }
}

/// A payload is read back as the text that was written, up to the text's first NUL, and as
/// nothing else.
pub proof fn law_payload_round_trip(text: Seq<char>, read: Seq<char>)
    ensures
        is_text_payload(payload_of(text)),
        carries(payload_of(text), read) <==> read == text_before_null(text),
{
    let units = text_units(text).push(0u16);
    let front = text_before_null(text);
    let end = text_units(front).len() as int;
    law_le_units_of_le_bytes(units);
    lemma_text_before_null(text);
    lemma_no_null_unit(front);
    assert(end < units.len() && units.take(end) =~= text_units(front) && units[end] == 0) by {
        let rest = text.skip(front.len() as int);
        assert(text =~= front + rest);
        lemma_text_units_concat(front, rest);
        if rest.len() > 0 {
            let first = seq!['\0'];
            assert(rest =~= first + rest.skip(1));
            lemma_text_units_concat(first, rest.skip(1));
            assert(Seq::<char>::empty().push('\0') =~= first);
            lemma_text_units_push(Seq::<char>::empty(), '\0');
            assert(text_units(first) =~= seq![0u16]);
        } else {
            assert(text_units(rest) =~= seq![]);
        }
    }
    assert forall|i: int| 0 <= i < end implies units[i] != 0 by {
        assert(units.take(end)[i] == text_units(front)[i]);
        assert(text_units(front).contains(text_units(front)[i]));
    }
    lemma_units_before_null(units, end);
    law_text_units_well_formed(front);
    if carries(payload_of(text), read) {
        law_text_units_injective(read, front);
    }
}

/// A text without NUL comes back whole.
pub proof fn law_payload_carries_text(text: Seq<char>)
    requires
        !text.contains('\0'),
    ensures
        carries(payload_of(text), text),
{
    text.index_of_first_ensures('\0');
    law_payload_round_trip(text, text);
}

/// A payload stands for at most one text.
pub proof fn law_payload_text_unique(bytes: Seq<u8>, a: Seq<char>, b: Seq<char>)
    requires
        carries(bytes, a),
        carries(bytes, b),
    ensures
        a == b,
{
    law_text_units_injective(a, b);
}

/// What comes before the first NUL of units that go on with a NUL is what comes before the first
/// NUL of the units.
proof fn lemma_nothing_after_null(units: Seq<u16>, tail: Seq<u16>)
    ensures
        units_before_null(units.push(0u16) + tail) == units_before_null(units),
{
    let long = units.push(0u16) + tail;
    units.index_of_first_ensures(0u16);
    let end: int = match units.index_of_first(0u16) {
        Some(first) => first,
        None => units.len() as int,
    };
    assert forall|i: int| 0 <= i < end implies units[i] != 0 by {
        if units[i] == 0 {
            assert(units.contains(units[i]));
        }
    }
    lemma_units_before_null(units, end);
    lemma_units_before_null(long, end);
    assert(long.take(end) =~= units.take(end));
}

/// A NUL after whole units, and whatever whole units follow it, do not matter: the payload then
/// stands for a text exactly if the part before does, and for the same one.
pub proof fn law_nothing_after_null(bytes: Seq<u8>, tail: Seq<u8>, text: Seq<char>)
    requires
        bytes.len() % 2 == 0,
        tail.len() % 2 == 0,
    ensures
        payload_units(bytes + seq![0u8, 0u8] + tail) == payload_units(bytes),
        is_text_payload(bytes + seq![0u8, 0u8] + tail) == is_text_payload(bytes),
        carries(bytes + seq![0u8, 0u8] + tail, text) == carries(bytes, text),
{
    let long = bytes + seq![0u8, 0u8] + tail;
    let units = le_units(bytes);
    let rest = le_units(tail);
    assert forall|i: int| 0 <= i < le_units(long).len() implies le_units(long)[i] == (units.push(
        0u16,
    ) + rest)[i] by {
        if i > units.len() {
            let j = i - units.len() - 1;
            assert(long[2 * i] == tail[2 * j]);
            assert(long[2 * i + 1] == tail[2 * j + 1]);
        }
    }
    assert(le_units(long) =~= units.push(0u16) + rest);
    lemma_nothing_after_null(units, rest);
}

/// The units of `text`, ended by a NUL.
pub fn wide_null(text: &str) -> (units: Vec<u16>)
    ensures
        units@ == text_units(text@).push(0u16),
{
    let mut units = encode_units(text);
    units.push(0);
    units
}

/// The payload that carries `s`: its code units, low byte first, ended by a NUL.
pub fn encode_utf16le(s: &str) -> (bytes: Vec<u8>)
    ensures
        bytes@ == payload_of(s@),
{
    let units = wide_null(s);
    let mut bytes: Vec<u8> = Vec::new();
    for i in 0..units.len()
        invariant
            bytes@ == le_bytes(units@.take(i as int)),
    {
        let unit: u16 = units[i];
        bytes.push((unit % 256) as u8);
        bytes.push((unit / 256) as u8);
        assert(bytes@ =~= le_bytes(units@.take(i + 1)));
    }
    assert(units@.take(units@.len() as int) =~= units@);
    bytes
}

/// The text of a payload, up to its first NUL.
///
/// A payload with an odd number of bytes or with a lone surrogate before its first NUL is
/// refused with a message.
pub fn decode_utf16le(bytes: &[u8]) -> (text: Result<String, String>)
    ensures
        text is Ok <==> is_text_payload(bytes@),
        text matches Ok(found) ==> carries(bytes@, found@),
        text matches Err(message) ==> message@ == if bytes@.len() % 2 != 0 {
            odd_length_message(bytes@.len())
        } else {
            lone_surrogate_message()
        },
        bytes@.len() % 2 != 0 ==> (text matches Err(message) && message@
            == "バイト数が奇数です: "@ + decimal(bytes@.len())),
        bytes@.len() % 2 == 0 ==> (text matches Err(message) ==> message@
            == "UTF-16 デコードエラー: invalid utf-16: lone surrogate found"@),
        forall|carried: Seq<char>| #[trigger]
            carries(bytes@, carried) ==> (text matches Ok(found) && found@ == carried),
{
    if bytes.len() % 2 != 0 {
        let mut message = "バイト数が奇数です: ".to_string();
        push_decimal(&mut message, bytes.len() as u64);
        return Err(message);
    }
    let total: usize = bytes.len();
    let count: usize = total / 2;
    let mut units: Vec<u16> = Vec::new();
    let mut i: usize = 0;
    while i < count && (bytes[2 * i] != 0 || bytes[2 * i + 1] != 0)
        invariant
            total == bytes@.len(),
            total % 2 == 0,
            count == total / 2,
            0 <= i <= count,
            units@ == le_units(bytes@).take(i as int),
            forall|j: int| 0 <= j < i ==> le_units(bytes@)[j] != 0,
        decreases count - i,
    {
        units.push(bytes[2 * i] as u16 + 256 * (bytes[2 * i + 1] as u16));
        assert(units@ =~= le_units(bytes@).take(i + 1));
        i = i + 1;
    }
    proof {
        lemma_units_before_null(le_units(bytes@), i as int);
    }
    proof {
        law_text_payload_carries(bytes@);
    }
    match decode_units(units.as_slice()) {
        Some(text) => {
            proof {
                assert forall|carried: Seq<char>| #[trigger]
                    carries(bytes@, carried) implies text@ == carried by {
                    law_payload_text_unique(bytes@, text@, carried);
                }
            }
            Ok(text)
        },
        None => Err("UTF-16 デコードエラー: invalid utf-16: lone surrogate found".to_string()),
    }
}

} // verus!
