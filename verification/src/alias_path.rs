//! Which paths name an alias file.
use vstd::prelude::*;

verus! {

/// The file extension of an alias file.
pub open spec fn object_extension() -> Seq<char> {
    ".object"@
}

/// An ASCII capital as its small letter; any other character as it is.
pub open spec fn ascii_lower(c: char) -> char {
    if 'A' <= c && c <= 'Z' {
        (c as u8 + 32) as char
    } else {
        c
    }
}

/// `text` with `ascii_lower` applied to each character.
pub open spec fn ascii_lowered(text: Seq<char>) -> Seq<char> {
    text.map_values(|c: char| ascii_lower(c))
}

/// The path ends in the alias extension, whatever the case of its ASCII letters.
pub open spec fn is_alias_path(path: Seq<char>) -> bool {
    object_extension().is_suffix_of(ascii_lowered(path))
}

/// The case of ASCII letters does not matter.
pub proof fn law_case_insensitive(a: Seq<char>, b: Seq<char>)
    requires
        ascii_lowered(a) == ascii_lowered(b),
    ensures
        is_alias_path(a) == is_alias_path(b),
{
}

/// Any name with the extension behind it is an alias path.
pub proof fn law_extension_suffices(stem: Seq<char>)
    ensures
        is_alias_path(stem + object_extension()),
{
    reveal_strlit(".object");
    let lowered = ascii_lowered(stem + object_extension());
    assert(object_extension() =~= lowered.subrange(
        lowered.len() - object_extension().len(),
        lowered.len() as int,
    ));
}

/// A path is that of an alias file exactly if its last seven characters are a point and the
/// letters of `object`, each small or capital. No path that ends otherwise is one.
pub proof fn law_alias_paths_end_in_object(path: Seq<char>)
    ensures
        is_alias_path(path) <==> {
            let n = path.len() as int;
            &&& n >= 7
            &&& path[n - 7] == '.'
            &&& path[n - 6] == 'o' || path[n - 6] == 'O'
            &&& path[n - 5] == 'b' || path[n - 5] == 'B'
            &&& path[n - 4] == 'j' || path[n - 4] == 'J'
            &&& path[n - 3] == 'e' || path[n - 3] == 'E'
            &&& path[n - 2] == 'c' || path[n - 2] == 'C'
            &&& path[n - 1] == 't' || path[n - 1] == 'T'
        },
{
    reveal_strlit(".object");
    let n = path.len() as int;
    let lowered = ascii_lowered(path);
    if n >= 7 {
        let end = lowered.subrange(n - 7, n);
        lemma_lowered_letter(path[n - 7]);
        lemma_lowered_letter(path[n - 6]);
        lemma_lowered_letter(path[n - 5]);
        lemma_lowered_letter(path[n - 4]);
        lemma_lowered_letter(path[n - 3]);
        lemma_lowered_letter(path[n - 2]);
        lemma_lowered_letter(path[n - 1]);
        assert forall|i: int| 0 <= i < 7 implies end[i] == ascii_lower(#[trigger] path[n - 7 + i]) by {}
        if is_alias_path(path) {
            assert(end[0] == object_extension()[0]);
            assert(end[1] == object_extension()[1]);
            assert(end[2] == object_extension()[2]);
            assert(end[3] == object_extension()[3]);
            assert(end[4] == object_extension()[4]);
            assert(end[5] == object_extension()[5]);
            assert(end[6] == object_extension()[6]);
        } else {
            assert(object_extension() != end);
            assert(!(object_extension() =~= end));
        }
    }
}

/// The characters that become a point or a letter of the extension.
proof fn lemma_lowered_letter(c: char)
    ensures
        ascii_lower(c) == '.' <==> c == '.',
        ascii_lower(c) == 'o' <==> c == 'o' || c == 'O',
        ascii_lower(c) == 'b' <==> c == 'b' || c == 'B',
        ascii_lower(c) == 'j' <==> c == 'j' || c == 'J',
        ascii_lower(c) == 'e' <==> c == 'e' || c == 'E',
        ascii_lower(c) == 'c' <==> c == 'c' || c == 'C',
        ascii_lower(c) == 't' <==> c == 't' || c == 'T',
{
}

/// Only the last characters of a path decide.
pub proof fn law_only_the_end_decides(front: Seq<char>, other: Seq<char>, end: Seq<char>)
    requires
        end.len() >= object_extension().len(),
    ensures
        is_alias_path(front + end) == is_alias_path(other + end),
{
    let a = ascii_lowered(front + end);
    let b = ascii_lowered(other + end);
    let n = object_extension().len();
    assert(a.subrange(a.len() - n, a.len() as int) =~= b.subrange(b.len() - n, b.len() as int));
}

/// `ascii_lower` as code.
fn to_ascii_lower(c: char) -> (lowered: char)
    ensures
        lowered == ascii_lower(c),
{
    if 'A' <= c && c <= 'Z' {
        (c as u8 + 32) as char
    } else {
        c
    }
}

/// Whether `path` ends in `.object`, whatever the case of its letters.
pub fn has_object_extension(path: &str) -> (yes: bool)
    ensures
        yes == is_alias_path(path@),
{
    let extension = ".object";
    let len: usize = path.unicode_len();
    let n: usize = extension.unicode_len();
    if len < n {
        return false;
    }
    let ghost end = ascii_lowered(path@).subrange(len - n, len as int);
    for i in 0..n
        invariant
            len == path@.len(),
            extension@ == object_extension(),
            n == extension@.len(),
            n <= len,
            end == ascii_lowered(path@).subrange(len - n, len as int),
            forall|j: int| 0 <= j < i ==> end[j] == extension@[j],
    {
        let c: char = to_ascii_lower(path.get_char(len - n + i));
        if c != extension.get_char(i) {
            assert(end[i as int] != extension@[i as int]);
            return false;
        }
    }
    assert(extension@ =~= end);
    true
}

} // verus!
