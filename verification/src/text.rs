//! Trimming and matching of short host-facing strings.
use vstd::prelude::*;

verus! {

/// Whether a character has the Unicode `White_Space` property.
pub open spec fn white_space(c: char) -> bool {
    let code = c as int;
    ||| 0x9 <= code <= 0xd
    ||| code == 0x20
    ||| code == 0x85
    ||| code == 0xa0
    ||| code == 0x1680
    ||| 0x2000 <= code <= 0x200a
    ||| code == 0x2028
    ||| code == 0x2029
    ||| code == 0x202f
    ||| code == 0x205f
    ||| code == 0x3000
}

/// The text without the white space before its first other character.
pub open spec fn trimmed_start(text: Seq<char>) -> Seq<char>
    decreases text.len(),
{
    if text.len() > 0 && white_space(text[0]) {
        trimmed_start(text.skip(1))
    } else {
        text
    }
}

/// The text without the white space behind its last other character.
pub open spec fn trimmed_end(text: Seq<char>) -> Seq<char>
    decreases text.len(),
{
    if text.len() > 0 && white_space(text.last()) {
        trimmed_end(text.drop_last())
    } else {
        text
    }
}

/// The text without white space at either end.
pub open spec fn trimmed(text: Seq<char>) -> Seq<char> {
    trimmed_end(trimmed_start(text))
}

/// The text without any run of `unit` at its end.
pub open spec fn without_unit(text: Seq<char>, unit: Seq<char>) -> Seq<char>
    decreases text.len(),
{
    if 0 < unit.len() <= text.len() && text.skip(text.len() - unit.len()) == unit {
        without_unit(text.take(text.len() - unit.len()), unit)
    } else {
        text
    }
}

/// An ASCII letter in lower case; every other character as it is.
pub open spec fn lower(c: char) -> int {
    if 'A' <= c <= 'Z' {
        c as int + 32
    } else {
        c as int
    }
}

/// Whether two texts are equal but for the case of ASCII letters.
pub open spec fn same_word(a: Seq<char>, b: Seq<char>) -> bool {
    a.len() == b.len() && forall|i: int| 0 <= i < a.len() ==> lower(#[trigger] a[i]) == lower(b[i])
}

/// Decide [`white_space`].
pub fn is_white_space(c: char) -> (result: bool)
    ensures
        result == white_space(c),
{
    let code: u32 = c as u32;
    (0x9 <= code && code <= 0xd) || code == 0x20 || code == 0x85 || code == 0xa0 || code == 0x1680
        || (0x2000 <= code && code <= 0x200a) || code == 0x2028 || code == 0x2029 || code == 0x202f
        || code == 0x205f || code == 0x3000
}

/// Compute [`trimmed`].
pub fn trim<'a>(text: &'a str) -> (result: &'a str)
    ensures
        result@ == trimmed(text@),
{
    let length: usize = text.unicode_len();
    let mut start: usize = 0;
    proof {
        assert(text@.skip(0) =~= text@);
    }
    while start < length && is_white_space(text.get_char(start))
        invariant
            start <= length,
            length == text@.len(),
            trimmed_start(text@.skip(start as int)) == trimmed_start(text@),
        decreases length - start,
    {
        proof {
            assert(text@.skip(start as int).skip(1) =~= text@.skip(start + 1));
        }
        start = start + 1;
    }
    let ghost left = text@.skip(start as int);
    assert(trimmed_start(text@) == left);
    let mut end: usize = length;
    proof {
        assert(text@.subrange(start as int, end as int) =~= left);
    }
    while start < end && is_white_space(text.get_char(end - 1))
        invariant
            start <= end <= length,
            length == text@.len(),
            trimmed_end(text@.subrange(start as int, end as int)) == trimmed_end(left),
        decreases end,
    {
        proof {
            assert(text@.subrange(start as int, end as int).drop_last() =~= text@.subrange(
                start as int,
                end - 1,
            ));
        }
        end = end - 1;
    }
    text.substring_char(start, end)
}

/// Compute [`without_unit`].
pub fn strip_unit<'a>(text: &'a str, unit: &str) -> (result: &'a str)
    ensures
        result@ == without_unit(text@, unit@),
{
    let size: usize = unit.unicode_len();
    let mut end: usize = text.unicode_len();
    proof {
        assert(text@.take(end as int) =~= text@);
    }
    let mut matching: bool = true;
    while matching
        invariant
            end <= text@.len(),
            size == unit@.len(),
            without_unit(text@.take(end as int), unit@) == without_unit(text@, unit@),
            !matching ==> without_unit(text@.take(end as int), unit@) == text@.take(end as int),
        decreases end + (if matching { 1int } else { 0 }),
    {
        matching = size != 0 && size <= end && same_from(text, end - size, end, unit);
        if matching {
            proof {
                let shorter = text@.take(end as int);
                assert(shorter.skip(shorter.len() - size) =~= text@.subrange(end - size, end as int));
                assert(shorter.take(shorter.len() - size) =~= text@.take(end - size));
            }
            end = end - size;
        } else {
            proof {
                let shorter = text@.take(end as int);
                if 0 < size <= end {
                    assert(shorter.skip(shorter.len() - size) =~= text@.subrange(
                        end - size,
                        end as int,
                    ));
                }
            }
        }
    }
    proof {
        assert(text@.take(end as int) =~= text@.subrange(0, end as int));
    }
    text.substring_char(0, end)
}

/// Compare a stretch of a text with another text.
fn same_from(text: &str, start: usize, end: usize, other: &str) -> (result: bool)
    requires
        start <= end <= text@.len(),
        end - start == other@.len(),
    ensures
        result == (text@.subrange(start as int, end as int) == other@),
{
    let size: usize = end - start;
    let mut i: usize = 0;
    while i < size
        invariant
            i <= size == other@.len(),
            size == end - start,
            start <= end <= text@.len(),
            forall|j: int| 0 <= j < i ==> text@[start + j] == other@[j],
        decreases size - i,
    {
        if text.get_char(start + i) != other.get_char(i) {
            assert(text@.subrange(start as int, end as int)[i as int] != other@[i as int]);
            return false;
        }
        i = i + 1;
    }
    assert(text@.subrange(start as int, end as int) =~= other@);
    true
}

/// Decide whether two texts are equal.
pub fn equal(a: &str, b: &str) -> (result: bool)
    ensures
        result == (a@ == b@),
{
    let size: usize = a.unicode_len();
    if size != b.unicode_len() {
        return false;
    }
    proof {
        assert(a@.subrange(0, a@.len() as int) =~= a@);
    }
    same_from(a, 0, size, b)
}

fn to_lower(c: char) -> (result: u32)
    ensures
        result == lower(c),
{
    if 'A' <= c && c <= 'Z' {
        c as u32 + 32
    } else {
        c as u32
    }
}

/// Decide [`same_word`].
pub fn is_word(a: &str, b: &str) -> (result: bool)
    ensures
        result == same_word(a@, b@),
{
    let size: usize = a.unicode_len();
    if size != b.unicode_len() {
        return false;
    }
    let mut i: usize = 0;
    while i < size
        invariant
            i <= size == a@.len(),
            size == b@.len(),
            forall|j: int| 0 <= j < i ==> lower(#[trigger] a@[j]) == lower(b@[j]),
        decreases size - i,
    {
        if to_lower(a.get_char(i)) != to_lower(b.get_char(i)) {
            return false;
        }
        i = i + 1;
    }
    true
}

/// Trimming leaves nothing to trim.
pub proof fn trimming_settles(text: Seq<char>)
    ensures
        trimmed(trimmed(text)) == trimmed(text),
        trimmed(text).len() > 0 ==> !white_space(trimmed(text)[0]) && !white_space(
            trimmed(text).last(),
        ),
{
    trimmed_start_ends(text);
    trimmed_end_ends(trimmed_start(text));
}

proof fn trimmed_start_ends(text: Seq<char>)
    ensures
        trimmed_start(text).len() > 0 ==> !white_space(trimmed_start(text)[0]),
    decreases text.len(),
{
    if text.len() > 0 && white_space(text[0]) {
        trimmed_start_ends(text.skip(1));
    }
}

proof fn trimmed_end_ends(text: Seq<char>)
    ensures
        trimmed_end(text).len() > 0 ==> text.len() > 0 && trimmed_end(text)[0] == text[0]
            && !white_space(trimmed_end(text).last()),
    decreases text.len(),
{
    if text.len() > 0 && white_space(text.last()) {
        trimmed_end_ends(text.drop_last());
    }
}

/// Trimming drops white space at both ends and nothing else: what is left is one
/// stretch of the text, with only white space before and behind it.
pub proof fn trimming_drops_only_white_space(text: Seq<char>)
    ensures
        exists|start: int, end: int| #[trigger] is_trimmed_to(text, start, end),
{
    trimmed_start_is_a_suffix(text);
    let start = text.len() - trimmed_start(text).len();
    let rest = trimmed_start(text);
    trimmed_end_is_a_prefix(rest);
    let end = start + trimmed_end(rest).len();
    assert(trimmed(text) =~= text.subrange(start, end));
    assert forall|i: int| 0 <= i < start implies white_space(#[trigger] text[i]) by {
    }
    assert forall|i: int| end <= i < text.len() implies white_space(#[trigger] text[i]) by {
        assert(text[i] == rest[i - start]);
    }
    assert(is_trimmed_to(text, start, end));
}

/// Whether trimming a text leaves the stretch from `start` up to `end`.
pub open spec fn is_trimmed_to(text: Seq<char>, start: int, end: int) -> bool {
    &&& 0 <= start <= end <= text.len()
    &&& trimmed(text) == text.subrange(start, end)
    &&& forall|i: int| 0 <= i < start ==> white_space(#[trigger] text[i])
    &&& forall|i: int| end <= i < text.len() ==> white_space(#[trigger] text[i])
}

proof fn trimmed_start_is_a_suffix(text: Seq<char>)
    ensures
        trimmed_start(text).len() <= text.len(),
        trimmed_start(text) == text.skip(text.len() - trimmed_start(text).len()),
        forall|i: int|
            0 <= i < text.len() - trimmed_start(text).len() ==> white_space(#[trigger] text[i]),
    decreases text.len(),
{
    if text.len() > 0 && white_space(text[0]) {
        let rest = text.skip(1);
        trimmed_start_is_a_suffix(rest);
        let kept = trimmed_start(rest).len();
        assert(rest.skip(rest.len() - kept) =~= text.skip(text.len() - kept));
        assert forall|i: int| 0 <= i < text.len() - kept implies white_space(#[trigger] text[i]) by {
            if i > 0 {
                assert(text[i] == rest[i - 1]);
            }
        }
    } else {
        assert(text.skip(0) =~= text);
    }
}

proof fn trimmed_end_is_a_prefix(text: Seq<char>)
    ensures
        trimmed_end(text).len() <= text.len(),
        trimmed_end(text) == text.take(trimmed_end(text).len() as int),
        forall|i: int|
            trimmed_end(text).len() <= i < text.len() ==> white_space(#[trigger] text[i]),
    decreases text.len(),
{
    if text.len() > 0 && white_space(text.last()) {
        let rest = text.drop_last();
        trimmed_end_is_a_prefix(rest);
        let kept = trimmed_end(rest).len() as int;
        assert(rest.take(kept) =~= text.take(kept));
        assert forall|i: int| kept <= i < text.len() implies white_space(#[trigger] text[i]) by {
            if i < rest.len() {
                assert(text[i] == rest[i]);
            }
        }
    } else {
        assert(text.take(text.len() as int) =~= text);
    }
}

/// White space is the tab, the line breaks and the blanks of Unicode.
pub proof fn white_space_is_blanks_and_breaks(c: char)
    ensures
        white_space(c) <==> {
            ||| 0x9 <= c as int <= 0xd
            ||| 0x2000 <= c as int <= 0x200a
            ||| c as int == 0x20
            ||| c as int == 0x85
            ||| c as int == 0xa0
            ||| c as int == 0x1680
            ||| c as int == 0x2028
            ||| c as int == 0x2029
            ||| c as int == 0x202f
            ||| c as int == 0x205f
            ||| c as int == 0x3000
        },
{
}

/// Stripping a unit removes it from the end as often as it stands there, and
/// nothing else: the text is what is left and that many units.
pub proof fn stripping_removes_whole_units(text: Seq<char>, unit: Seq<char>)
    requires
        unit.len() > 0,
    ensures
        without_unit(text, unit).len() <= text.len(),
        text.take(without_unit(text, unit).len() as int) == without_unit(text, unit),
        (text.len() - without_unit(text, unit).len()) % (unit.len() as int) == 0,
        forall|i: int|
            without_unit(text, unit).len() <= i < text.len() ==> #[trigger] text[i] == unit[(i
                - without_unit(text, unit).len()) % (unit.len() as int)],
        without_unit(text, unit).len() >= unit.len() ==> without_unit(text, unit).skip(
            without_unit(text, unit).len() - unit.len(),
        ) != unit,
    decreases text.len(),
{
    let n = unit.len() as int;
    if n <= text.len() && text.skip(text.len() - n) == unit {
        let rest = text.take(text.len() - n);
        stripping_removes_whole_units(rest, unit);
        let kept = without_unit(rest, unit).len() as int;
        assert(text.take(kept) =~= rest.take(kept));
        vstd::arithmetic::div_mod::lemma_mod_add_multiples_vanish(rest.len() - kept, n);
        assert((text.len() - kept) % n == 0);
        assert forall|i: int| kept <= i < text.len() implies #[trigger] text[i] == unit[(i - kept)
            % n] by {
            if i < rest.len() {
                assert(text[i] == rest[i]);
            } else {
                let j = i - rest.len();
                assert(text.skip(text.len() - n)[j] == text[i]);
                vstd::arithmetic::div_mod::lemma_fundamental_div_mod(rest.len() - kept, n);
                vstd::arithmetic::div_mod::lemma_mod_multiples_vanish(
                    (rest.len() - kept) / n,
                    j,
                    n,
                );
                vstd::arithmetic::div_mod::lemma_small_mod(j as nat, n as nat);
            }
        }
    } else {
        assert(text.take(text.len() as int) =~= text);
        vstd::arithmetic::div_mod::lemma_small_mod(0, n as nat);
    }
}

/// Two words are the same where each letter is, in either case; no other
/// characters stand for each other.
pub proof fn words_differ_only_in_case(a: char, b: char)
    ensures
        lower(a) == lower(b) <==> {
            ||| a == b
            ||| 'A' <= a <= 'Z' && b as int == a as int + 32
            ||| 'A' <= b <= 'Z' && a as int == b as int + 32
        },
        forall|x: Seq<char>, y: Seq<char>| #[trigger]
            same_word(x, y) <==> x.len() == y.len() && forall|i: int|
                0 <= i < x.len() ==> lower(#[trigger] x[i]) == lower(y[i]),
{
}

} // verus!
