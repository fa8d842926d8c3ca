//! Text helpers: every string is modelled by its sequence of characters.

use vstd::prelude::*;

verus! {

/// Appends one character, by `String::push`, which the standard library
/// documents as appending the given `char` to the end of the string.
#[verifier::external_body]
pub(crate) fn push_char(text: &mut String, c: char)
    ensures
        final(text)@ == old(text)@.push(c),
{
    text.push(c);
}

/// Compares two string slices by `str::eq`, which holds exactly when the two
/// hold the same characters.
#[verifier::external_body]
pub(crate) fn same_text(left: &str, right: &str) -> (same: bool)
    ensures
        same == (left@ == right@),
{
    left == right
}

/// A text in double quotes, with what cannot be printed escaped.
pub uninterp spec fn quoted(text: Seq<char>) -> Seq<char>;

/// Puts a text in quotes by the `Debug` format of `str`, which is a function of the
/// text: in double quotes, and with escapes for what cannot be printed.
#[verifier::external_body]
pub(crate) fn quote(text: &str) -> (result: String)
    ensures
        result@ == quoted(text@),
{
    format!("{text:?}")
}

/// The characters of a string, in order.
pub fn chars_of(text: &str) -> (chars: Vec<char>)
    ensures
        chars@ == text@,
{
    let mut chars: Vec<char> = Vec::new();
    for c in iter: text.chars()
        invariant
            iter.seq() == text@,
            chars@ =~= iter.seq().take(iter.index() as int),
    {
        chars.push(c);
    }
    chars
}

/// The string with the given characters.
pub fn string_of(chars: &[char]) -> (text: String)
    ensures
        text@ == chars@,
{
    let mut text = String::new();
    let mut i: usize = 0;
    while i < chars.len()
        invariant
            i <= chars.len(),
            text@ =~= chars@.take(i as int),
        decreases chars.len() - i,
    {
        push_char(&mut text, chars[i]);
        i += 1;
    }
    text
}

/// Joins two pieces of text.
pub fn concat(left: &str, right: &str) -> (text: String)
    ensures
        text@ == left@ + right@,
{
    let mut text = left.to_owned();
    text.append(right);
    text
}

/// The characters of each of several strings.
pub open spec fn all(texts: Seq<String>) -> Seq<Seq<char>> {
    Seq::new(texts.len(), |i: int| texts[i]@)
}

/// The characters of a string that may be absent.
pub open spec fn optional(text: Option<String>) -> Option<Seq<char>> {
    match text {
        Some(value) => Some(value@),
        None => None,
    }
}

/// A copy of each of several strings.
pub fn clone_all(texts: &Vec<String>) -> (copy: Vec<String>)
    ensures
        all(copy@) == all(texts@),
{
    let mut copy: Vec<String> = Vec::new();
    let mut i: usize = 0;
    while i < texts.len()
        invariant
            i <= texts.len(),
            copy@.len() == i,
            forall|k: int| 0 <= k < i ==> (#[trigger] copy@[k])@ == texts@[k]@,
        decreases texts.len() - i,
    {
        copy.push(texts[i].clone());
        i += 1;
    }
    assert(all(copy@) =~= all(texts@));
    copy
}

/// A copy of a string that may be absent.
pub fn clone_optional(text: &Option<String>) -> (copy: Option<String>)
    ensures
        optional(copy) == optional(*text),
{
    match text {
        Some(value) => Some(value.clone()),
        None => None,
    }
}

/// Several texts with a separator between each and the next.
pub open spec fn joined(texts: Seq<Seq<char>>, separator: Seq<char>) -> Seq<char>
    decreases texts.len(),
{
    if texts.len() == 0 {
        Seq::empty()
    } else if texts.len() == 1 {
        texts[0]
    } else {
        joined(texts.drop_last(), separator) + separator + texts.last()
    }
}

/// Joins the texts from a position on.
pub fn join_texts(texts: &Vec<String>, start: usize, separator: &str) -> (text: String)
    requires
        start <= texts@.len(),
    ensures
        text@ == joined(all(texts@).skip(start as int), separator@),
{
    let mut text = String::new();
    let mut i: usize = start;
    let ghost items = all(texts@).skip(start as int);
    while i < texts.len()
        invariant
            start <= i <= texts.len(),
            items == all(texts@).skip(start as int),
            text@ == joined(items.take(i - start), separator@),
        decreases texts.len() - i,
    {
        let ghost seen = items.take(i - start);
        let ghost next = items.take(i + 1 - start);
        assert(next.drop_last() =~= seen);
        assert(next.last() == texts@[i as int]@);
        if i > start {
            text.append(separator);
        }
        text.append(texts[i].as_str());
        assert(text@ =~= joined(next, separator@));
        i += 1;
    }
    assert(items.take(i - start) =~= items);
    text
}

/// Lexicographic order on character sequences. Since UTF-8 keeps the order of
/// code points, this is also the byte order that `str` and `String` compare by.
pub open spec fn before(left: Seq<char>, right: Seq<char>) -> bool
    decreases left.len(),
{
    if right.len() == 0 {
        false
    } else if left.len() == 0 {
        true
    } else {
        left[0] < right[0] || (left[0] == right[0] && before(left.skip(1), right.skip(1)))
    }
}

/// Nothing comes before itself.
pub proof fn before_irreflexive(text: Seq<char>)
    ensures
        !before(text, text),
    decreases text.len(),
{
    if text.len() > 0 {
        before_irreflexive(text.skip(1));
    }
}

/// Of two different texts, one comes before the other.
pub proof fn before_total(left: Seq<char>, right: Seq<char>)
    ensures
        left == right || before(left, right) || before(right, left),
    decreases left.len(),
{
    if left.len() > 0 && right.len() > 0 {
        before_total(left.skip(1), right.skip(1));
        if left[0] == right[0] && left.skip(1) == right.skip(1) {
            assert(left =~= seq![left[0]] + left.skip(1));
            assert(right =~= seq![right[0]] + right.skip(1));
        }
    } else if left.len() == 0 && right.len() == 0 {
        assert(left =~= right);
    }
}

/// The order is transitive.
pub proof fn before_transitive(a: Seq<char>, b: Seq<char>, c: Seq<char>)
    requires
        before(a, b),
        before(b, c),
    ensures
        before(a, c),
    decreases a.len(),
{
    if a.len() > 0 && b.len() > 0 && c.len() > 0 && a[0] == b[0] && b[0] == c[0] {
        before_transitive(a.skip(1), b.skip(1), c.skip(1));
    }
}

/// The order is asymmetric.
pub proof fn before_asymmetric(left: Seq<char>, right: Seq<char>)
    requires
        before(left, right),
    ensures
        !before(right, left),
        left != right,
{
    before_irreflexive(left);
    if before(right, left) {
        before_transitive(left, right, left);
    }
}

proof fn before_from(left: Seq<char>, right: Seq<char>, i: int)
    requires
        0 <= i <= left.len(),
        i <= right.len(),
        left.take(i) == right.take(i),
    ensures
        before(left, right) == before(left.skip(i), right.skip(i)),
    decreases i,
{
    if i > 0 {
        assert(left[0] == left.take(i)[0]);
        assert(right[0] == right.take(i)[0]);
        assert(left.skip(1).take(i - 1) =~= left.take(i).skip(1));
        assert(right.skip(1).take(i - 1) =~= right.take(i).skip(1));
        before_from(left.skip(1), right.skip(1), i - 1);
        assert(left.skip(1).skip(i - 1) =~= left.skip(i));
        assert(right.skip(1).skip(i - 1) =~= right.skip(i));
    } else {
        assert(left.skip(0) =~= left);
        assert(right.skip(0) =~= right);
    }
}

/// Whether `left` comes before `right`.
pub fn is_before(left: &str, right: &str) -> (result: bool)
    ensures
        result == before(left@, right@),
{
    let a = chars_of(left);
    let b = chars_of(right);
    let mut i: usize = 0;
    while i < a.len() && i < b.len() && a[i] == b[i]
        invariant
            i <= a.len(),
            i <= b.len(),
            a@.take(i as int) =~= b@.take(i as int),
        decreases a.len() - i,
    {
        i += 1;
    }
    proof {
        before_from(a@, b@, i as int);
    }
    if i >= b.len() {
        false
    } else if i >= a.len() {
        true
    } else {
        a[i] < b[i]
    }
}

/// Whether a character is white space by the Unicode property.
pub open spec fn is_white_space(c: char) -> bool {
    let code = c as u32;
    9 <= code <= 13 || code == 32 || code == 0x85 || code == 0xa0 || code == 0x1680 || 0x2000
        <= code <= 0x200a || code == 0x2028 || code == 0x2029 || code == 0x202f || code == 0x205f
        || code == 0x3000
}

fn check_white_space(c: char) -> (white: bool)
    ensures
        white == is_white_space(c),
{
    let code: u32 = c as u32;
    (9 <= code && code <= 13) || code == 32 || code == 0x85 || code == 0xa0 || code == 0x1680 || (
    0x2000 <= code && code <= 0x200a) || code == 0x2028 || code == 0x2029 || code == 0x202f || code
        == 0x205f || code == 0x3000
}

/// Text without the white space at its beginning.
pub open spec fn trimmed_start(text: Seq<char>) -> Seq<char>
    decreases text.len(),
{
    if text.len() > 0 && is_white_space(text[0]) {
        trimmed_start(text.skip(1))
    } else {
        text
    }
}

/// Text without the white space at its end.
pub open spec fn trimmed_end(text: Seq<char>) -> Seq<char>
    decreases text.len(),
{
    if text.len() > 0 && is_white_space(text.last()) {
        trimmed_end(text.drop_last())
    } else {
        text
    }
}

/// Text without the white space around it.
pub open spec fn trimmed(text: Seq<char>) -> Seq<char> {
    trimmed_end(trimmed_start(text))
}

/// Takes away the white space around a text.
pub fn trim(text: &str) -> (result: String)
    ensures
        result@ == trimmed(text@),
{
    let chars = chars_of(text);
    let mut start: usize = 0;
    assert(chars@.skip(0) =~= chars@);
    while start < chars.len() && check_white_space(chars[start])
        invariant
            start <= chars.len(),
            trimmed_start(chars@.skip(start as int)) == trimmed_start(text@),
        decreases chars.len() - start,
    {
        assert(chars@.skip(start as int).skip(1) =~= chars@.skip(start + 1));
        start += 1;
    }
    let mut end: usize = chars.len();
    let ghost middle = chars@.skip(start as int);
    assert(chars@.subrange(start as int, end as int) =~= middle);
    while end > start && check_white_space(chars[end - 1])
        invariant
            start <= end <= chars.len(),
            trimmed_end(chars@.subrange(start as int, end as int)) == trimmed_end(middle),
        decreases end,
    {
        assert(chars@.subrange(start as int, end as int).drop_last() =~= chars@.subrange(
            start as int,
            end - 1,
        ));
        end -= 1;
    }
    let mut result = String::new();
    let mut i: usize = start;
    while i < end
        invariant
            start <= i <= end <= chars.len(),
            result@ =~= chars@.subrange(start as int, i as int),
        decreases end - i,
    {
        push_char(&mut result, chars[i]);
        i += 1;
    }
    result
}

/// Whether a text holds another one.
pub open spec fn mentions(text: Seq<char>, part: Seq<char>) -> bool {
    exists|start: int|
        0 <= start <= text.len() - part.len() && #[trigger] text.subrange(
            start,
            start + part.len(),
        ) == part
}

/// A text holds what it is put together from.
pub proof fn mentioned(before: Seq<char>, part: Seq<char>, after: Seq<char>)
    ensures
        mentions(before + part + after, part),
{
    let text = before + part + after;
    assert(text.subrange(before.len() as int, before.len() as int + part.len()) =~= part);
}

/// A text holds its last part.
pub proof fn at_the_end(before: Seq<char>, part: Seq<char>)
    ensures
        mentions(before + part, part),
{
    mentioned(before, part, Seq::empty());
    assert(before + part =~= before + part + Seq::empty());
}

/// A text holds both of the parts that it is put together from.
pub proof fn both_mentioned(
    before: Seq<char>,
    first: Seq<char>,
    between: Seq<char>,
    second: Seq<char>,
)
    ensures
        mentions(before + first + between + second, first),
        mentions(before + first + between + second, second),
{
    mentioned(before, first, between + second);
    assert(before + first + between + second =~= before + first + (between + second));
    at_the_end(before + first + between, second);
}

/// Trimming takes white space and nothing else, from both ends and from nowhere else:
/// whatever is put around a text that neither begins nor ends with white space, the
/// text is left.
pub proof fn only_surrounding_space_is_trimmed(
    before: Seq<char>,
    text: Seq<char>,
    after: Seq<char>,
)
    requires
        forall|i: int| 0 <= i < before.len() ==> is_white_space(#[trigger] before[i]),
        forall|i: int| 0 <= i < after.len() ==> is_white_space(#[trigger] after[i]),
        text.len() > 0,
        !is_white_space(text[0]),
        !is_white_space(text.last()),
    ensures
        trimmed(before + text + after) == text,
{
    start_is_trimmed(before, text + after);
    assert(before + text + after =~= before + (text + after));
    end_is_trimmed(text, after);
}

proof fn start_is_trimmed(before: Seq<char>, text: Seq<char>)
    requires
        forall|i: int| 0 <= i < before.len() ==> is_white_space(#[trigger] before[i]),
        text.len() > 0,
        !is_white_space(text[0]),
    ensures
        trimmed_start(before + text) == text,
    decreases before.len(),
{
    if before.len() == 0 {
        assert(before + text =~= text);
    } else {
        let rest = before.skip(1);
        assert forall|i: int| 0 <= i < rest.len() implies is_white_space(#[trigger] rest[i]) by {
            assert(rest[i] == before[i + 1]);
        }
        start_is_trimmed(rest, text);
        assert((before + text)[0] == before[0]);
        assert((before + text).skip(1) =~= rest + text);
    }
}

proof fn end_is_trimmed(text: Seq<char>, after: Seq<char>)
    requires
        forall|i: int| 0 <= i < after.len() ==> is_white_space(#[trigger] after[i]),
        text.len() > 0,
        !is_white_space(text.last()),
    ensures
        trimmed_end(text + after) == text,
    decreases after.len(),
{
    if after.len() == 0 {
        assert(text + after =~= text);
    } else {
        let rest = after.drop_last();
        assert forall|i: int| 0 <= i < rest.len() implies is_white_space(#[trigger] rest[i]) by {
            assert(rest[i] == after[i]);
        }
        end_is_trimmed(text, rest);
        assert((text + after).last() == after[after.len() - 1]);
        assert((text + after).drop_last() =~= text + rest);
    }
}

} // verus!
