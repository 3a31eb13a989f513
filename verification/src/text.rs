//! Text and sequences: what every other module says about strings and lists.
//!
//! A string is modelled by its characters (`Seq<char>`) and a list by its
//! elements, each taken by its own view.

use vstd::prelude::*;
use vstd::string::*;
use vstd::utf8::*;

verus! {

/// The views of every element, in order.
pub open spec fn views<T: View>(items: Seq<T>) -> Seq<T::V> {
    items.map_values(|item: T| item@)
}

/// The view of an optional value.
pub open spec fn opt_view<T: View>(item: Option<T>) -> Option<T::V> {
    match item {
        Some(value) => Some(value@),
        None => None,
    }
}

/// The index of the first element equal to `wanted`.
#[verifier::opaque]
pub open spec fn first_position<T>(items: Seq<T>, wanted: T) -> Option<int> {
    if items.contains(wanted) {
        Some(
            choose|i: int|
                0 <= i < items.len() && items[i] == wanted && !items.take(i).contains(wanted),
        )
    } else {
        None
    }
}

/// The element at `index`, or nothing past the end.
pub open spec fn get<T>(items: Seq<T>, index: int) -> Option<T> {
    if 0 <= index < items.len() {
        Some(items[index])
    } else {
        None
    }
}

pub proof fn lemma_first_position_exists<T>(items: Seq<T>, wanted: T, bound: int)
    requires
        0 <= bound < items.len(),
        items[bound] == wanted,
    ensures
        exists|i: int|
            0 <= i <= bound && items[i] == wanted && !(#[trigger] items.take(i)).contains(wanted),
    decreases bound,
{
    if items.take(bound).contains(wanted) {
        let j = choose|j: int| 0 <= j < bound && items.take(bound)[j] == wanted;
        lemma_first_position_exists(items, wanted, j);
    }
}

/// A first match is at the position `first_position` reports.
pub proof fn lemma_first_position_found<T>(items: Seq<T>, wanted: T, index: int)
    requires
        0 <= index < items.len(),
        items[index] == wanted,
        forall|j: int| 0 <= j < index ==> items[j] != wanted,
    ensures
        first_position(items, wanted) == Some(index),
{
    reveal(first_position);
    lemma_first_position_exists(items, wanted, index);
    let i = first_position(items, wanted)->0;
    assert(0 <= i < items.len() && items[i] == wanted && !items.take(i).contains(wanted));
    if index < i {
        assert(items.take(i)[index] == wanted);
    }
}

pub proof fn lemma_first_position_none<T>(items: Seq<T>, wanted: T)
    requires
        forall|j: int| 0 <= j < items.len() ==> items[j] != wanted,
    ensures
        first_position(items, wanted) is None,
{
    reveal(first_position);
}

/// What a reported position means.
pub proof fn lemma_first_position<T>(items: Seq<T>, wanted: T)
    ensures
        first_position(items, wanted) matches Some(i) ==> 0 <= i < items.len() && items[i] == wanted
            && forall|j: int| 0 <= j < i ==> items[j] != wanted,
        first_position(items, wanted) is None ==> forall|j: int|
            0 <= j < items.len() ==> items[j] != wanted,
        first_position(items, wanted) is Some <==> items.contains(wanted),
{
    reveal(first_position);
    if items.contains(wanted) {
        let b = choose|b: int| 0 <= b < items.len() && items[b] == wanted;
        lemma_first_position_exists(items, wanted, b);
        let i = first_position(items, wanted)->0;
        assert(0 <= i < items.len() && items[i] == wanted && !items.take(i).contains(wanted));
        assert forall|j: int| 0 <= j < i implies items[j] != wanted by {
            assert(items.take(i)[j] == items[j]);
        }
    } else {
        assert forall|j: int| 0 <= j < items.len() implies items[j] != wanted by {}
    }
}

/// Whether two texts hold the same characters.
pub fn same_text(left: &str, right: &str) -> (same: bool)
    ensures
        same == (left@ == right@),
{
    let a: &[u8] = left.as_bytes();
    let b: &[u8] = right.as_bytes();
    proof {
        encode_utf8_decode_utf8(left@);
        encode_utf8_decode_utf8(right@);
    }
    if a.len() != b.len() {
        return false;
    }
    let mut i: usize = 0;
    while i < a.len()
        invariant
            i <= a.len(),
            a.len() == b.len(),
            a@ == encode_utf8(left@),
            b@ == encode_utf8(right@),
            forall|j: int| 0 <= j < i ==> a@[j] == b@[j],
        decreases a.len() - i,
    {
        if a[i] != b[i] {
            return false;
        }
        i = i + 1;
    }
    assert(a@ =~= b@);
    true
}

/// The characters of a text.
pub fn characters(text: &str) -> (chars: Vec<char>)
    ensures
        chars@ == text@,
{
    let mut chars: Vec<char> = Vec::new();
    for c in iter: text.chars()
        invariant
            iter.seq() == text@,
            chars@ == text@.take(iter.index()),
    {
        chars.push(c);
    }
    chars
}

/// Appends one character, as `String::push` does: the text afterwards is the
/// text before with the character behind it.
#[verifier::external_body]
pub(crate) fn push_character(text: &mut String, character: char)
    ensures
        final(text)@ == old(text)@.push(character),
{
    text.push(character)
}

/// Whether a character has the Unicode `White_Space` property.
pub open spec fn is_white(c: char) -> bool {
    let code = c as u32;
    ||| 0x09 <= code <= 0x0d
    ||| code == 0x20
    ||| code == 0x85
    ||| code == 0xa0
    ||| code == 0x1680
    ||| 0x2000 <= code <= 0x200a
    ||| code == 0x2028
    ||| code == 0x2029
    ||| code == 0x202f
    ||| code == 0x205f
    ||| code == 0x3000
}

pub fn is_whitespace(c: char) -> (white: bool)
    ensures
        white == is_white(c),
{
    let code: u32 = c as u32;
    (0x09 <= code && code <= 0x0d) || code == 0x20 || code == 0x85 || code == 0xa0 || code == 0x1680
        || (0x2000 <= code && code <= 0x200a) || code == 0x2028 || code == 0x2029 || code == 0x202f
        || code == 0x205f || code == 0x3000
}

/// A text without its leading white space.
pub open spec fn trimmed_start(text: Seq<char>) -> Seq<char>
    decreases text.len(),
{
    if text.len() > 0 && is_white(text[0]) {
        trimmed_start(text.skip(1))
    } else {
        text
    }
}

/// A text without its trailing white space.
pub open spec fn trimmed_end(text: Seq<char>) -> Seq<char>
    decreases text.len(),
{
    if text.len() > 0 && is_white(text.last()) {
        trimmed_end(text.drop_last())
    } else {
        text
    }
}

/// A text without the white space at either end.
pub open spec fn trimmed(text: Seq<char>) -> Seq<char> {
    trimmed_end(trimmed_start(text))
}

/// A text without the given characters at its end.
pub open spec fn without_trailing(text: Seq<char>, c: char) -> Seq<char>
    decreases text.len(),
{
    if text.len() > 0 && text.last() == c {
        without_trailing(text.drop_last(), c)
    } else {
        text
    }
}

pub fn trim(text: &str) -> (inner: String)
    ensures
        inner@ == trimmed(text@),
{
    let chars = characters(text);
    let mut from: usize = 0;
    assert(text@.skip(0) =~= text@);
    while from < chars.len() && is_whitespace(chars[from])
        invariant
            from <= chars.len(),
            chars@ == text@,
            trimmed_start(text@) == trimmed_start(text@.skip(from as int)),
        decreases chars.len() - from,
    {
        assert(text@.skip(from as int).skip(1) =~= text@.skip(from + 1));
        from = from + 1;
    }
    let mut to: usize = chars.len();
    let ghost tail = text@.skip(from as int);
    assert(tail.take(to - from) =~= tail);
    while to > from && is_whitespace(chars[to - 1])
        invariant
            from <= to <= chars.len(),
            chars@ == text@,
            tail == text@.skip(from as int),
            trimmed_end(tail) == trimmed_end(tail.take(to - from)),
        decreases to,
    {
        assert(tail.take(to - from).drop_last() =~= tail.take(to - 1 - from));
        to = to - 1;
    }
    assert(tail.take(to - from) =~= text@.subrange(from as int, to as int));
    text.substring_char(from, to).to_owned()
}

/// Drops the white space at the end.
pub fn trim_end(text: &str) -> (inner: String)
    ensures
        inner@ == trimmed_end(text@),
{
    let chars = characters(text);
    let mut to: usize = chars.len();
    assert(text@.take(to as int) =~= text@);
    while to > 0 && is_whitespace(chars[to - 1])
        invariant
            to <= chars.len(),
            chars@ == text@,
            trimmed_end(text@) == trimmed_end(text@.take(to as int)),
        decreases to,
    {
        assert(text@.take(to as int).drop_last() =~= text@.take(to - 1));
        to = to - 1;
    }
    assert(text@.take(to as int) =~= text@.subrange(0, to as int));
    text.substring_char(0, to).to_owned()
}

/// Whether nothing but white space is in a text.
pub open spec fn is_blank(text: Seq<char>) -> bool {
    forall|i: int| 0 <= i < text.len() ==> is_white(#[trigger] text[i])
}

/// A blank text is one that trimming leaves nothing of.
pub proof fn law_a_blank_text_is_trimmed_to_nothing(text: Seq<char>)
    ensures
        is_blank(text) <==> trimmed(text).len() == 0,
    decreases text.len(),
{
    if text.len() > 0 && is_white(text[0]) {
        law_a_blank_text_is_trimmed_to_nothing(text.skip(1));
        assert(forall|i: int| 0 < i < text.len() ==> text[i] == #[trigger] text.skip(1)[i - 1]);
        assert(is_blank(text.skip(1)) ==> is_blank(text)) by {
            if is_blank(text.skip(1)) {
                assert forall|i: int| 0 <= i < text.len() implies is_white(#[trigger] text[i]) by {
                    if i > 0 {
                        assert(is_white(text.skip(1)[i - 1]));
                    }
                }
            }
        }
        assert(is_blank(text) ==> is_blank(text.skip(1)));
    } else if text.len() > 0 {
        lemma_trimmed_end_keeps(text);
    }
}

proof fn lemma_trimmed_end_keeps(text: Seq<char>)
    requires
        text.len() > 0,
        !is_white(text[0]),
    ensures
        trimmed_end(text).len() > 0,
    decreases text.len(),
{
    if text.len() > 1 {
        lemma_trimmed_end_keeps(text.drop_last());
    }
}

pub fn blank(text: &str) -> (answer: bool)
    ensures
        answer == is_blank(text@),
{
    let chars = characters(text);
    let mut i: usize = 0;
    while i < chars.len()
        invariant
            i <= chars.len(),
            chars@ == text@,
            forall|j: int| 0 <= j < i ==> is_white(#[trigger] text@[j]),
        decreases chars.len() - i,
    {
        if !is_whitespace(chars[i]) {
            return false;
        }
        i = i + 1;
    }
    true
}

/// A line without the carriage return that a line feed followed.
pub open spec fn without_return(line: Seq<char>) -> Seq<char> {
    if line.len() > 0 && line.last() == '\r' {
        line.drop_last()
    } else {
        line
    }
}

/// The lines of a text: each ends in a line feed, with or without a carriage
/// return before it, and what stands behind the last line feed is a line of
/// its own unless it is empty.
#[verifier::opaque]
pub open spec fn lines_of(text: Seq<char>) -> Seq<Seq<char>>
    decreases text.len(),
{
    if text.len() == 0 {
        Seq::empty()
    } else {
        match first_position(text, '\n') {
            Some(end) => if 0 <= end < text.len() {
                seq![without_return(text.take(end))] + lines_of(text.skip(end + 1))
            } else {
                Seq::empty()
            },
            None => seq![text],
        }
    }
}

/// The first line feed at or behind `start`, or the end of the text.
fn line_end(chars: &Vec<char>, start: usize) -> (end: usize)
    requires
        start <= chars.len(),
    ensures
        start <= end <= chars.len(),
        end < chars.len() ==> chars@[end as int] == '\n',
        forall|j: int| start <= j < end ==> chars@[j] != '\n',
{
    let mut end: usize = start;
    while end < chars.len() && chars[end] != '\n'
        invariant
            start <= end <= chars.len(),
            forall|j: int| start <= j < end ==> chars@[j] != '\n',
        decreases chars.len() - end,
    {
        end = end + 1;
    }
    end
}

/// What the lines of a text are, given where its first line ends.
proof fn lemma_lines_step(text: Seq<char>, start: int, end: int)
    requires
        0 <= start < text.len(),
        start <= end <= text.len(),
        end < text.len() ==> text[end] == '\n',
        forall|j: int| start <= j < end ==> text[j] != '\n',
    ensures
        end == text.len() ==> lines_of(text.skip(start)) == seq![text.subrange(start, end)],
        end < text.len() ==> lines_of(text.skip(start)) == seq![
            without_return(text.subrange(start, end)),
        ] + lines_of(text.skip(end + 1)),
{
    reveal(lines_of);
    let rest = text.skip(start);
    assert forall|j: int| 0 <= j < end - start implies rest[j] != '\n' by {
        assert(rest[j] == text[start + j]);
    }
    if end == text.len() {
        lemma_first_position_none(rest, '\n');
        assert(text.subrange(start, end) =~= rest);
    } else {
        lemma_first_position_found(rest, '\n', end - start);
        assert(rest.take(end - start) =~= text.subrange(start, end));
        assert(rest.skip(end - start + 1) =~= text.skip(end + 1));
    }
}

/// One more line found.
proof fn lemma_lines_push(found: Seq<String>, line: String, rest: Seq<Seq<char>>)
    ensures
        views(found.push(line)) + rest == views(found) + (seq![line@] + rest),
        views(found.push(line)) == views(found) + seq![line@],
{
    assert(views(found.push(line)) =~= views(found) + seq![line@]);
    assert(views(found) + seq![line@] + rest =~= views(found) + (seq![line@] + rest));
}

pub fn lines(text: &str) -> (parts: Vec<String>)
    ensures
        views(parts@) == lines_of(text@),
{
    let chars = characters(text);
    let mut parts: Vec<String> = Vec::new();
    let mut start: usize = 0;
    proof {
        assert(text@.skip(0) =~= text@);
        assert(views(parts@) + lines_of(text@) =~= lines_of(text@));
        if text@.len() == 0 {
            reveal(lines_of);
        }
    }
    while start < chars.len()
        invariant_except_break
            start <= chars.len(),
            chars@ == text@,
            views(parts@) + lines_of(text@.skip(start as int)) == lines_of(text@),
            start == chars.len() ==> views(parts@) == lines_of(text@),
        ensures
            views(parts@) == lines_of(text@),
        decreases chars.len() - start,
    {
        let end = line_end(&chars, start);
        proof {
            lemma_lines_step(text@, start as int, end as int);
        }
        if end == chars.len() {
            let line = text.substring_char(start, end).to_owned();
            proof {
                lemma_lines_push(parts@, line, Seq::empty());
            }
            parts.push(line);
            break;
        }
        let mut last: usize = end;
        if end > start && chars[end - 1] == '\r' {
            last = end - 1;
            assert(text@.subrange(start as int, end as int).drop_last() =~= text@.subrange(
                start as int,
                last as int,
            ));
        }
        let line = text.substring_char(start, last).to_owned();
        proof {
            lemma_lines_push(parts@, line, lines_of(text@.skip(end + 1)));
        }
        parts.push(line);
        start = end + 1;
        proof {
            if start == text@.len() {
                reveal(lines_of);
                assert(views(parts@) + Seq::<Seq<char>>::empty() =~= views(parts@));
            }
        }
    }
    parts
}

/// Drops every trailing occurrence of a character.
pub fn trim_end_matches(text: &str, c: char) -> (inner: String)
    ensures
        inner@ == without_trailing(text@, c),
{
    let chars = characters(text);
    let mut to: usize = chars.len();
    assert(text@.take(to as int) =~= text@);
    while to > 0 && chars[to - 1] == c
        invariant
            to <= chars.len(),
            chars@ == text@,
            without_trailing(text@, c) == without_trailing(text@.take(to as int), c),
        decreases to,
    {
        assert(text@.take(to as int).drop_last() =~= text@.take(to - 1));
        to = to - 1;
    }
    assert(text@.take(to as int) =~= text@.subrange(0, to as int));
    text.substring_char(0, to).to_owned()
}

/// A letter from `A` to `Z` as its lowercase counterpart, and any other
/// character as itself.
pub open spec fn ascii_lower(c: char) -> char {
    if 'A' <= c && c <= 'Z' {
        ((c as u8 + 32) as u8) as char
    } else {
        c
    }
}

/// Whether two texts agree but for the case of ASCII letters.
pub open spec fn same_ignoring_case(left: Seq<char>, right: Seq<char>) -> bool {
    &&& left.len() == right.len()
    &&& forall|i: int|
        0 <= i < left.len() ==> ascii_lower(#[trigger] left[i]) == ascii_lower(right[i])
}

pub fn to_ascii_lower(c: char) -> (lower: char)
    ensures
        lower == ascii_lower(c),
{
    if 'A' <= c && c <= 'Z' {
        (c as u8 + 32) as char
    } else {
        c
    }
}

pub fn eq_ignore_ascii_case(left: &str, right: &str) -> (same: bool)
    ensures
        same == same_ignoring_case(left@, right@),
{
    let a = characters(left);
    let b = characters(right);
    if a.len() != b.len() {
        return false;
    }
    let mut i: usize = 0;
    while i < a.len()
        invariant
            i <= a.len(),
            a.len() == b.len(),
            a@ == left@,
            b@ == right@,
            forall|j: int| 0 <= j < i ==> ascii_lower(#[trigger] left@[j]) == ascii_lower(right@[j]),
        decreases a.len() - i,
    {
        if to_ascii_lower(a[i]) != to_ascii_lower(b[i]) {
            assert(ascii_lower(left@[i as int]) != ascii_lower(right@[i as int]));
            return false;
        }
        i = i + 1;
    }
    true
}

/// The decimal digit for a number below ten.
pub open spec fn digit(n: nat) -> char {
    ((48 + n) as u8) as char
}

/// A number in decimal, without leading zeros.
pub open spec fn decimal(n: nat) -> Seq<char>
    decreases n,
{
    if n < 10 {
        seq![digit(n)]
    } else {
        decimal(n / 10).push(digit(n % 10))
    }
}

/// Writes a number in decimal behind a text.
pub fn push_decimal(text: &mut String, n: u64)
    ensures
        final(text)@ == old(text)@ + decimal(n as nat),
    decreases n,
{
    if n >= 10 {
        push_decimal(text, n / 10);
    }
    let d: u8 = 48 + (n % 10) as u8;
    let ghost before = text@;
    push_character(text, d as char);
    proof {
        assert(text@ =~= old(text)@ + decimal(n as nat));
    }
}

/// The lines of a text put together again, with a separator between them.
pub open spec fn joined(parts: Seq<Seq<char>>, separator: Seq<char>) -> Seq<char>
    decreases parts.len(),
{
    if parts.len() == 0 {
        Seq::empty()
    } else if parts.len() == 1 {
        parts[0]
    } else {
        joined(parts.drop_last(), separator) + separator + parts.last()
    }
}

/// A copy of a list of texts.
pub fn clone_texts(texts: &Vec<String>) -> (copy: Vec<String>)
    ensures
        views(copy@) == views(texts@),
{
    let mut copy: Vec<String> = Vec::new();
    let mut i: usize = 0;
    while i < texts.len()
        invariant
            i <= texts.len(),
            views(copy@) == views(texts@).take(i as int),
        decreases texts.len() - i,
    {
        let ghost before = copy@;
        copy.push(texts[i].clone());
        i = i + 1;
        proof {
            assert(views(copy@) =~= views(before).push(texts@[i - 1]@));
            assert(views(texts@).take(i as int) =~= views(texts@).take(i - 1).push(texts@[i - 1]@));
        }
    }
    assert(views(texts@).take(i as int) =~= views(texts@));
    copy
}

} // verus!
