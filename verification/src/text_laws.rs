//! What the text functions make of every text.

use vstd::prelude::*;

use crate::text::{
    decimal, is_blank, is_white, joined, lemma_first_position_found, lemma_first_position_none,
    lines_of, same_ignoring_case, trimmed, trimmed_end, trimmed_start, without_trailing,
};

verus! {

/// Blanks, tabs and line breaks are white; letters, digits and marks are not.
pub proof fn law_white_space_is_what_shows_nothing(c: char)
    ensures
        is_white(' '),
        is_white('\t'),
        is_white('\n'),
        is_white('\r'),
        '!' <= c <= '~' ==> !is_white(c),
{
}

/// A text is read line by line: up to a line feed, without the carriage return
/// before it, and the rest. What ends without a line feed is a line as it is.
pub proof fn law_lines_end_in_line_feeds(line: Seq<char>, rest: Seq<char>)
    requires
        forall|i: int| 0 <= i < line.len() ==> #[trigger] line[i] != '\n',
    ensures
        lines_of(Seq::empty()) == Seq::<Seq<char>>::empty(),
        line.len() > 0 ==> lines_of(line) == seq![line],
        line.len() == 0 || line.last() != '\r' ==> lines_of(line.push('\n') + rest) == seq![line]
            + lines_of(rest),
        lines_of(line.push('\r').push('\n') + rest) == seq![line] + lines_of(rest),
{
    reveal(lines_of);
    if line.len() > 0 {
        lemma_first_position_none(line, '\n');
    }
    if line.len() == 0 || line.last() != '\r' {
        let text = line.push('\n') + rest;
        assert forall|j: int| 0 <= j < line.len() implies text[j] != '\n' by {
            assert(text[j] == line[j]);
        }
        lemma_first_position_found(text, '\n', line.len() as int);
        assert(text.take(line.len() as int) =~= line);
        assert(text.skip(line.len() as int + 1) =~= rest);
    }
    let returned = line.push('\r');
    let text = returned.push('\n') + rest;
    assert forall|j: int| 0 <= j < returned.len() implies text[j] != '\n' by {
        if j < line.len() {
            assert(text[j] == line[j]);
        }
    }
    lemma_first_position_found(text, '\n', returned.len() as int);
    assert(text.take(returned.len() as int) =~= returned);
    assert(returned.drop_last() =~= line);
    assert(text.skip(returned.len() as int + 1) =~= rest);
}

/// Trimming takes the white space off both ends and leaves what is between.
pub proof fn law_trimming_leaves_what_is_between(
    before: Seq<char>,
    text: Seq<char>,
    after: Seq<char>,
)
    requires
        is_blank(before),
        is_blank(after),
        text.len() > 0,
        !is_white(text[0]),
        !is_white(text.last()),
    ensures
        trimmed(before + text + after) == text,
        trimmed_end(text + after) == text,
{
    lemma_trimmed_start(before, text + after);
    assert(before + text + after =~= before + (text + after));
    lemma_trimmed_end(text, after);
}

proof fn lemma_trimmed_start(before: Seq<char>, text: Seq<char>)
    requires
        is_blank(before),
        text.len() > 0,
        !is_white(text[0]),
    ensures
        trimmed_start(before + text) == text,
    decreases before.len(),
{
    let whole = before + text;
    if before.len() > 0 {
        assert(is_white(before[0]));
        assert(whole[0] == before[0]);
        assert forall|i: int| 0 <= i < before.skip(1).len() implies is_white(
            #[trigger] before.skip(1)[i],
        ) by {
            assert(before.skip(1)[i] == before[i + 1]);
        }
        assert(whole.skip(1) =~= before.skip(1) + text);
        lemma_trimmed_start(before.skip(1), text);
    } else {
        assert(whole =~= text);
    }
}

proof fn lemma_trimmed_end(text: Seq<char>, after: Seq<char>)
    requires
        is_blank(after),
        text.len() > 0,
        !is_white(text.last()),
    ensures
        trimmed_end(text + after) == text,
    decreases after.len(),
{
    let whole = text + after;
    if after.len() > 0 {
        assert(is_white(after[after.len() - 1]));
        assert(whole.last() == after.last());
        let shorter = after.drop_last();
        assert forall|i: int| 0 <= i < shorter.len() implies is_white(#[trigger] shorter[i]) by {
            assert(shorter[i] == after[i]);
        }
        assert(whole.drop_last() =~= text + shorter);
        lemma_trimmed_end(text, shorter);
    } else {
        assert(whole =~= text);
    }
}

/// Of a repeated last character nothing is left, and nothing else is taken.
pub proof fn law_a_trailing_character_is_dropped(text: Seq<char>, c: char, count: nat)
    requires
        text.len() == 0 || text.last() != c,
    ensures
        without_trailing(text + Seq::new(count, |i: int| c), c) == text,
    decreases count,
{
    let whole = text + Seq::new(count, |i: int| c);
    if count > 0 {
        assert(whole.last() == c);
        assert(whole.drop_last() =~= text + Seq::new((count - 1) as nat, |i: int| c));
        law_a_trailing_character_is_dropped(text, c, (count - 1) as nat);
    } else {
        assert(whole =~= text);
    }
}

/// Parts are put together with the separator between each two of them.
pub proof fn law_parts_are_joined_in_order(
    parts: Seq<Seq<char>>,
    part: Seq<char>,
    separator: Seq<char>,
)
    ensures
        joined(Seq::empty(), separator) == Seq::<char>::empty(),
        joined(seq![part], separator) == part,
        parts.len() > 0 ==> joined(parts.push(part), separator) == joined(parts, separator)
            + separator + part,
{
    assert(parts.push(part).drop_last() =~= parts);
}

/// A number is written digit by digit, the largest first, without a nought in
/// front.
pub proof fn law_numbers_are_written_digit_by_digit(n: nat, d: nat)
    requires
        d < 10,
    ensures
        decimal(0) == "0"@,
        decimal(1) == "1"@,
        decimal(9) == "9"@,
        decimal(d) == seq![((48 + d) as u8) as char],
        n > 0 ==> decimal(10 * n + d) == decimal(n).push(((48 + d) as u8) as char),
{
    reveal_strlit("0");
    reveal_strlit("1");
    reveal_strlit("9");
    assert(decimal(0) =~= "0"@);
    assert(decimal(1) =~= "1"@);
    assert(decimal(9) =~= "9"@);
    assert((10 * n + d) / 10 == n);
    assert((10 * n + d) % 10 == d);
}

/// Case makes no difference between letters, and nothing else is made the same.
pub proof fn law_case_is_all_that_is_ignored(left: Seq<char>, right: Seq<char>)
    ensures
        left == right ==> same_ignoring_case(left, right),
        same_ignoring_case(left, right) ==> left.len() == right.len(),
        same_ignoring_case(left, right) ==> forall|i: int|
            0 <= i < left.len() ==> {
                ||| #[trigger] left[i] == right[i]
                ||| 'a' <= left[i] <= 'z' && right[i] as u32 + 32 == left[i] as u32
                ||| 'A' <= left[i] <= 'Z' && left[i] as u32 + 32 == right[i] as u32
            },
        left.len() == right.len() && (forall|i: int|
            0 <= i < left.len() ==> #[trigger] left[i] == right[i] || ('A' <= left[i] <= 'Z'
                && left[i] as u32 + 32 == right[i] as u32)) ==> same_ignoring_case(left, right),
{
}

} // verus!
