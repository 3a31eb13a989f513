//! Clipboard writes through the terminal.
//!
//! OSC 52 lets capable terminals own the platform clipboard while keeping
//! Tuivir independent of a desktop clipboard API.

use vstd::arithmetic::div_mod::lemma_fundamental_div_mod_converse;
use vstd::prelude::*;
use vstd::string::*;
use vstd::utf8::encode_utf8;

use super::encoding::bytes_of;
use crate::text::push_character;

verus! {

/// The character that stands for a number below 64.
pub open spec fn base64_digit(value: int) -> char {
    if value < 26 {
        ((65 + value) as u8) as char
    } else if value < 52 {
        ((71 + value) as u8) as char
    } else if value < 62 {
        ((value - 4) as u8) as char
    } else if value == 62 {
        '+'
    } else {
        '/'
    }
}

/// The number that a character stands for.
pub open spec fn base64_value(digit: char) -> int {
    if 'A' <= digit <= 'Z' {
        digit as u32 - 65
    } else if 'a' <= digit <= 'z' {
        digit as u32 - 71
    } else if '0' <= digit <= '9' {
        digit as u32 + 4
    } else if digit == '+' {
        62
    } else {
        63
    }
}

/// Up to three bytes, read as one number of three bytes.
pub open spec fn group_value(bytes: Seq<u8>) -> int {
    bytes[0] * 65536 + (if bytes.len() > 1 {
        bytes[1] * 256
    } else {
        0
    }) + (if bytes.len() > 2 {
        bytes[2] as int
    } else {
        0
    })
}

/// Up to three bytes as four digits of base 64, padded where bytes are
/// missing.
pub open spec fn base64_group(bytes: Seq<u8>) -> Seq<char> {
    let value = group_value(bytes);
    seq![
        base64_digit(value / 262144),
        base64_digit(value / 4096 % 64),
        if bytes.len() > 1 {
            base64_digit(value / 64 % 64)
        } else {
            '='
        },
        if bytes.len() > 2 {
            base64_digit(value % 64)
        } else {
            '='
        },
    ]
}

/// How many bytes the next group of a sequence takes.
pub open spec fn group_length(bytes: Seq<u8>) -> int {
    if bytes.len() < 3 {
        bytes.len() as int
    } else {
        3
    }
}

/// Bytes in base 64.
pub open spec fn base64(bytes: Seq<u8>) -> Seq<char>
    decreases bytes.len(),
{
    if bytes.len() == 0 {
        Seq::empty()
    } else {
        base64_group(bytes.take(group_length(bytes))) + base64(bytes.skip(group_length(bytes)))
    }
}

/// The bytes that a group of four digits stands for.
pub open spec fn base64_group_bytes(digits: Seq<char>) -> Seq<u8> {
    let value = base64_value(digits[0]) * 262144 + base64_value(digits[1]) * 4096;
    if digits[2] == '=' {
        seq![(value / 65536) as u8]
    } else if digits[3] == '=' {
        let value = value + base64_value(digits[2]) * 64;
        seq![(value / 65536) as u8, (value / 256 % 256) as u8]
    } else {
        let value = value + base64_value(digits[2]) * 64 + base64_value(digits[3]);
        seq![(value / 65536) as u8, (value / 256 % 256) as u8, (value % 256) as u8]
    }
}

/// The bytes that a text in base 64 stands for.
pub open spec fn base64_bytes(digits: Seq<char>) -> Seq<u8>
    decreases digits.len(),
{
    if digits.len() < 4 {
        Seq::empty()
    } else {
        base64_group_bytes(digits.take(4)) + base64_bytes(digits.skip(4))
    }
}

/// What is written to the terminal so that it puts a text on the clipboard.
pub open spec fn osc52(text: Seq<char>) -> Seq<char> {
    "\x1b]52;c;"@ + base64(encode_utf8(text)) + "\x07"@
}

fn digit_of(value: u32) -> (digit: char)
    requires
        value < 64,
    ensures
        digit == base64_digit(value as int),
{
    if value < 26 {
        (65 + value as u8) as char
    } else if value < 52 {
        (71 + value as u8) as char
    } else if value < 62 {
        (value as u8 - 4) as char
    } else if value == 62 {
        '+'
    } else {
        '/'
    }
}

fn push_group(encoded: &mut String, bytes: &Vec<u8>, start: usize)
    requires
        start < bytes.len(),
    ensures
        final(encoded)@ == old(encoded)@ + base64_group(
            bytes@.skip(start as int).take(group_length(bytes@.skip(start as int))),
        ),
{
    let ghost rest = bytes@.skip(start as int);
    let ghost group = rest.take(group_length(rest));
    let left: usize = bytes.len() - start;
    let first: u32 = bytes[start] as u32;
    let second: u32 = if left > 1 {
        bytes[start + 1] as u32
    } else {
        0
    };
    let third: u32 = if left > 2 {
        bytes[start + 2] as u32
    } else {
        0
    };
    let value: u32 = first * 65536 + second * 256 + third;
    assert(value == group_value(group));
    push_character(encoded, digit_of(value / 262144));
    push_character(encoded, digit_of(value / 4096 % 64));
    push_character(
        encoded,
        if left > 1 {
            digit_of(value / 64 % 64)
        } else {
            '='
        },
    );
    push_character(
        encoded,
        if left > 2 {
            digit_of(value % 64)
        } else {
            '='
        },
    );
    assert(encoded@ =~= old(encoded)@ + base64_group(group));
}

/// Encodes bytes in base 64.
pub fn encode_base64(bytes: &Vec<u8>) -> (encoded: String)
    ensures
        encoded@ == base64(bytes@),
{
    let mut encoded = "".to_owned();
    proof {
        reveal_strlit("");
        assert(bytes@.skip(0) =~= bytes@);
        assert(base64(bytes@) =~= encoded@ + base64(bytes@.skip(0)));
    }
    let mut start: usize = 0;
    while start < bytes.len()
        invariant
            start <= bytes.len(),
            base64(bytes@) == encoded@ + base64(bytes@.skip(start as int)),
        decreases bytes.len() - start,
    {
        let ghost before = encoded@;
        let ghost rest = bytes@.skip(start as int);
        push_group(&mut encoded, bytes, start);
        let taken: usize = if bytes.len() - start < 3 {
            bytes.len() - start
        } else {
            3
        };
        proof {
            assert(rest.skip(group_length(rest)) =~= bytes@.skip(start + taken));
            assert(before + (base64_group(rest.take(group_length(rest))) + base64(
                rest.skip(group_length(rest)),
            )) =~= encoded@ + base64(bytes@.skip(start + taken)));
        }
        start = start + taken;
    }
    proof {
        assert(bytes@.skip(start as int).len() == 0);
        assert(encoded@ + base64(bytes@.skip(start as int)) =~= encoded@);
    }
    encoded
}

/// What is written to the terminal so that it puts a text on the clipboard.
pub fn clipboard_sequence(text: &str) -> (sequence: String)
    ensures
        sequence@ == osc52(text@),
{
    let encoded = encode_base64(&bytes_of(text));
    let mut sequence = "\x1b]52;c;".to_owned();
    sequence.append(encoded.as_str());
    sequence.append("\x07");
    sequence
}

proof fn lemma_digits_read_back(value: int)
    requires
        0 <= value < 64,
    ensures
        base64_value(base64_digit(value)) == value,
        base64_digit(value) != '=',
{
}

proof fn lemma_digits_make_the_value(v: u32)
    requires
        v < 16777216,
    ensures
        v / 262144 < 64,
        v / 262144 * 262144 + v / 4096 % 64 * 4096 + v / 64 % 64 * 64 + v % 64 == v,
        v % 4096 == 0 ==> v / 64 % 64 == 0,
{
    assert(v < 16777216 ==> v / 262144 < 64) by (bit_vector);
    assert(v < 16777216 ==> (v / 262144) * 262144 + ((v / 4096) % 64) * 4096 + ((v / 64) % 64) * 64
        + v % 64 == v) by (bit_vector);
    assert(v % 4096 == 0 ==> (v / 64) % 64 == 0) by (bit_vector);
}

proof fn lemma_bytes_of_the_value(first: u8, second: u8, third: u8, v: u32)
    requires
        v == first * 65536 + second * 256 + third,
    ensures
        v < 16777216,
        v / 65536 == first,
        v / 256 % 256 == second,
        v % 256 == third,
        third == 0 ==> v % 64 == 0,
        second == 0 && third == 0 ==> v % 4096 == 0,
{
}

proof fn lemma_groups_read_back(bytes: Seq<u8>)
    requires
        1 <= bytes.len() <= 3,
    ensures
        base64_group_bytes(base64_group(bytes)) == bytes,
{
    let first = bytes[0];
    let second = if bytes.len() > 1 {
        bytes[1]
    } else {
        0u8
    };
    let third = if bytes.len() > 2 {
        bytes[2]
    } else {
        0u8
    };
    let value = group_value(bytes);
    let v = value as u32;
    assert(value == first * 65536 + second * 256 + third);
    lemma_bytes_of_the_value(first, second, third, v);
    lemma_digits_make_the_value(v);
    lemma_digits_read_back(value / 262144);
    lemma_digits_read_back(value / 4096 % 64);
    lemma_digits_read_back(value / 64 % 64);
    lemma_digits_read_back(value % 64);
    let digits = base64_group(bytes);
    if bytes.len() == 1 {
        assert(base64_group_bytes(digits) =~= seq![first]);
        assert(bytes =~= seq![first]);
    } else if bytes.len() == 2 {
        assert(base64_group_bytes(digits) =~= seq![first, second]);
        assert(bytes =~= seq![first, second]);
    } else {
        assert(base64_group_bytes(digits) =~= seq![first, second, third]);
        assert(bytes =~= seq![first, second, third]);
    }
}

/// What the terminal decodes is exactly what was encoded.
pub proof fn law_base64_reads_back(bytes: Seq<u8>)
    ensures
        base64_bytes(base64(bytes)) == bytes,
    decreases bytes.len(),
{
    if bytes.len() > 0 {
        let taken = group_length(bytes);
        let group = base64_group(bytes.take(taken));
        law_base64_reads_back(bytes.skip(taken));
        lemma_groups_read_back(bytes.take(taken));
        assert(base64(bytes).take(4) =~= group);
        assert(base64(bytes).skip(4) =~= base64(bytes.skip(taken)));
        assert(bytes.take(taken) + bytes.skip(taken) =~= bytes);
    } else {
        assert(base64_bytes(base64(bytes)) =~= bytes);
    }
}

/// Every three bytes, or what is left of them, take four characters.
pub proof fn law_base64_length(bytes: Seq<u8>)
    ensures
        base64(bytes).len() == (bytes.len() + 2) / 3 * 4,
    decreases bytes.len(),
{
    if bytes.len() > 0 {
        law_base64_length(bytes.skip(group_length(bytes)));
    }
}

/// Two different texts never put the same thing on the clipboard.
pub proof fn law_the_clipboard_receives_the_exact_text(first: Seq<char>, second: Seq<char>)
    requires
        base64(encode_utf8(first)) == base64(encode_utf8(second)),
    ensures
        first == second,
{
    law_base64_reads_back(encode_utf8(first));
    law_base64_reads_back(encode_utf8(second));
    vstd::utf8::encode_utf8_decode_utf8(first);
    vstd::utf8::encode_utf8_decode_utf8(second);
}

/// The digits of base 64 are the capitals, the small letters, the figures, plus
/// and slash, in this order.
pub proof fn law_base64_digits_come_in_order(value: int)
    requires
        0 <= value < 64,
    ensures
        base64_digit(value) as u32 == (if value < 26 {
            'A' as u32 + value
        } else if value < 52 {
            'a' as u32 + (value - 26)
        } else if value < 62 {
            '0' as u32 + (value - 52)
        } else if value == 62 {
            '+' as u32 as int
        } else {
            '/' as u32 as int
        }),
{
}

/// The parts of three bytes read as one number, six bits at a time.
proof fn lemma_six_bits(first: int, second: int, third: int)
    requires
        0 <= first < 256,
        0 <= second < 256,
        0 <= third < 256,
    ensures
        ({
            let value = first * 65536 + second * 256 + third;
            &&& value / 262144 == first / 4
            &&& value / 4096 % 64 == first % 4 * 16 + second / 16
            &&& value / 64 % 64 == second % 16 * 4 + third / 64
            &&& value % 64 == third % 64
        }),
{
    let value = first * 65536 + second * 256 + third;
    let a = first / 4;
    let b = first % 4;
    let c = second / 16;
    let d = second % 16;
    let e = third / 64;
    let f = third % 64;
    assert(value == a * 262144 + b * 65536 + c * 4096 + d * 256 + e * 64 + f);
    lemma_fundamental_div_mod_converse(
        value,
        262144,
        a,
        b * 65536 + c * 4096 + d * 256 + e * 64 + f,
    );
    lemma_fundamental_div_mod_converse(value, 4096, a * 64 + b * 16 + c, d * 256 + e * 64 + f);
    lemma_fundamental_div_mod_converse(a * 64 + b * 16 + c, 64, a, b * 16 + c);
    lemma_fundamental_div_mod_converse(value, 64, a * 4096 + b * 1024 + c * 64 + d * 4 + e, f);
    lemma_fundamental_div_mod_converse(
        a * 4096 + b * 1024 + c * 64 + d * 4 + e,
        64,
        a * 64 + b * 16 + c,
        d * 4 + e,
    );
}

/// Three bytes are four digits of six bits each, the first bits first; where
/// bytes are missing, so are digits, and a sign stands in for each.
pub proof fn law_three_bytes_are_four_digits(first: u8, second: u8, third: u8, rest: Seq<u8>)
    ensures
        base64(Seq::empty()) == Seq::<char>::empty(),
        base64(seq![first, second, third] + rest) == seq![
            base64_digit(first as int / 4),
            base64_digit(first as int % 4 * 16 + second as int / 16),
            base64_digit(second as int % 16 * 4 + third as int / 64),
            base64_digit(third as int % 64),
        ] + base64(rest),
        base64(seq![first, second]) == seq![
            base64_digit(first as int / 4),
            base64_digit(first as int % 4 * 16 + second as int / 16),
            base64_digit(second as int % 16 * 4),
            '=',
        ],
        base64(seq![first]) == seq![
            base64_digit(first as int / 4),
            base64_digit(first as int % 4 * 16),
            '=',
            '=',
        ],
{
    reveal_with_fuel(base64, 2);
    let whole = seq![first, second, third] + rest;
    assert(whole.take(3) =~= seq![first, second, third]);
    assert(whole.skip(3) =~= rest);
    assert(seq![first, second].take(2) =~= seq![first, second]);
    assert(seq![first, second].skip(2) =~= Seq::<u8>::empty());
    assert(seq![first].take(1) =~= seq![first]);
    assert(seq![first].skip(1) =~= Seq::<u8>::empty());
    assert(base64(seq![first]) =~= base64_group(seq![first]));
    assert(base64(seq![first, second]) =~= base64_group(seq![first, second]));
    lemma_six_bits(first as int, second as int, third as int);
    lemma_six_bits(first as int, second as int, 0);
    lemma_six_bits(first as int, 0, 0);
}

/// The terminal is told to take a text by its clipboard sequence.
pub proof fn law_the_clipboard_is_told(text: Seq<char>)
    ensures
        osc52(text) == "\x1b]52;c;"@ + base64(encode_utf8(text)) + "\x07"@,
{
}

} // verus!
