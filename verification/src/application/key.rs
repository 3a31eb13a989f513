//! Key combinations, their spellings, and how the two relate.

use vstd::prelude::*;
use vstd::string::*;

use crate::text::{characters, decimal, digit, push_character, push_decimal, same_text};

verus! {

/// One key combination, in the registry's own vocabulary.
///
/// Raw terminal input is normalized into this type at the runtime adapter, so
/// Command routing never sees a terminal event and configuration never has to
/// describe one.
#[derive(Clone, Copy, Debug, PartialEq, Eq, Hash, Structural)]
pub struct Key {
    pub code: KeyCode,
    pub ctrl: bool,
    pub alt: bool,
}

#[derive(Clone, Copy, Debug, PartialEq, Eq, Hash, Structural)]
pub enum KeyCode {
    /// Any single printable Unicode character, case-sensitively.
    Character(char),
    Named(Named),
}

/// A key with no printable character, written by a familiar name rather than
/// in Vim notation.
///
/// The spacebar is deliberately absent: it produces a character, so it is a
/// [`KeyCode::Character`] like any other and `space` is only a spelling for it.
#[derive(Clone, Copy, Debug, PartialEq, Eq, Hash, Structural)]
pub enum Named {
    Backspace,
    Enter,
    Esc,
    Tab,
    Left,
    Right,
    Up,
    Down,
    Home,
    End,
    PageUp,
    PageDown,
    Insert,
    Delete,
    /// What a terminal reports for `shift+tab`; it has no name of its own.
    BackTab,
    /// `f1` through `f12`.
    Function(u8),
}

/// A configured key string Tuivir cannot represent.
#[derive(Debug, PartialEq, Eq)]
pub struct InvalidKey {
    pub input: String,
}

impl InvalidKey {
    pub fn new(input: &str) -> (invalid: Self)
        ensures
            invalid.input@ == input@,
    {
        InvalidKey { input: input.to_owned() }
    }
}

/// Whether a character is a decimal digit.
pub open spec fn is_digit(c: char) -> bool {
    '0' <= c && c <= '9'
}

/// The number that a run of decimal digits spells.
pub open spec fn digits_value(digits: Seq<char>) -> nat
    decreases digits.len(),
{
    if digits.len() == 0 {
        0
    } else {
        digits_value(digits.drop_last()) * 10 + (digits.last() as u32 - 48) as nat
    }
}

/// A text without the plus sign that may stand in front of a number.
pub open spec fn without_plus(text: Seq<char>) -> Seq<char> {
    if text.len() > 0 && text[0] == '+' {
        text.skip(1)
    } else {
        text
    }
}

/// Whether every character is a decimal digit.
pub open spec fn all_digits(text: Seq<char>) -> bool {
    forall|i: int| 0 <= i < text.len() ==> is_digit(#[trigger] text[i])
}

/// The number below 256 that a text spells: decimal digits, any number of
/// leading zeros among them, with at most one plus sign in front.
pub open spec fn small_number(text: Seq<char>) -> Option<nat> {
    let digits = without_plus(text);
    if digits.len() > 0 && all_digits(digits) && digits_value(digits) <= 255 {
        Some(digits_value(digits))
    } else {
        None
    }
}

/// The named key that a lowercase name spells.
pub open spec fn named_of(text: Seq<char>) -> Option<Named> {
    if text == "backspace"@ {
        Some(Named::Backspace)
    } else if text == "enter"@ {
        Some(Named::Enter)
    } else if text == "esc"@ {
        Some(Named::Esc)
    } else if text == "tab"@ {
        Some(Named::Tab)
    } else if text == "left"@ {
        Some(Named::Left)
    } else if text == "right"@ {
        Some(Named::Right)
    } else if text == "up"@ {
        Some(Named::Up)
    } else if text == "down"@ {
        Some(Named::Down)
    } else if text == "home"@ {
        Some(Named::Home)
    } else if text == "end"@ {
        Some(Named::End)
    } else if text == "pageup"@ {
        Some(Named::PageUp)
    } else if text == "pagedown"@ {
        Some(Named::PageDown)
    } else if text == "insert"@ {
        Some(Named::Insert)
    } else if text == "delete"@ {
        Some(Named::Delete)
    } else if text.len() > 0 && text[0] == 'f' {
        match small_number(text.skip(1)) {
            Some(number) => if 1 <= number <= 12 {
                Some(Named::Function(number as u8))
            } else {
                None
            },
            None => None,
        }
    } else {
        None
    }
}

/// The key that a text without modifiers spells: a single character is always
/// itself, and a longer text is a name.
pub open spec fn code_of(text: Seq<char>) -> Option<KeyCode> {
    if text.len() == 1 {
        Some(KeyCode::Character(text[0]))
    } else if text == "space"@ {
        Some(KeyCode::Character(' '))
    } else {
        match named_of(text) {
            Some(named) => Some(KeyCode::Named(named)),
            None => None,
        }
    }
}

/// The combination of a key with the modifiers written in front of it.
///
/// `shift` only distinguishes keys that have no printable character of their
/// own; a shifted character is written as the character itself.
pub open spec fn modified(code: KeyCode, ctrl: bool, alt: bool, shift: bool) -> Option<Key> {
    if !shift {
        Some(Key { code, ctrl, alt })
    } else if code == KeyCode::Named(Named::Tab) {
        Some(Key { code: KeyCode::Named(Named::BackTab), ctrl, alt })
    } else {
        None
    }
}

/// The key that a text spells behind the modifiers already read.
///
/// Each modifier may be written once, in any order.
pub open spec fn key_of(text: Seq<char>, ctrl: bool, alt: bool, shift: bool) -> Option<Key>
    decreases text.len(),
{
    if text.len() >= 5 && text.take(5) == "ctrl+"@ {
        if ctrl {
            None
        } else {
            key_of(text.skip(5), true, alt, shift)
        }
    } else if text.len() >= 4 && text.take(4) == "alt+"@ {
        if alt {
            None
        } else {
            key_of(text.skip(4), ctrl, true, shift)
        }
    } else if text.len() >= 6 && text.take(6) == "shift+"@ {
        if shift {
            None
        } else {
            key_of(text.skip(6), ctrl, alt, true)
        }
    } else {
        match code_of(text) {
            Some(code) => modified(code, ctrl, alt, shift),
            None => None,
        }
    }
}

/// The key that a configured text spells, if any.
pub open spec fn parsed(text: Seq<char>) -> Option<Key> {
    key_of(text, false, false, false)
}

/// How a named key is spelled.
pub open spec fn named_text(named: Named) -> Seq<char> {
    match named {
        Named::Backspace => "backspace"@,
        Named::Enter => "enter"@,
        Named::Esc => "esc"@,
        Named::Tab => "tab"@,
        Named::Left => "left"@,
        Named::Right => "right"@,
        Named::Up => "up"@,
        Named::Down => "down"@,
        Named::Home => "home"@,
        Named::End => "end"@,
        Named::PageUp => "pageup"@,
        Named::PageDown => "pagedown"@,
        Named::Insert => "insert"@,
        Named::Delete => "delete"@,
        Named::BackTab => "shift+tab"@,
        Named::Function(number) => "f"@ + decimal(number as nat),
    }
}

/// How a key without modifiers is spelled.
pub open spec fn code_text(code: KeyCode) -> Seq<char> {
    match code {
        // An inline hint showing a literal blank would be invisible, so the
        // spacebar is spelled with the same name that configures it.
        KeyCode::Character(c) => if c == ' ' {
            "space"@
        } else {
            seq![c]
        },
        KeyCode::Named(named) => named_text(named),
    }
}

/// How a key is shown to the user.
pub open spec fn shown(key: Key) -> Seq<char> {
    (if key.ctrl {
        "ctrl+"@
    } else {
        Seq::empty()
    }) + (if key.alt {
        "alt+"@
    } else {
        Seq::empty()
    }) + code_text(key.code)
}

/// Whether a key is one that a configured text can spell: a function key is
/// one of the twelve.
pub open spec fn representable(key: Key) -> bool {
    key.code matches KeyCode::Named(Named::Function(number)) ==> 1 <= number <= 12
}

proof fn lemma_digits_grow(digits: Seq<char>, more: Seq<char>)
    requires
        digits.is_prefix_of(more),
        all_digits(more),
    ensures
        digits_value(digits) <= digits_value(more),
    decreases more.len(),
{
    if digits.len() == more.len() {
        assert(digits =~= more);
    } else {
        let shorter = more.drop_last();
        assert forall|i: int| 0 <= i < shorter.len() implies is_digit(#[trigger] shorter[i]) by {
            assert(shorter[i] == more[i]);
        }
        assert(digits.is_prefix_of(shorter)) by {
            assert(digits =~= shorter.take(digits.len() as int));
        }
        lemma_digits_grow(digits, shorter);
        assert(is_digit(more[more.len() - 1]));
    }
}

/// Reads a number below 256, as [`small_number`] describes it.
fn parse_small_number(chars: &Vec<char>, from: usize) -> (number: Option<u8>)
    requires
        from <= chars.len(),
    ensures
        number matches Some(n) ==> small_number(chars@.skip(from as int)) == Some(n as nat),
        number is None ==> small_number(chars@.skip(from as int)) is None,
{
    let ghost text = chars@.skip(from as int);
    let start: usize = if from < chars.len() && chars[from] == '+' {
        from + 1
    } else {
        from
    };
    let ghost digits = chars@.skip(start as int);
    proof {
        assert(digits =~= without_plus(text));
    }
    if start == chars.len() {
        return None;
    }
    let mut value: u32 = 0;
    let mut i: usize = start;
    while i < chars.len()
        invariant
            start <= i <= chars.len(),
            start < chars.len(),
            digits == chars@.skip(start as int),
            value <= 255,
            value as nat == digits_value(digits.take(i - start)),
            forall|j: int| 0 <= j < i - start ==> is_digit(#[trigger] digits[j]),
            digits == without_plus(text),
            text == chars@.skip(from as int),
        decreases chars.len() - i,
    {
        let c = chars[i];
        assert(digits[i - start] == c);
        if !('0' <= c && c <= '9') {
            assert(!is_digit(digits[i - start]));
            return None;
        }
        let next: u32 = value * 10 + (c as u32 - 48);
        proof {
            assert(digits.take(i - start + 1).drop_last() =~= digits.take(i - start));
        }
        if next > 255 {
            proof {
                if all_digits(digits) {
                    assert(digits.take(i - start + 1).is_prefix_of(digits));
                    lemma_digits_grow(digits.take(i - start + 1), digits);
                }
            }
            return None;
        }
        value = next;
        i = i + 1;
    }
    assert(digits.take(i - start) =~= digits);
    Some(value as u8)
}

impl Named {
    /// Parses an already-lowercased key name.
    pub fn parse(text: &str) -> (named: Option<Self>)
        ensures
            named == named_of(text@),
    {
        if same_text(text, "backspace") {
            Some(Named::Backspace)
        } else if same_text(text, "enter") {
            Some(Named::Enter)
        } else if same_text(text, "esc") {
            Some(Named::Esc)
        } else if same_text(text, "tab") {
            Some(Named::Tab)
        } else if same_text(text, "left") {
            Some(Named::Left)
        } else if same_text(text, "right") {
            Some(Named::Right)
        } else if same_text(text, "up") {
            Some(Named::Up)
        } else if same_text(text, "down") {
            Some(Named::Down)
        } else if same_text(text, "home") {
            Some(Named::Home)
        } else if same_text(text, "end") {
            Some(Named::End)
        } else if same_text(text, "pageup") {
            Some(Named::PageUp)
        } else if same_text(text, "pagedown") {
            Some(Named::PageDown)
        } else if same_text(text, "insert") {
            Some(Named::Insert)
        } else if same_text(text, "delete") {
            Some(Named::Delete)
        } else {
            let chars = characters(text);
            if chars.len() == 0 || chars[0] != 'f' {
                return None;
            }
            match parse_small_number(&chars, 1) {
                Some(number) => if 1 <= number && number <= 12 {
                    Some(Named::Function(number))
                } else {
                    None
                },
                None => None,
            }
        }
    }

    /// The spelling of a named key.
    pub fn to_string(&self) -> (text: String)
        ensures
            text@ == named_text(*self),
    {
        match *self {
            Named::Backspace => "backspace".to_owned(),
            Named::Enter => "enter".to_owned(),
            Named::Esc => "esc".to_owned(),
            Named::Tab => "tab".to_owned(),
            Named::Left => "left".to_owned(),
            Named::Right => "right".to_owned(),
            Named::Up => "up".to_owned(),
            Named::Down => "down".to_owned(),
            Named::Home => "home".to_owned(),
            Named::End => "end".to_owned(),
            Named::PageUp => "pageup".to_owned(),
            Named::PageDown => "pagedown".to_owned(),
            Named::Insert => "insert".to_owned(),
            Named::Delete => "delete".to_owned(),
            Named::BackTab => "shift+tab".to_owned(),
            Named::Function(number) => {
                let mut text = "f".to_owned();
                push_decimal(&mut text, number as u64);
                text
            },
        }
    }
}

/// Whether the characters from `at` on begin with a prefix.
fn begins_at(chars: &Vec<char>, at: usize, prefix: &str) -> (begins: bool)
    requires
        at <= chars.len(),
    ensures
        begins == (chars@.skip(at as int).len() >= prefix@.len() && chars@.skip(at as int).take(
            prefix@.len() as int,
        ) == prefix@),
{
    let wanted = characters(prefix);
    let ghost rest = chars@.skip(at as int);
    if chars.len() - at < wanted.len() {
        return false;
    }
    let mut i: usize = 0;
    while i < wanted.len()
        invariant
            i <= wanted.len(),
            at + wanted.len() <= chars.len(),
            wanted@ == prefix@,
            rest == chars@.skip(at as int),
            forall|j: int| 0 <= j < i ==> rest[j] == prefix@[j],
        decreases wanted.len() - i,
    {
        if chars[at + i] != wanted[i] {
            assert(rest.take(prefix@.len() as int)[i as int] != prefix@[i as int]);
            return false;
        }
        i = i + 1;
    }
    assert(rest.take(prefix@.len() as int) =~= prefix@);
    true
}

impl Key {
    pub fn character(character: char) -> (key: Self)
        ensures
            key == (Key { code: KeyCode::Character(character), ctrl: false, alt: false }),
    {
        Key::new(KeyCode::Character(character))
    }

    pub fn named(named: Named) -> (key: Self)
        ensures
            key == (Key { code: KeyCode::Named(named), ctrl: false, alt: false }),
    {
        Key::new(KeyCode::Named(named))
    }

    pub fn new(code: KeyCode) -> (key: Self)
        ensures
            key == (Key { code, ctrl: false, alt: false }),
    {
        Key { code, ctrl: false, alt: false }
    }

    pub fn with_ctrl(self) -> (key: Self)
        ensures
            key == (Key { ctrl: true, ..self }),
    {
        Key { ctrl: true, ..self }
    }

    pub fn with_alt(self) -> (key: Self)
        ensures
            key == (Key { alt: true, ..self }),
    {
        Key { alt: true, ..self }
    }

    /// Reads a configured key.
    ///
    /// Modifiers are stripped one prefix at a time rather than by splitting on
    /// `+`, so `+` and `ctrl++` still name the plus character.
    pub fn parse(text: &str) -> (key: Result<Self, InvalidKey>)
        ensures
            key matches Ok(found) ==> parsed(text@) == Some(found),
            key matches Err(invalid) ==> parsed(text@) is None && invalid.input@ == text@,
    {
        let chars = characters(text);
        let mut at: usize = 0;
        let mut ctrl = false;
        let mut alt = false;
        let mut shift = false;
        proof {
            assert(text@.skip(0) =~= text@);
            reveal_strlit("ctrl+");
            reveal_strlit("alt+");
            reveal_strlit("shift+");
        }
        loop
            invariant_except_break
                at <= chars.len(),
                chars@ == text@,
                parsed(text@) == key_of(text@.skip(at as int), ctrl, alt, shift),
                "ctrl+"@.len() == 5,
                "alt+"@.len() == 4,
                "shift+"@.len() == 6,
            ensures
                at <= chars.len(),
                chars@ == text@,
                parsed(text@) == (match code_of(text@.skip(at as int)) {
                    Some(code) => modified(code, ctrl, alt, shift),
                    None => None,
                }),
            decreases chars.len() - at,
        {
            let ghost rest = text@.skip(at as int);
            if begins_at(&chars, at, "ctrl+") {
                if ctrl {
                    return Err(InvalidKey::new(text));
                }
                ctrl = true;
                at = at + 5;
                assert(rest.skip(5) =~= text@.skip(at as int));
            } else if begins_at(&chars, at, "alt+") {
                if alt {
                    return Err(InvalidKey::new(text));
                }
                alt = true;
                at = at + 4;
                assert(rest.skip(4) =~= text@.skip(at as int));
            } else if begins_at(&chars, at, "shift+") {
                if shift {
                    return Err(InvalidKey::new(text));
                }
                shift = true;
                at = at + 6;
                assert(rest.skip(6) =~= text@.skip(at as int));
            } else {
                break;
            }
        }
        assert(text@.subrange(at as int, text@.len() as int) =~= text@.skip(at as int));
        let code = match Key::parse_code(text.substring_char(at, chars.len())) {
            Some(code) => code,
            None => return Err(InvalidKey::new(text)),
        };
        if !shift {
            return Ok(Key { code, ctrl, alt });
        }
        match code {
            KeyCode::Named(Named::Tab) => Ok(
                Key { code: KeyCode::Named(Named::BackTab), ctrl, alt },
            ),
            _ => Err(InvalidKey::new(text)),
        }
    }

    /// Reads a key without modifiers.
    ///
    /// A single character is always itself, so a one-character name can never
    /// shadow a printable key, and `S` stays distinct from `s`. Key names are
    /// lowercase literals, so `Esc` is a typo rather than a second spelling: a
    /// mistyped binding is reported, never silently reinterpreted.
    pub fn parse_code(text: &str) -> (code: Option<KeyCode>)
        ensures
            code == code_of(text@),
    {
        let chars = characters(text);
        if chars.len() == 1 {
            return Some(KeyCode::Character(chars[0]));
        }
        if same_text(text, "space") {
            return Some(KeyCode::Character(' '));
        }
        match Named::parse(text) {
            Some(named) => Some(KeyCode::Named(named)),
            None => None,
        }
    }

    /// How the key is shown to the user.
    pub fn to_string(&self) -> (text: String)
        ensures
            text@ == shown(*self),
    {
        let mut text = String::new();
        if self.ctrl {
            text.append("ctrl+");
        }
        if self.alt {
            text.append("alt+");
        }
        match self.code {
            KeyCode::Character(c) => {
                if c == ' ' {
                    text.append("space");
                } else {
                    let ghost before = text@;
                    push_character(&mut text, c);
                    assert(text@ =~= before + seq![c]);
                }
            },
            KeyCode::Named(named) => {
                let name = named.to_string();
                text.append(name.as_str());
            },
        }
        assert(text@ =~= shown(*self));
        text
    }
}

proof fn lemma_digits_of_decimal(n: nat)
    ensures
        decimal(n).len() > 0,
        forall|i: int| 0 <= i < decimal(n).len() ==> is_digit(#[trigger] decimal(n)[i]),
        digits_value(decimal(n)) == n,
    decreases n,
{
    if n < 10 {
        assert(decimal(n).drop_last() =~= Seq::<char>::empty());
        assert(digits_value(Seq::<char>::empty()) == 0);
        assert(decimal(n).last() == digit(n));
        assert(digits_value(decimal(n)) == digits_value(decimal(n).drop_last()) * 10 + (digit(
            n,
        ) as u32 - 48) as nat);
    } else {
        lemma_digits_of_decimal(n / 10);
        let shorter = decimal(n / 10);
        let last = digit(n % 10);
        assert(decimal(n) == shorter.push(last));
        assert(decimal(n).drop_last() =~= shorter);
        assert(decimal(n).last() == last);
        assert(is_digit(last));
        assert forall|i: int| 0 <= i < decimal(n).len() implies is_digit(#[trigger] decimal(n)[i]) by {
            if i < shorter.len() {
                assert(decimal(n)[i] == shorter[i]);
            }
        }
    }
}

/// No compiled name begins with the letter `f`.
proof fn lemma_no_name_begins_with_f(text: Seq<char>)
    requires
        text.len() > 1,
        text[0] == 'f',
    ensures
        text != "backspace"@,
        text != "enter"@,
        text != "esc"@,
        text != "tab"@,
        text != "left"@,
        text != "right"@,
        text != "up"@,
        text != "down"@,
        text != "home"@,
        text != "end"@,
        text != "pageup"@,
        text != "pagedown"@,
        text != "insert"@,
        text != "delete"@,
{
    reveal_strlit("backspace");
    reveal_strlit("enter");
    reveal_strlit("esc");
    reveal_strlit("tab");
    reveal_strlit("left");
    reveal_strlit("right");
    reveal_strlit("up");
    reveal_strlit("down");
    reveal_strlit("home");
    reveal_strlit("end");
    reveal_strlit("pageup");
    reveal_strlit("pagedown");
    reveal_strlit("insert");
    reveal_strlit("delete");
}

/// The compiled names are spelled differently from one another.
proof fn lemma_names_differ()
    ensures
        named_of("backspace"@) == Some(Named::Backspace),
        named_of("enter"@) == Some(Named::Enter),
        named_of("esc"@) == Some(Named::Esc),
        named_of("tab"@) == Some(Named::Tab),
        named_of("left"@) == Some(Named::Left),
        named_of("right"@) == Some(Named::Right),
        named_of("up"@) == Some(Named::Up),
        named_of("down"@) == Some(Named::Down),
        named_of("home"@) == Some(Named::Home),
        named_of("end"@) == Some(Named::End),
        named_of("pageup"@) == Some(Named::PageUp),
        named_of("pagedown"@) == Some(Named::PageDown),
        named_of("insert"@) == Some(Named::Insert),
        named_of("delete"@) == Some(Named::Delete),
{
    reveal_strlit("backspace");
    reveal_strlit("enter");
    reveal_strlit("esc");
    reveal_strlit("tab");
    reveal_strlit("left");
    reveal_strlit("right");
    reveal_strlit("up");
    reveal_strlit("down");
    reveal_strlit("home");
    reveal_strlit("end");
    reveal_strlit("pageup");
    reveal_strlit("pagedown");
    reveal_strlit("insert");
    reveal_strlit("delete");
    assert("enter"@.len() != "backspace"@.len());
    assert("esc"@.len() != "backspace"@.len());
    assert("esc"@.len() != "enter"@.len());
    assert("tab"@.len() != "backspace"@.len());
    assert("tab"@.len() != "enter"@.len());
    assert("tab"@[0] != "esc"@[0]);
    assert("left"@.len() != "backspace"@.len());
    assert("left"@.len() != "enter"@.len());
    assert("left"@.len() != "esc"@.len());
    assert("left"@.len() != "tab"@.len());
    assert("right"@.len() != "backspace"@.len());
    assert("right"@[0] != "enter"@[0]);
    assert("right"@.len() != "esc"@.len());
    assert("right"@.len() != "tab"@.len());
    assert("right"@.len() != "left"@.len());
    assert("up"@.len() != "backspace"@.len());
    assert("up"@.len() != "enter"@.len());
    assert("up"@.len() != "esc"@.len());
    assert("up"@.len() != "tab"@.len());
    assert("up"@.len() != "left"@.len());
    assert("up"@.len() != "right"@.len());
    assert("down"@.len() != "backspace"@.len());
    assert("down"@.len() != "enter"@.len());
    assert("down"@.len() != "esc"@.len());
    assert("down"@.len() != "tab"@.len());
    assert("down"@[0] != "left"@[0]);
    assert("down"@.len() != "right"@.len());
    assert("down"@.len() != "up"@.len());
    assert("home"@.len() != "backspace"@.len());
    assert("home"@.len() != "enter"@.len());
    assert("home"@.len() != "esc"@.len());
    assert("home"@.len() != "tab"@.len());
    assert("home"@[0] != "left"@[0]);
    assert("home"@.len() != "right"@.len());
    assert("home"@.len() != "up"@.len());
    assert("home"@[0] != "down"@[0]);
    assert("end"@.len() != "backspace"@.len());
    assert("end"@.len() != "enter"@.len());
    assert("end"@[1] != "esc"@[1]);
    assert("end"@[0] != "tab"@[0]);
    assert("end"@.len() != "left"@.len());
    assert("end"@.len() != "right"@.len());
    assert("end"@.len() != "up"@.len());
    assert("end"@.len() != "down"@.len());
    assert("end"@.len() != "home"@.len());
    assert("pageup"@.len() != "backspace"@.len());
    assert("pageup"@.len() != "enter"@.len());
    assert("pageup"@.len() != "esc"@.len());
    assert("pageup"@.len() != "tab"@.len());
    assert("pageup"@.len() != "left"@.len());
    assert("pageup"@.len() != "right"@.len());
    assert("pageup"@.len() != "up"@.len());
    assert("pageup"@.len() != "down"@.len());
    assert("pageup"@.len() != "home"@.len());
    assert("pageup"@.len() != "end"@.len());
    assert("pagedown"@.len() != "backspace"@.len());
    assert("pagedown"@.len() != "enter"@.len());
    assert("pagedown"@.len() != "esc"@.len());
    assert("pagedown"@.len() != "tab"@.len());
    assert("pagedown"@.len() != "left"@.len());
    assert("pagedown"@.len() != "right"@.len());
    assert("pagedown"@.len() != "up"@.len());
    assert("pagedown"@.len() != "down"@.len());
    assert("pagedown"@.len() != "home"@.len());
    assert("pagedown"@.len() != "end"@.len());
    assert("pagedown"@.len() != "pageup"@.len());
    assert("insert"@.len() != "backspace"@.len());
    assert("insert"@.len() != "enter"@.len());
    assert("insert"@.len() != "esc"@.len());
    assert("insert"@.len() != "tab"@.len());
    assert("insert"@.len() != "left"@.len());
    assert("insert"@.len() != "right"@.len());
    assert("insert"@.len() != "up"@.len());
    assert("insert"@.len() != "down"@.len());
    assert("insert"@.len() != "home"@.len());
    assert("insert"@.len() != "end"@.len());
    assert("insert"@[0] != "pageup"@[0]);
    assert("insert"@.len() != "pagedown"@.len());
    assert("delete"@.len() != "backspace"@.len());
    assert("delete"@.len() != "enter"@.len());
    assert("delete"@.len() != "esc"@.len());
    assert("delete"@.len() != "tab"@.len());
    assert("delete"@.len() != "left"@.len());
    assert("delete"@.len() != "right"@.len());
    assert("delete"@.len() != "up"@.len());
    assert("delete"@.len() != "down"@.len());
    assert("delete"@.len() != "home"@.len());
    assert("delete"@.len() != "end"@.len());
    assert("delete"@[0] != "pageup"@[0]);
    assert("delete"@.len() != "pagedown"@.len());
    assert("delete"@[0] != "insert"@[0]);
}

/// A named key's spelling is read back as that key.
proof fn lemma_name_read_back(named: Named)
    requires
        !(named is BackTab),
        named matches Named::Function(number) ==> 1 <= number <= 12,
    ensures
        named_text(named).len() > 1,
        named_of(named_text(named)) == Some(named),
        named_text(named)[0] != 'c',
        named_text(named)[0] != 'a',
        named_text(named)[0] != 's',
{
    reveal_strlit("backspace");
    reveal_strlit("enter");
    reveal_strlit("esc");
    reveal_strlit("tab");
    reveal_strlit("left");
    reveal_strlit("right");
    reveal_strlit("up");
    reveal_strlit("down");
    reveal_strlit("home");
    reveal_strlit("end");
    reveal_strlit("pageup");
    reveal_strlit("pagedown");
    reveal_strlit("insert");
    reveal_strlit("delete");
    reveal_strlit("f");
    match named {
        Named::Function(number) => {
            lemma_digits_of_decimal(number as nat);
            let text = named_text(named);
            assert(text.skip(1) =~= decimal(number as nat));
            assert(is_digit(decimal(number as nat)[0]));
            lemma_no_name_begins_with_f(text);
        },
        _ => {
            lemma_names_differ();
        },
    }
}

/// Behind what was already read, an unmodified spelling is read as its key.
proof fn lemma_code_read_back(code: KeyCode, ctrl: bool, alt: bool)
    requires
        representable(Key { code, ctrl, alt }),
    ensures
        key_of(code_text(code), ctrl, alt, false) == Some(Key { code, ctrl, alt }),
        code_text(code).len() > 0,
        !(code_text(code).len() >= 5 && code_text(code).take(5) == "ctrl+"@),
        !(code_text(code).len() >= 4 && code_text(code).take(4) == "alt+"@),
{
    reveal_strlit("ctrl+");
    reveal_strlit("alt+");
    reveal_strlit("shift+");
    reveal_strlit("space");
    let text = code_text(code);
    match code {
        KeyCode::Character(c) => {
            if c == ' ' {
                assert(text.take(5)[0] == 's');
                assert(text.take(4)[0] == 's');
            }
        },
        KeyCode::Named(Named::BackTab) => {
            reveal_strlit("shift+tab");
            reveal_strlit("tab");
            assert(text.take(5)[0] == 's');
            assert(text.take(4)[0] == 's');
            assert(text.take(6) =~= "shift+"@);
            let rest = text.skip(6);
            assert(rest =~= "tab"@);
            lemma_name_read_back(Named::Tab);
            assert(rest[0] != "space"@[0]);
            assert(code_of(rest) == Some(KeyCode::Named(Named::Tab)));
            assert(key_of(rest, ctrl, alt, true) == modified(
                KeyCode::Named(Named::Tab),
                ctrl,
                alt,
                true,
            ));
        },
        KeyCode::Named(named) => {
            lemma_name_read_back(named);
            assert(text[0] != "space"@[0]);
            if text.len() >= 5 {
                assert(text.take(5)[0] == text[0]);
            }
            if text.len() >= 4 {
                assert(text.take(4)[0] == text[0]);
            }
            if text.len() >= 6 {
                assert(text.take(6)[0] == text[0]);
            }
        },
    }
}

/// Writing a key and reading it back gives the key: what a hint shows is what
/// configures it.
pub proof fn law_shown_key_reads_back(key: Key)
    requires
        representable(key),
    ensures
        parsed(shown(key)) == Some(key),
{
    reveal_strlit("ctrl+");
    reveal_strlit("alt+");
    let code = key.code;
    lemma_code_read_back(code, key.ctrl, key.alt);
    let plain = code_text(code);
    let with_alt = "alt+"@ + plain;
    if key.alt {
        assert(with_alt.take(4) =~= "alt+"@);
        assert(with_alt.skip(4) =~= plain);
        if with_alt.len() >= 5 {
            assert(with_alt.take(5)[0] == 'a');
            assert("ctrl+"@[0] == 'c');
        }
        assert(key_of(with_alt, key.ctrl, false, false) == key_of(plain, key.ctrl, true, false));
    }
    let after_ctrl = if key.alt {
        with_alt
    } else {
        plain
    };
    let with_ctrl = "ctrl+"@ + after_ctrl;
    if key.ctrl {
        assert(with_ctrl.take(5) =~= "ctrl+"@);
        assert(with_ctrl.skip(5) =~= after_ctrl);
        assert(key_of(with_ctrl, false, false, false) == key_of(after_ctrl, true, false, false));
        assert(shown(key) =~= with_ctrl);
    } else {
        assert(shown(key) =~= after_ctrl);
    }
}

proof fn lemma_read_key_is_representable(text: Seq<char>, ctrl: bool, alt: bool, shift: bool)
    ensures
        key_of(text, ctrl, alt, shift) matches Some(key) ==> representable(key),
    decreases text.len(),
{
    if text.len() >= 5 && text.take(5) == "ctrl+"@ {
        lemma_read_key_is_representable(text.skip(5), true, alt, shift);
    } else if text.len() >= 4 && text.take(4) == "alt+"@ {
        lemma_read_key_is_representable(text.skip(4), ctrl, true, shift);
    } else if text.len() >= 6 && text.take(6) == "shift+"@ {
        lemma_read_key_is_representable(text.skip(6), ctrl, alt, true);
    }
}

/// Whatever a text spells can be shown, and the text shown spells it too.
pub proof fn law_parsed_key_is_shown_as_itself(text: Seq<char>)
    ensures
        parsed(text) matches Some(key) ==> representable(key) && parsed(shown(key)) == Some(key),
{
    lemma_read_key_is_representable(text, false, false, false);
    if let Some(key) = parsed(text) {
        law_shown_key_reads_back(key);
    }
}

/// Keys are case-sensitive: a single character spells itself and nothing else.
pub proof fn law_single_characters_spell_themselves(c: char)
    ensures
        parsed(seq![c]) == Some(
            Key { code: KeyCode::Character(c), ctrl: false, alt: false },
        ),
{
}

} // verus!
