//! The commands of a debugging session and how they are read from the words
//! of an input line.

use crate::dwarf_data::same_text;
use vstd::prelude::*;
use vstd::string::StrSliceExecFns;

verus! {

/// A command of the session.
#[derive(Debug)]
pub enum DebuggerCommand {
    Quit,
    Run(Vec<String>),
    Continue,
    Backtrace,
    Breakpoint(String),
    Next,
    Print(String),
}

/// A command with its texts as sequences of characters.
pub enum CommandView {
    Quit,
    Run(Seq<Seq<char>>),
    Continue,
    Backtrace,
    Breakpoint(Seq<char>),
    Next,
    Print(Seq<char>),
}

impl View for DebuggerCommand {
    type V = CommandView;

    open spec fn view(&self) -> CommandView {
        match *self {
            DebuggerCommand::Quit => CommandView::Quit,
            DebuggerCommand::Run(args) => CommandView::Run(args@.map_values(|arg: String| arg@)),
            DebuggerCommand::Continue => CommandView::Continue,
            DebuggerCommand::Backtrace => CommandView::Backtrace,
            DebuggerCommand::Breakpoint(place) => CommandView::Breakpoint(place@),
            DebuggerCommand::Next => CommandView::Next,
            DebuggerCommand::Print(name) => CommandView::Print(name@),
        }
    }
}

/// The value of `c` as a digit in base `radix`: `0` to `9`, then the letters
/// of either case from ten on. `None` if `c` is no digit of that base.
pub open spec fn digit_value(c: char, radix: int) -> Option<int> {
    let code = c as int;
    let value = if 48 <= code <= 57 {
        code - 48
    } else if 97 <= code <= 122 {
        code - 97 + 10
    } else if 65 <= code <= 90 {
        code - 65 + 10
    } else {
        radix
    };
    if value < radix {
        Some(value)
    } else {
        None
    }
}

/// Whether every character of `digits` is a digit in base `radix`.
pub open spec fn all_digits(digits: Seq<char>, radix: int) -> bool {
    forall|i: int| 0 <= i < digits.len() ==> digit_value(#[trigger] digits[i], radix) is Some
}

/// The number that `digits` write in base `radix`, most significant digit
/// first.
pub open spec fn digits_value(digits: Seq<char>, radix: int) -> int
    decreases digits.len(),
{
    if digits.len() == 0 {
        0
    } else {
        digits_value(digits.drop_last(), radix) * radix + match digit_value(digits.last(), radix) {
            Some(value) => value,
            None => 0,
        }
    }
}

/// The number that `text` writes in base `radix`: an optional `+` and then
/// at least one digit, nothing else, and a value that a `usize` can hold.
pub open spec fn number_of(text: Seq<char>, radix: int) -> Option<usize> {
    let digits = if text.len() > 0 && text[0] == '+' {
        text.skip(1)
    } else {
        text
    };
    if digits.len() > 0 && all_digits(digits, radix) && digits_value(digits, radix) <= usize::MAX {
        Some(digits_value(digits, radix) as usize)
    } else {
        None
    }
}

/// Whether `text` begins with `0x` or `0X`.
pub open spec fn has_hex_prefix(text: Seq<char>) -> bool {
    text.len() >= 2 && text[0] == '0' && (text[1] == 'x' || text[1] == 'X')
}

/// The address that `text` writes in hexadecimal, with or without a leading
/// `0x`.
pub open spec fn address_of_text(text: Seq<char>) -> Option<usize> {
    if has_hex_prefix(text) {
        number_of(text.skip(2), 16)
    } else {
        number_of(text, 16)
    }
}

/// Whether `word` names a command that takes the word after it: `break` or
/// `print`, by the full name or the short one.
pub open spec fn takes_a_word(word: Seq<char>) -> bool {
    word == "b"@ || word == "break"@ || word == "p"@ || word == "print"@
}

/// Whether `tokens` hold the words that reading a command looks at: a first
/// word, and a second one where the first names a command that takes a
/// word.
pub open spec fn has_needed_words(tokens: Seq<Seq<char>>) -> bool {
    tokens.len() >= 1 && (takes_a_word(tokens[0]) ==> tokens.len() >= 2)
}

/// What the words of an input line mean, given that the line has the words
/// that are needed. The first word names the command, by its full name or a
/// short one. `run` takes the rest of the words as the program's arguments;
/// `break` and `print` take the next word. An unknown first word gives no
/// command.
pub open spec fn command_of(tokens: Seq<Seq<char>>) -> Option<CommandView>
    recommends
        has_needed_words(tokens),
{
    let word = tokens[0];
    if word == "q"@ || word == "quit"@ {
        Some(CommandView::Quit)
    } else if word == "r"@ || word == "run"@ {
        Some(CommandView::Run(tokens.skip(1)))
    } else if word == "c"@ || word == "cont"@ || word == "continue"@ {
        Some(CommandView::Continue)
    } else if word == "bt"@ || word == "back"@ || word == "backtrace"@ {
        Some(CommandView::Backtrace)
    } else if word == "b"@ || word == "break"@ {
        Some(CommandView::Breakpoint(tokens[1]))
    } else if word == "n"@ || word == "next"@ {
        Some(CommandView::Next)
    } else if word == "p"@ || word == "print"@ {
        Some(CommandView::Print(tokens[1]))
    } else {
        None
    }
}

proof fn lemma_digits_value_grows(digits: Seq<char>, radix: int, shorter: int)
    requires
        radix >= 1,
        0 <= shorter <= digits.len(),
    ensures
        0 <= digits_value(digits.take(shorter), radix) <= digits_value(digits, radix),
    decreases digits.len(),
{
    if shorter == digits.len() {
        assert(digits.take(shorter) =~= digits);
        if digits.len() > 0 {
            lemma_digits_value_grows(digits.drop_last(), radix, 0);
            assert(digits.drop_last().take(0) =~= Seq::<char>::empty());
            assert(digits_value(digits.drop_last(), radix) * radix >= 0) by (nonlinear_arith)
                requires
                    digits_value(digits.drop_last(), radix) >= 0,
                    radix >= 1,
            ;
        }
    } else {
        lemma_digits_value_grows(digits.drop_last(), radix, shorter);
        assert(digits.drop_last().take(shorter) =~= digits.take(shorter));
        assert(digits_value(digits.drop_last(), radix) * radix >= digits_value(
            digits.drop_last(),
            radix,
        )) by (nonlinear_arith)
            requires
                digits_value(digits.drop_last(), radix) >= 0,
                radix >= 1,
        ;
    }
}

/// The value of `c` as a digit in base `radix`.
fn digit_of(c: char, radix: usize) -> (digit: Option<usize>)
    requires
        2 <= radix <= 36,
    ensures
        match digit_value(c, radix as int) {
            Some(value) => digit == Some(value as usize),
            None => digit is None,
        },
{
    let code: u32 = c as u32;
    let value: u32 = if 48 <= code && code <= 57 {
        code - 48
    } else if 97 <= code && code <= 122 {
        code - 97 + 10
    } else if 65 <= code && code <= 90 {
        code - 65 + 10
    } else {
        return None;
    };
    if (value as usize) < radix {
        Some(value as usize)
    } else {
        None
    }
}

/// Reads the number that the characters of `text` from position `start` on
/// write in base `radix`.
fn parse_number(text: &str, start: usize, radix: usize) -> (number: Option<usize>)
    requires
        start <= text@.len(),
        2 <= radix <= 36,
    ensures
        number == number_of(text@.skip(start as int), radix as int),
{
    let len = text.unicode_len();
    let ghost whole = text@.skip(start as int);
    let mut first: usize = start;
    if first < len && text.get_char(first) == '+' {
        first += 1;
    }
    let ghost digits = text@.skip(first as int);
    assert(digits =~= if whole.len() > 0 && whole[0] == '+' {
        whole.skip(1)
    } else {
        whole
    });
    if first == len {
        return None;
    }
    let mut value: usize = 0;
    let mut i: usize = first;
    assert(digits.take(0) =~= Seq::<char>::empty());
    while i < len
        invariant
            first <= i <= len,
            len == text@.len(),
            2 <= radix <= 36,
            digits == text@.skip(first as int),
            whole == text@.skip(start as int),
            digits == if whole.len() > 0 && whole[0] == '+' {
                whole.skip(1)
            } else {
                whole
            },
            all_digits(digits.take(i - first), radix as int),
            value == digits_value(digits.take(i - first), radix as int),
        decreases len - i,
    {
        let c = text.get_char(i);
        assert(digits[i - first] == c);
        let ghost longer = digits.take(i - first + 1);
        assert(longer.drop_last() =~= digits.take(i - first));
        assert(longer.last() == c);
        let digit = match digit_of(c, radix) {
            Some(digit) => digit,
            None => {
                assert(digit_value(digits[i - first], radix as int) is None);
                return None;
            },
        };
        proof {
            lemma_digits_value_grows(digits, radix as int, i - first + 1);
            assert(digits_value(longer, radix as int) == value * radix + digit);
        }
        let scaled = match value.checked_mul(radix) {
            Some(scaled) => scaled,
            None => {
                return None;
            },
        };
        value = match scaled.checked_add(digit) {
            Some(sum) => sum,
            None => {
                return None;
            },
        };
        assert forall|k: int| 0 <= k < longer.len() implies digit_value(
            #[trigger] longer[k],
            radix as int,
        ) is Some by {
            if k < i - first {
                assert(longer[k] == digits.take(i - first)[k]);
            }
        }
        i += 1;
    }
    assert(digits.take(len - first) =~= digits);
    Some(value)
}

/// Reads an address written in hexadecimal, with or without a leading `0x`.
pub fn parse_address(addr: &str) -> (address: Option<usize>)
    ensures
        address == address_of_text(addr@),
{
    let len = addr.unicode_len();
    if len >= 2 && addr.get_char(0) == '0' && (addr.get_char(1) == 'x' || addr.get_char(1)
        == 'X') {
        parse_number(addr, 2, 16)
    } else {
        assert(addr@.skip(0) =~= addr@);
        parse_number(addr, 0, 16)
    }
}

/// Reads a number written in decimal.
pub fn parse_decimal(text: &str) -> (number: Option<usize>)
    ensures
        number == number_of(text@, 10),
{
    assert(text@.skip(0) =~= text@);
    parse_number(text, 0, 10)
}

impl DebuggerCommand {
    /// Whether `tokens` hold the words that [`DebuggerCommand::from_tokens`]
    /// looks at; see [`has_needed_words`].
    pub fn readable(tokens: &Vec<&str>) -> (enough: bool)
        ensures
            enough == has_needed_words(tokens@.map_values(|token: &str| token@)),
    {
        let ghost words = tokens@.map_values(|token: &str| token@);
        if tokens.len() == 0 {
            return false;
        }
        let word = tokens[0];
        assert(words[0] == word@);
        let takes = same_text(word, "b") || same_text(word, "break") || same_text(word, "p")
            || same_text(word, "print");
        !takes || tokens.len() >= 2
    }

    /// Reads a command from the words of an input line; see [`command_of`].
    /// The line must have a first word, and a second one after `break` and
    /// `print`.
    pub fn from_tokens(tokens: &Vec<&str>) -> (command: Option<DebuggerCommand>)
        requires
            has_needed_words(tokens@.map_values(|token: &str| token@)),
        ensures
            match command_of(tokens@.map_values(|token: &str| token@)) {
                Some(view) => command matches Some(read) && read@ == view,
                None => command is None,
            },
    {
        let ghost words = tokens@.map_values(|token: &str| token@);
        let word = tokens[0];
        assert(words[0] == word@);
        if same_text(word, "q") || same_text(word, "quit") {
            Some(DebuggerCommand::Quit)
        } else if same_text(word, "r") || same_text(word, "run") {
            let mut args: Vec<String> = Vec::new();
            let mut i: usize = 1;
            while i < tokens.len()
                invariant
                    1 <= i <= tokens.len(),
                    words == tokens@.map_values(|token: &str| token@),
                    args@.map_values(|arg: String| arg@) == words.subrange(1, i as int),
                decreases tokens.len() - i,
            {
                let ghost before = args@;
                let arg = tokens[i].to_owned();
                assert(words[i as int] == arg@);
                args.push(arg);
                assert(args@.map_values(|arg: String| arg@) =~= before.map_values(
                    |arg: String| arg@,
                ).push(arg@));
                assert(words.subrange(1, i + 1) =~= words.subrange(1, i as int).push(
                    words[i as int],
                ));
                i += 1;
            }
            assert(words.subrange(1, i as int) =~= words.skip(1));
            Some(DebuggerCommand::Run(args))
        } else if same_text(word, "c") || same_text(word, "cont") || same_text(word, "continue") {
            Some(DebuggerCommand::Continue)
        } else if same_text(word, "bt") || same_text(word, "back") || same_text(
            word,
            "backtrace",
        ) {
            Some(DebuggerCommand::Backtrace)
        } else if same_text(word, "b") || same_text(word, "break") {
            assert(words[1] == tokens[1]@);
            Some(DebuggerCommand::Breakpoint(tokens[1].to_owned()))
        } else if same_text(word, "n") || same_text(word, "next") {
            Some(DebuggerCommand::Next)
        } else if same_text(word, "p") || same_text(word, "print") {
            assert(words[1] == tokens[1]@);
            Some(DebuggerCommand::Print(tokens[1].to_owned()))
        } else {
            None
        }
    }
}

} // verus!
