//! The lines that the entry points write to the transaction log.

use vstd::prelude::*;
use vstd::string::StringExecFns;
use crate::pubkey::Pubkey;

verus! {

/// The character of a decimal digit.
pub open spec fn digit_char(digit: nat) -> char
    recommends
        digit < 10,
{
    if digit == 0 {
        '0'
    } else if digit == 1 {
        '1'
    } else if digit == 2 {
        '2'
    } else if digit == 3 {
        '3'
    } else if digit == 4 {
        '4'
    } else if digit == 5 {
        '5'
    } else if digit == 6 {
        '6'
    } else if digit == 7 {
        '7'
    } else if digit == 8 {
        '8'
    } else {
        '9'
    }
}

/// A number in decimal, without leading zeros.
pub open spec fn decimal(n: nat) -> Seq<char>
    decreases n,
{
    if n < 10 {
        seq![digit_char(n)]
    } else {
        decimal(n / 10).push(digit_char(n % 10))
    }
}

/// The first line of every greeting.
pub open spec fn hello_text() -> Seq<char> {
    "Hello, Sonic World!"@
}

/// The line that reports how often a user has been greeted.
pub open spec fn greeted_text(counter: nat) -> Seq<char> {
    "Greeted "@ + decimal(counter) + " time(s)!"@
}

/// The two lines of a greeting that brought the counter to `counter`.
pub open spec fn greeting_lines(counter: nat) -> Seq<Seq<char>> {
    seq![hello_text(), greeted_text(counter)]
}

/// The lines of a log, each by its characters.
pub open spec fn lines_view(lines: Vec<String>) -> Seq<Seq<char>> {
    Seq::new(lines@.len(), |i: int| lines@[i]@)
}

/// The text of one decimal digit.
fn digit_text(digit: u32) -> (text: &'static str)
    requires
        digit < 10,
    ensures
        text@ == seq![digit_char(digit as nat)],
{
    proof {
        reveal_strlit("0");
        reveal_strlit("1");
        reveal_strlit("2");
        reveal_strlit("3");
        reveal_strlit("4");
        reveal_strlit("5");
        reveal_strlit("6");
        reveal_strlit("7");
        reveal_strlit("8");
        reveal_strlit("9");
    }
    let text = if digit == 0 {
        "0"
    } else if digit == 1 {
        "1"
    } else if digit == 2 {
        "2"
    } else if digit == 3 {
        "3"
    } else if digit == 4 {
        "4"
    } else if digit == 5 {
        "5"
    } else if digit == 6 {
        "6"
    } else if digit == 7 {
        "7"
    } else if digit == 8 {
        "8"
    } else {
        "9"
    };
    assert(text@ =~= seq![digit_char(digit as nat)]);
    text
}

/// Writes a number in decimal.
pub fn decimal_string(n: u32) -> (text: String)
    ensures
        text@ == decimal(n as nat),
    decreases n,
{
    if n < 10 {
        String::from_str(digit_text(n))
    } else {
        let mut text = decimal_string(n / 10);
        text.append(digit_text(n % 10));
        assert(text@ =~= decimal(n as nat));
        text
    }
}

/// The line that reports how often a user has been greeted.
pub fn greeted_line(counter: u32) -> (line: String)
    ensures
        line@ == greeted_text(counter as nat),
{
    let mut line = String::from_str("Greeted ");
    let number = decimal_string(counter);
    line.append(number.as_str());
    line.append(" time(s)!");
    line
}

/// The two lines of a greeting that brought the counter to `counter`.
pub fn greeting_log(counter: u32) -> (lines: Vec<String>)
    ensures
        lines_view(lines) == greeting_lines(counter as nat),
{
    let mut lines: Vec<String> = Vec::new();
    lines.push(String::from_str("Hello, Sonic World!"));
    lines.push(greeted_line(counter));
    assert(lines_view(lines) =~= greeting_lines(counter as nat));
    lines
}

/// The text that the ledger writes for a key.
pub uninterp spec fn pubkey_text(key: Seq<u8>) -> Seq<char>;

/// Formats a key with the `Debug` impl of `anchor_lang::prelude::Pubkey`.
/// Trusted: that impl writes the base-58 encoding of the 32 bytes and reads
/// nothing else, so the text is the named `pubkey_text` of the bytes.
#[verifier::external_body]
fn debug_pubkey(key: &Pubkey) -> (text: String)
    ensures
        text@ == pubkey_text(key@),
{
    format!("{:?}", anchor_lang::prelude::Pubkey::new_from_array(key.bytes))
}

/// The line in which a program names itself, given the text of its key.
pub open spec fn greetings_from_text(id_text: Seq<char>) -> Seq<char> {
    "Greetings from: "@ + id_text
}

/// The line in which a program names itself, given the text of its key.
pub fn greetings_from_line(id_text: &str) -> (line: String)
    ensures
        line@ == greetings_from_text(id_text@),
{
    let mut line = String::from_str("Greetings from: ");
    line.append(id_text);
    line
}

/// The line in which the program with the given key names itself.
pub fn greetings_from(program_id: &Pubkey) -> (line: String)
    ensures
        line@ == greetings_from_text(pubkey_text(program_id@)),
{
    let id_text = debug_pubkey(program_id);
    greetings_from_line(id_text.as_str())
}

} // verus!
