use vstd::prelude::*;
use vstd::utf8::{decode_utf8, valid_utf8};

verus! {

/// Takes in one byte typed by the player. A newline ends the line; a carriage
/// return is dropped; any other byte joins the line.
pub fn input_step(line: &mut Vec<u8>, ch: u8) -> (done: bool)
    ensures
        done == (ch == 10u8),
        final(line)@ == if ch == 10u8 || ch == 13u8 { old(line)@ } else { old(line)@.push(ch) },
{
    if ch == 13u8 {
        return false;
    }
    if ch == 10u8 {
        return true;
    }
    line.push(ch);
    false
}

/// Calls `String::from_utf8`. Trusted: std documents that it accepts exactly
/// the valid UTF-8 byte sequences and decodes them, which the `valid_utf8` and
/// `decode_utf8` of vstd state.
#[verifier::external_body]
fn utf8_string(bytes: Vec<u8>) -> (s: Option<String>)
    ensures
        s is Some <==> valid_utf8(bytes@),
        s matches Some(t) ==> t@ == decode_utf8(bytes@),
{
    String::from_utf8(bytes).ok()
}

/// The text of a finished line of input; `None` where the bytes are not UTF-8.
pub fn input(line: Vec<u8>) -> (s: Option<String>)
    ensures
        s is Some <==> valid_utf8(line@),
        s matches Some(t) ==> t@ == decode_utf8(line@),
{
    utf8_string(line)
}

/// Whether a character is an ASCII decimal digit.
pub open spec fn is_digit(c: char) -> bool {
    '0' <= c <= '9'
}

/// The value of a sequence of decimal digits, most significant first.
pub open spec fn digits_value(ds: Seq<char>) -> int
    decreases ds.len(),
{
    if ds.len() == 0 {
        0
    } else {
        digits_value(ds.drop_last()) * 10 + (ds.last() as int - '0' as int)
    }
}

/// The `i32` that a text denotes: an optional sign, then one or more decimal
/// digits and nothing else, with a value in the range of `i32`.
pub open spec fn parsed_i32(s: Seq<char>) -> Option<i32> {
    let signed = s.len() > 0 && (s[0] == '-' || s[0] == '+');
    let ds = if signed { s.drop_first() } else { s };
    let v = if signed && s[0] == '-' { -digits_value(ds) } else { digits_value(ds) };
    if ds.len() > 0 && (forall|i: int| 0 <= i < ds.len() ==> is_digit(#[trigger] ds[i]))
        && i32::MIN <= v <= i32::MAX {
        Some(v as i32)
    } else {
        None
    }
}

/// Calls `str::parse::<i32>`. Trusted: std documents that the text must be an
/// optional `+` or `-` sign followed by digits only, whose value fits in
/// `i32`, and that anything else is an error.
#[verifier::external_body]
fn parse_i32(text: &str) -> (n: Option<i32>)
    ensures
        n == parsed_i32(text@),
{
    text.parse::<i32>().ok()
}

/// The number that the player typed on a line; `None` where the line is not
/// a number.
pub fn input_num(line: &str) -> (n: Option<i32>)
    ensures
        n == parsed_i32(line@),
{
    parse_i32(line)
}

/// What to do with a number typed as an answer.
#[derive(Debug, Clone, Copy, PartialEq, Eq)]
pub enum AnswerAction {
    /// Submit the choice with this index, counted from 0.
    Choose(i32),
    /// Stop answering and submit the result.
    Finish,
    /// Ask again.
    Retry,
}

/// Reads a typed answer: 1 to 4 choose an option, 0 or less ends the battle,
/// and anything else is asked again.
pub fn answer_action(ans: i32) -> (a: AnswerAction)
    ensures
        1 <= ans <= 4 ==> a == AnswerAction::Choose((ans - 1) as i32),
        ans <= 0 ==> a == AnswerAction::Finish,
        ans > 4 ==> a == AnswerAction::Retry,
{
    if 1 <= ans && ans <= 4 {
        AnswerAction::Choose(ans - 1)
    } else if ans <= 0 {
        AnswerAction::Finish
    } else {
        AnswerAction::Retry
    }
}

} // verus!
