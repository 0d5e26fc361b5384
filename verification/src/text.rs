//! The line of text that describes a channel.
use std::collections::VecDeque;
use std::fmt::Debug;
use std::fmt::Write;
use vstd::prelude::*;
use vstd::string::StringExecFns;

verus! {

/// The character for one decimal digit.
pub open spec fn digit(d: nat) -> char
    recommends
        d < 10,
{
    if d == 0 {
        '0'
    } else if d == 1 {
        '1'
    } else if d == 2 {
        '2'
    } else if d == 3 {
        '3'
    } else if d == 4 {
        '4'
    } else if d == 5 {
        '5'
    } else if d == 6 {
        '6'
    } else if d == 7 {
        '7'
    } else if d == 8 {
        '8'
    } else {
        '9'
    }
}

/// `n` in decimal digits, the most significant first, with no leading zero.
pub open spec fn decimal(n: nat) -> Seq<char>
    decreases n,
{
    if n < 10 {
        seq![digit(n)]
    } else {
        decimal(n / 10).push(digit(n % 10))
    }
}

/// The description of a channel that counts `senders` producers and whose queue
/// reads `queue_text`.
pub open spec fn description(senders: nat, queue_text: Seq<char>) -> Seq<char> {
    "Sender: "@ + decimal(senders) + ", Deque: "@ + queue_text
}

fn digit_text(d: usize) -> (text: &'static str)
    requires
        d < 10,
    ensures
        text@ == seq![digit(d as nat)],
{
    proof {
        reveal_strlit("0");
        reveal_strlit("1");
        reveal_strlit("2");
        reveal_strlit("3");
        reveal_strlit("4");
        reveal_strlit("5");
        reveal_strlit("6");
        reveal_strlit("7");
        reveal_strlit("8");
        reveal_strlit("9");
    }
    let text = if d == 0 {
        "0"
    } else if d == 1 {
        "1"
    } else if d == 2 {
        "2"
    } else if d == 3 {
        "3"
    } else if d == 4 {
        "4"
    } else if d == 5 {
        "5"
    } else if d == 6 {
        "6"
    } else if d == 7 {
        "7"
    } else if d == 8 {
        "8"
    } else {
        "9"
    };
    assert(text@ =~= seq![digit(d as nat)]);
    text
}

/// Writes `n` in decimal.
pub fn decimal_text(n: usize) -> (text: String)
    ensures
        text@ == decimal(n as nat),
    decreases n,
{
    if n < 10 {
        String::from_str(digit_text(n))
    } else {
        let mut text = decimal_text(n / 10);
        text.append(digit_text(n % 10));
        assert(text@ =~= decimal(n as nat));
        text
    }
}

/// Describes a channel: the number of live producers, then the queue as
/// `queue_text` shows it.
pub fn describe(senders: usize, queue_text: &str) -> (text: String)
    ensures
        text@ == description(senders as nat, queue_text@),
{
    let mut text = String::from_str("Sender: ");
    let count = decimal_text(senders);
    text.append(count.as_str());
    text.append(", Deque: ");
    text.append(queue_text);
    text
}

/// `std::fmt::Error`, opaque.
#[verifier::external_type_specification]
#[verifier::external_body]
pub struct ExFmtError(std::fmt::Error);

/// The `Debug` impl of a message reported an error, so the channel cannot be
/// described.
#[derive(Clone, Copy, Debug, PartialEq, Eq)]
pub struct DebugError;

/// `write!` with `{:?}` into a `String` writes the queue as the `Debug` impls of
/// `VecDeque` and of the messages show it, and hands on the error of an impl that
/// reports one. Nothing is stated of the result: it is what the impl of `T` makes
/// of each message.
#[verifier::external_body]
pub(crate) fn debug_text<T: Debug>(queue: &VecDeque<T>) -> (result: Result<
    String,
    std::fmt::Error,
>) {
    let mut text = String::new();
    match write!(text, "{:?}", queue) {
        Ok(()) => Ok(text),
        Err(error) => Err(error),
    }
}

} // verus!
