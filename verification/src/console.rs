//! Console output of text and numbers, one UTF-16 code unit at a time.

use vstd::prelude::*;
use crate::wide::{w, wide, utf16};
use crate::boot::{Action, ActionView};
use crate::status::{Result, Status, SUCCESS};

verus! {

/// The decimal digit character for `d` in `0..10`.
pub open spec fn digit(d: int) -> char {
    (d + 48) as char
}

/// The decimal digits of a natural number, most significant first, without leading zeros.
pub open spec fn decimal_digits(n: nat) -> Seq<char>
    decreases n,
{
    if n < 10 {
        seq![digit(n as int)]
    } else {
        decimal_digits(n / 10).push(digit((n % 10) as int))
    }
}

/// The decimal numeral of an integer: its digits, after a '-' when it is negative.
pub open spec fn decimal(i: int) -> Seq<char> {
    if i < 0 {
        seq!['-'] + decimal_digits((-i) as nat)
    } else {
        decimal_digits(i as nat)
    }
}

/// The number that a string of decimal digits denotes, most significant first.
pub open spec fn digits_value(s: Seq<char>) -> int
    decreases s.len(),
{
    if s.len() == 0 {
        0
    } else {
        digits_value(s.drop_last()) * 10 + ((s.last() as u32) - 48)
    }
}

/// The decimal digits of `n` are digit characters, at least one, without a leading zero
/// unless `n` is zero, and they denote `n`.
pub proof fn lemma_decimal_digits(n: nat)
    ensures
        decimal_digits(n).len() >= 1,
        forall|i: int|
            0 <= i < decimal_digits(n).len() ==> 48 <= (#[trigger] decimal_digits(n)[i] as u32)
                <= 57,
        n > 0 ==> decimal_digits(n)[0] != '0',
        n == 0 ==> decimal_digits(n) == seq!['0'],
        digits_value(decimal_digits(n)) == n,
    decreases n,
{
    if n >= 10 {
        lemma_decimal_digits(n / 10);
        let d = digit((n % 10) as int);
        assert((d as u32) == 48 + n % 10);
        let s = decimal_digits(n);
        assert(s.drop_last() =~= decimal_digits(n / 10));
        assert forall|i: int| 0 <= i < s.len() implies 48 <= (#[trigger] s[i] as u32) <= 57 by {
            if i < s.len() - 1 {
                assert(s[i] == decimal_digits(n / 10)[i]);
            }
        }
        assert(s[0] == decimal_digits(n / 10)[0]);
        assert(s.last() == d);
        assert(digits_value(s) == digits_value(s.drop_last()) * 10 + ((d as u32) - 48));
        assert(digits_value(s) == (n / 10) * 10 + n % 10);
    } else {
        let d = digit(n as int);
        assert((d as u32) == 48 + n);
        let s = decimal_digits(n);
        assert(s.drop_last() =~= Seq::<char>::empty());
        assert(digits_value(Seq::<char>::empty()) == 0);
        assert(s.last() == d);
        assert(digits_value(s) == digits_value(s.drop_last()) * 10 + ((d as u32) - 48));
    }
}

/// The decimal numeral of an integer starts with '-' exactly when the integer is
/// negative, and the digits after it denote the integer's magnitude.
pub proof fn lemma_decimal(i: int)
    ensures
        (decimal(i)[0] == '-') == (i < 0),
        i < 0 ==> decimal(i).drop_first() == decimal_digits((-i) as nat) && digits_value(
            decimal(i).drop_first(),
        ) == -i,
        i >= 0 ==> digits_value(decimal(i)) == i,
{
    if i < 0 {
        lemma_decimal_digits((-i) as nat);
        assert(decimal(i).drop_first() =~= decimal_digits((-i) as nat));
    } else {
        lemma_decimal_digits(i as nat);
        assert(48 <= (decimal(i)[0] as u32) <= 57);
    }
}

/// Formats an integer with `itoa::Buffer::format`. The crate converts integers to decimal
/// strings, the same text as Rust's own integer formatting; this contract states that
/// text as `decimal` (digits without leading zeros, a '-' before negative numbers).
#[verifier::external_body]
fn format_decimal(value: i128) -> (r: String)
    ensures
        r@ == decimal(value as int),
{
    let mut buffer = itoa::Buffer::new();
    buffer.format(value).to_string()
}

/// The console requests that print a text: each UTF-16 code unit of it as a string of
/// its own, then a line break.
pub open spec fn text_actions(s: Seq<char>) -> Seq<ActionView> {
    Seq::new(utf16(s).len(), |i: int| ActionView::OutputString(seq![utf16(s)[i], 0u16])).push(
        ActionView::OutputString(wide("\r\n"@)),
    )
}

/// Printing a text writes its UTF-16 code units, unchanged and in order, each as a
/// UEFI string of its own, then a line break.
pub proof fn lemma_text_actions(s: Seq<char>)
    ensures
        text_actions(s).len() == utf16(s).len() + 1,
        forall|i: int|
            0 <= i < utf16(s).len() ==> #[trigger] text_actions(s)[i] == ActionView::OutputString(
                seq![utf16(s)[i], 0u16],
            ),
        text_actions(s)[utf16(s).len() as int] == ActionView::OutputString(wide("\r\n"@)),
{
}

/// The console requests that print `s`: each UTF-16 code unit as a string of its own,
/// then a line break.
pub fn print_utf8(s: &str) -> (r: Vec<Action>)
    ensures
        r@.len() == text_actions(s@).len(),
        forall|i: int| 0 <= i < r@.len() ==> #[trigger] r@[i]@ == text_actions(s@)[i],
        r@.len() == utf16(s@).len() + 1,
        forall|i: int|
            0 <= i < utf16(s@).len() ==> #[trigger] r@[i]@ == ActionView::OutputString(
                seq![utf16(s@)[i], 0u16],
            ),
        r@[utf16(s@).len() as int]@ == ActionView::OutputString(wide("\r\n"@)),
{
    proof {
        lemma_text_actions(s@);
    }
    let units = w(s);
    let n = units.len() - 1;
    let mut r: Vec<Action> = Vec::new();
    for i in 0..n
        invariant
            units@ == wide(s@),
            n == utf16(s@).len(),
            r@.len() == i,
            forall|j: int| 0 <= j < i ==> #[trigger] r@[j]@ == text_actions(s@)[j],
    {
        let unit = units[i];
        let mut one: Vec<u16> = Vec::new();
        one.push(unit);
        one.push(0);
        assert(one@ =~= seq![utf16(s@)[i as int], 0u16]);
        r.push(Action::OutputString(one));
    }
    r.push(Action::OutputString(w("\r\n")));
    r
}

/// The console requests that print an integer in decimal, one character at a time, then
/// a line break.
pub fn print_num(value: i128) -> (r: Vec<Action>)
    ensures
        r@.len() == text_actions(decimal(value as int)).len(),
        forall|i: int| 0 <= i < r@.len() ==> #[trigger] r@[i]@ == text_actions(decimal(value as int))[i],
        r@.len() == utf16(decimal(value as int)).len() + 1,
        forall|i: int|
            0 <= i < utf16(decimal(value as int)).len() ==> #[trigger] r@[i]@
                == ActionView::OutputString(seq![utf16(decimal(value as int))[i], 0u16]),
        r@[utf16(decimal(value as int)).len() as int]@ == ActionView::OutputString(
            wide("\r\n"@),
        ),
{
    let text = format_decimal(value);
    print_utf8(text.as_str())
}

/// What a caller that prints a list of console requests does next.
#[derive(Clone, Copy, Debug, PartialEq, Eq)]
pub enum ConsoleStep {
    /// Perform the request at this index of the list.
    Perform(usize),
    /// Stop, with this result.
    Done(Result),
}

/// The next step of printing a list of `count` console requests, after `done` of them
/// have been performed and the last one answered `last` (success before any): the next
/// request while everything succeeded and requests remain; the first failure's status
/// once a request fails; success when all of them succeeded.
pub open spec fn console_step(count: usize, done: usize, last: Status) -> ConsoleStep {
    if last.0 != SUCCESS {
        ConsoleStep::Done(Err(last))
    } else if done < count {
        ConsoleStep::Perform(done)
    } else {
        ConsoleStep::Done(Ok(()))
    }
}

/// The next step of printing a list of `count` console requests, after `done` of them
/// have been performed and the last one answered `last` (success before any).
pub fn console_next(count: usize, done: usize, last: Status) -> (r: ConsoleStep)
    ensures
        r == console_step(count, done, last),
{
    if last.0 != SUCCESS {
        ConsoleStep::Done(Err(last))
    } else if done < count {
        ConsoleStep::Perform(done)
    } else {
        ConsoleStep::Done(Ok(()))
    }
}

/// The status of the last of the first `done` answers, or success before any.
pub open spec fn last_answer(answers: Seq<Status>, done: int) -> Status {
    if done == 0 {
        Status(SUCCESS)
    } else {
        answers[done - 1]
    }
}

/// Printing a list of `count` requests answered with `answers` performs the requests in
/// order, up to and including the first that fails, and then stops with that request's
/// status; when none of them fails it performs all of them and ends in success.
pub proof fn lemma_console_first_failure(count: usize, answers: Seq<Status>, k: int)
    requires
        0 <= k <= count,
        k <= answers.len(),
        forall|i: int| 0 <= i < k ==> (#[trigger] answers[i]).0 == SUCCESS,
    ensures
        forall|j: int|
            0 <= j <= k && j < count ==> console_step(count, j as usize, #[trigger] last_answer(answers, j))
                == ConsoleStep::Perform(j as usize),
        k < count && k < answers.len() && answers[k].0 != SUCCESS ==> console_step(
            count,
            (k + 1) as usize,
            last_answer(answers, k + 1),
        ) == ConsoleStep::Done(Err(answers[k])),
        k == count ==> console_step(count, count, last_answer(answers, k)) == ConsoleStep::Done(
            Ok(()),
        ),
{
}

} // verus!
