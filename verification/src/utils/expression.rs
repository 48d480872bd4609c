//! What a duration expression means: its terms, their signs and lengths,
//! and the total they come to.

use super::units::TimeUnit;
use vstd::prelude::*;

verus! {

/// Why a duration expression has no value.
#[derive(Clone, Copy, Debug, PartialEq, Eq, Structural)]
pub enum LimitFault {
    /// The expression ends with an operator.
    DanglingOperator,
    /// A term holds no number followed by a unit.
    UnmatchedTerm,
    /// A term holds a number followed by a unit, and something else.
    PartialTerm,
    /// A subtraction would take the total below zero.
    Underflow,
    /// An addition would take the total beyond `u64::MAX`.
    Overflow,
}

/// Whether a term is added or taken away.
#[derive(Clone, Copy, Debug, PartialEq, Eq, Structural)]
pub enum Sign {
    Plus,
    Minus,
}

/// One term of an expression, resolved: its sign and its length in milliseconds.
pub struct SignedTerm {
    pub sign: Sign,
    pub magnitude: nat,
}

/// One term of an expression as it is written: its sign and its text.
pub struct Segment {
    pub sign: Sign,
    pub text: Seq<char>,
}

/// Whether `c` is white space: one of the characters that Unicode marks `White_Space`.
pub open spec fn is_whitespace(c: char) -> bool {
    let point = c as u32;
    ||| 0x09 <= point <= 0x0D
    ||| point == 0x20
    ||| point == 0x85
    ||| point == 0xA0
    ||| point == 0x1680
    ||| 0x2000 <= point <= 0x200A
    ||| point == 0x2028
    ||| point == 0x2029
    ||| point == 0x202F
    ||| point == 0x205F
    ||| point == 0x3000
}

/// `text` without its white space, the other characters in their order.
pub open spec fn strip_whitespace(text: Seq<char>) -> Seq<char> {
    text.filter(|c: char| !is_whitespace(c))
}

/// Whether `c` is one of the ten decimal digits of ASCII.
pub open spec fn is_digit(c: char) -> bool {
    '0' <= c <= '9'
}

/// The number that a digit stands for.
pub open spec fn digit_value(c: char) -> nat {
    (c as u32 - '0' as u32) as nat
}

/// The number that a run of decimal digits writes.
pub open spec fn digits_value(digits: Seq<char>) -> nat
    decreases digits.len(),
{
    if digits.len() == 0 {
        0
    } else {
        10 * digits_value(digits.drop_last()) + digit_value(digits.last())
    }
}

/// How many digits `text` begins with.
pub open spec fn leading_digits(text: Seq<char>) -> nat
    decreases text.len(),
{
    if text.len() > 0 && is_digit(text.first()) {
        1 + leading_digits(text.drop_first())
    } else {
        0
    }
}

/// The milliseconds that a term stands for: one or more digits, then the
/// suffix of a unit, and nothing else. `None` for any other text.
pub open spec fn term_millis(text: Seq<char>) -> Option<nat> {
    let count = leading_digits(text) as int;
    let unit = TimeUnit::named_by(text.skip(count));
    if count > 0 && unit is Some {
        Some(digits_value(text.take(count)) * unit->0.milliseconds())
    } else {
        None
    }
}

/// Whether a unit's suffix begins with `c`.
pub open spec fn begins_unit(c: char) -> bool {
    c == 's' || c == 'm' || c == 'h' || c == 'd' || c == 'w' || c == 'y'
}

/// Whether a digit stands at `at` and a unit begins right behind it.
pub open spec fn term_ends_at(text: Seq<char>, at: int) -> bool {
    0 <= at < text.len() - 1 && is_digit(text[at]) && begins_unit(text[at + 1])
}

/// Whether some part of `text` is a number followed by a unit.
pub open spec fn holds_term(text: Seq<char>) -> bool {
    exists|at: int| term_ends_at(text, at)
}

/// What is wrong with a text that is no term.
pub open spec fn term_fault(text: Seq<char>) -> LimitFault {
    if holds_term(text) {
        LimitFault::PartialTerm
    } else {
        LimitFault::UnmatchedTerm
    }
}

/// Whether `c` joins two terms.
pub open spec fn is_operator(c: char) -> bool {
    c == '+' || c == '-'
}

/// The sign that an operator gives to the term behind it.
pub open spec fn sign_of(c: char) -> Sign {
    if c == '-' {
        Sign::Minus
    } else {
        Sign::Plus
    }
}

/// The place of the last operator in `text`, or -1 where it holds none.
pub open spec fn last_operator(text: Seq<char>) -> int
    decreases text.len(),
{
    if text.len() == 0 {
        -1
    } else if is_operator(text.last()) {
        text.len() - 1
    } else {
        last_operator(text.drop_last())
    }
}

/// The terms of an expression, split at its operators. Each operator gives
/// the sign of the text behind it; the text before the first operator is
/// added. An operator at the very start has no text before it, so an
/// expression may begin with a sign. Between two operators in a row stands an
/// empty text, and so does in an empty expression: they are terms like the
/// others, and no unit table resolves them.
pub open spec fn segments(text: Seq<char>) -> Seq<Segment>
    decreases text.len(),
    via segments_decreases
{
    let place = last_operator(text);
    if place <= 0 {
        seq![
            Segment {
                sign: if place == 0 {
                    sign_of(text[0])
                } else {
                    Sign::Plus
                },
                text: text.skip(place + 1),
            },
        ]
    } else {
        segments(text.take(place)).push(
            Segment { sign: sign_of(text[place]), text: text.skip(place + 1) },
        )
    }
}

#[via_fn]
proof fn segments_decreases(text: Seq<char>) {
    lemma_last_operator(text);
}

/// The terms resolved through the unit table, or the fault of the first text that is no term.
pub open spec fn resolve(segments: Seq<Segment>) -> Result<Seq<SignedTerm>, LimitFault>
    decreases segments.len(),
{
    if segments.len() == 0 {
        Ok(Seq::empty())
    } else {
        match resolve(segments.drop_last()) {
            Err(fault) => Err(fault),
            Ok(terms) => match term_millis(segments.last().text) {
                None => Err(term_fault(segments.last().text)),
                Some(ms) => Ok(terms.push(SignedTerm { sign: segments.last().sign, magnitude: ms })),
            },
        }
    }
}

/// One step of the evaluation: `term` added to `total` or taken from it.
pub open spec fn apply(total: nat, term: SignedTerm) -> Result<nat, LimitFault> {
    match term.sign {
        Sign::Plus => if total + term.magnitude > u64::MAX {
            Err(LimitFault::Overflow)
        } else {
            Ok(total + term.magnitude)
        },
        Sign::Minus => if term.magnitude > total {
            Err(LimitFault::Underflow)
        } else {
            Ok((total - term.magnitude) as nat)
        },
    }
}

/// The terms folded from the left, starting at zero; the first fault ends it.
pub open spec fn evaluate(terms: Seq<SignedTerm>) -> Result<nat, LimitFault>
    decreases terms.len(),
{
    if terms.len() == 0 {
        Ok(0)
    } else {
        match evaluate(terms.drop_last()) {
            Err(fault) => Err(fault),
            Ok(total) => apply(total, terms.last()),
        }
    }
}

/// The value of an expression once its white space is gone. An expression
/// that ends with an operator is refused first; then the first text that is
/// no term, from the left; only then is the total counted, and the first step
/// that leaves the range of `u64` on either side ends it.
pub open spec fn duration_of_stripped(text: Seq<char>) -> Result<nat, LimitFault> {
    if text.len() > 0 && is_operator(text.last()) {
        Err(LimitFault::DanglingOperator)
    } else {
        match resolve(segments(text)) {
            Err(fault) => Err(fault),
            Ok(terms) => evaluate(terms),
        }
    }
}

/// The value of a duration expression in milliseconds, or why it has none.
/// White space counts for nothing, wherever it stands.
pub open spec fn duration_of(limit: Seq<char>) -> Result<nat, LimitFault> {
    duration_of_stripped(strip_whitespace(limit))
}

/// Appending one character to `text` appends it to the stripped text, unless it is white space.
pub proof fn lemma_strip_push(text: Seq<char>, c: char)
    ensures
        strip_whitespace(text.push(c)) == if is_whitespace(c) {
            strip_whitespace(text)
        } else {
            strip_whitespace(text).push(c)
        },
{
    reveal(Seq::filter);
    assert(text.push(c).drop_last() =~= text);
}

/// A text that begins with `count` digits, and goes on with none, has `count` leading digits.
pub proof fn lemma_leading_digits(text: Seq<char>, count: int)
    requires
        0 <= count <= text.len(),
        forall|at: int| 0 <= at < count ==> is_digit(text[at]),
        count < text.len() ==> !is_digit(text[count]),
    ensures
        leading_digits(text) == count,
    decreases count,
{
    if count > 0 {
        let rest = text.drop_first();
        assert forall|at: int| 0 <= at < count - 1 implies is_digit(rest[at]) by {
        }
        lemma_leading_digits(rest, count - 1);
    }
}

/// A number that goes on with one more digit is not smaller for it.
pub proof fn lemma_digits_value_grows(digits: Seq<char>, c: char)
    ensures
        digits_value(digits.push(c)) == 10 * digits_value(digits) + digit_value(c),
        digits_value(digits.push(c)) >= digits_value(digits),
{
    assert(digits.push(c).drop_last() =~= digits);
}

/// The leading digits are digits, and there are no more of them than characters.
pub proof fn lemma_leading_digits_spans(text: Seq<char>)
    ensures
        leading_digits(text) <= text.len(),
        forall|at: int| 0 <= at < leading_digits(text) ==> is_digit(text[at]),
        leading_digits(text) < text.len() ==> !is_digit(text[leading_digits(text) as int]),
    decreases text.len(),
{
    if text.len() > 0 && is_digit(text.first()) {
        let rest = text.drop_first();
        lemma_leading_digits_spans(rest);
        assert forall|at: int| 0 <= at < leading_digits(text) implies is_digit(text[at]) by {
            if at > 0 {
                assert(rest[at - 1] == text[at]);
            }
        }
        if leading_digits(text) < text.len() {
        }
    }
}

/// `last_operator` is the place of an operator behind which none follows.
pub proof fn lemma_last_operator(text: Seq<char>)
    ensures
        -1 <= last_operator(text) < text.len(),
        last_operator(text) >= 0 ==> is_operator(text[last_operator(text)]),
        forall|at: int| last_operator(text) < at < text.len() ==> !is_operator(text[at]),
    decreases text.len(),
{
    if text.len() > 0 && !is_operator(text.last()) {
        let front = text.drop_last();
        lemma_last_operator(front);
        assert forall|at: int| last_operator(text) < at < text.len() implies !is_operator(
            text[at],
        ) by {
            if at < front.len() {
                assert(front[at] == text[at]);
            }
        }
    }
}

/// The place of an operator behind which none follows is `last_operator`; so is -1 where there is none.
pub proof fn lemma_last_operator_is(text: Seq<char>, place: int)
    requires
        -1 <= place < text.len(),
        place >= 0 ==> is_operator(text[place]),
        forall|at: int| place < at < text.len() ==> !is_operator(text[at]),
    ensures
        last_operator(text) == place,
{
    lemma_last_operator(text);
}

/// The terms that stand before the term that begins at `start`.
pub open spec fn segments_before(text: Seq<char>, start: int) -> Seq<Segment> {
    if start >= 2 {
        segments(text.take(start - 1))
    } else {
        Seq::empty()
    }
}

/// The sign of the term that begins at `start`.
pub open spec fn sign_before(text: Seq<char>, start: int) -> Sign {
    if start >= 1 {
        sign_of(text[start - 1])
    } else {
        Sign::Plus
    }
}

/// A term that runs from `start` to `end` is the last of the terms up to `end`.
pub proof fn lemma_segments_step(text: Seq<char>, start: int, end: int)
    requires
        0 <= start <= end <= text.len(),
        start >= 1 ==> is_operator(text[start - 1]),
        forall|at: int| start <= at < end ==> !is_operator(text[at]),
    ensures
        segments(text.take(end)) == segments_before(text, start).push(
            Segment { sign: sign_before(text, start), text: text.subrange(start, end) },
        ),
{
    let front = text.take(end);
    lemma_last_operator_is(front, start - 1);
    assert(front.skip(start) =~= text.subrange(start, end));
    if start >= 2 {
        assert(front.take(start - 1) =~= text.take(start - 1));
    } else {
        assert(segments(front) =~= segments_before(text, start).push(
            Segment { sign: sign_before(text, start), text: text.subrange(start, end) },
        ));
    }
}

/// A fault among the terms before an operator is the fault of the whole expression.
pub proof fn lemma_fault_persists(text: Seq<char>, end: int, fault: LimitFault)
    requires
        1 <= end < text.len(),
        is_operator(text[end]),
        resolve(segments(text.take(end))) == Err::<Seq<SignedTerm>, LimitFault>(fault),
    ensures
        resolve(segments(text)) == Err::<Seq<SignedTerm>, LimitFault>(fault),
    decreases text.len(),
{
    lemma_last_operator(text);
    let place = last_operator(text);
    let front = text.take(place);
    let last = Segment { sign: sign_of(text[place]), text: text.skip(place + 1) };
    if place > end {
        assert(front.take(end) =~= text.take(end));
        lemma_fault_persists(front, end, fault);
    }
    assert(segments(front).push(last).drop_last() =~= segments(front));
}

} // verus!
