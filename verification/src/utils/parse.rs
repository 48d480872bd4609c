//! Duration expressions evaluated: the scanner and the fold.

use super::expression::{
    LimitFault, Segment, Sign, SignedTerm, apply, begins_unit, digits_value, duration_of,
    duration_of_stripped, evaluate, holds_term, is_digit, is_operator, is_whitespace,
    lemma_digits_value_grows, lemma_fault_persists, lemma_leading_digits, lemma_segments_step,
    lemma_strip_push, resolve, segments_before, sign_of, strip_whitespace, term_ends_at,
    term_fault, term_millis,
};
use super::units::TimeUnit;
use crate::handlers::error::{BotError, Error, ErrorKind, ErrorOrigin};
use vstd::prelude::*;
use vstd::slice::slice_subrange;

verus! {

impl LimitFault {
    /// The kind under which the fault is reported.
    pub open spec fn kind_of(self) -> ErrorKind {
        match self {
            LimitFault::DanglingOperator => ErrorKind::SyntaxError,
            LimitFault::UnmatchedTerm => ErrorKind::SyntaxError,
            LimitFault::PartialTerm => ErrorKind::SyntaxError,
            LimitFault::Underflow => ErrorKind::ArithmeticUnderflow,
            LimitFault::Overflow => ErrorKind::ArithmeticOverflow,
        }
    }

    /// The key of the text that tells the user of the fault.
    pub open spec fn key_of(self) -> Seq<char> {
        match self {
            LimitFault::DanglingOperator => "syntax.limit.end_operators"@,
            LimitFault::UnmatchedTerm => "syntax.limit.unit_syntax_err"@,
            LimitFault::PartialTerm => "syntax.limit.invalid_unit_match"@,
            LimitFault::Underflow => "syntax.limit.underflow"@,
            LimitFault::Overflow => "syntax.limit.overflow"@,
        }
    }

    /// The kind under which the fault is reported.
    pub fn kind(self) -> (kind: ErrorKind)
        ensures
            kind == self.kind_of(),
    {
        match self {
            LimitFault::DanglingOperator => ErrorKind::SyntaxError,
            LimitFault::UnmatchedTerm => ErrorKind::SyntaxError,
            LimitFault::PartialTerm => ErrorKind::SyntaxError,
            LimitFault::Underflow => ErrorKind::ArithmeticUnderflow,
            LimitFault::Overflow => ErrorKind::ArithmeticOverflow,
        }
    }

    /// The key of the text that tells the user of the fault.
    pub fn key(self) -> (key: &'static str)
        ensures
            key@ == self.key_of(),
    {
        match self {
            LimitFault::DanglingOperator => "syntax.limit.end_operators",
            LimitFault::UnmatchedTerm => "syntax.limit.unit_syntax_err",
            LimitFault::PartialTerm => "syntax.limit.invalid_unit_match",
            LimitFault::Underflow => "syntax.limit.underflow",
            LimitFault::Overflow => "syntax.limit.overflow",
        }
    }
}

/// Whether `error` is the report of `fault`: a fault of the user, of the
/// fault's kind, with the fault's key for a message.
pub open spec fn reports(error: BotError, fault: LimitFault) -> bool {
    &&& error.kind == fault.kind_of()
    &&& error.origin == ErrorOrigin::User
    &&& error.message@ == fault.key_of()
}

/// The running total with its milliseconds as a natural number.
pub open spec fn total_view(total: Result<u64, LimitFault>) -> Result<nat, LimitFault> {
    match total {
        Ok(ms) => Ok(ms as nat),
        Err(fault) => Err(fault),
    }
}

/// Whether `c` is white space.
pub fn whitespace(c: char) -> (white: bool)
    ensures
        white == is_whitespace(c),
{
    let point: u32 = c as u32;
    (0x09 <= point && point <= 0x0D) || point == 0x20 || point == 0x85 || point == 0xA0 || point
        == 0x1680 || (0x2000 <= point && point <= 0x200A) || point == 0x2028 || point == 0x2029
        || point == 0x202F || point == 0x205F || point == 0x3000
}

/// Whether `c` is a decimal digit.
pub fn digit(c: char) -> (yes: bool)
    ensures
        yes == is_digit(c),
{
    '0' <= c && c <= '9'
}

/// Whether `c` is `+` or `-`.
pub fn operator(c: char) -> (yes: bool)
    ensures
        yes == is_operator(c),
{
    c == '+' || c == '-'
}

/// The sign that the operator `c` gives.
pub fn sign(c: char) -> (sign: Sign)
    ensures
        sign == sign_of(c),
{
    if c == '-' {
        Sign::Minus
    } else {
        Sign::Plus
    }
}

fn unit_start(c: char) -> (yes: bool)
    ensures
        yes == begins_unit(c),
{
    c == 's' || c == 'm' || c == 'h' || c == 'd' || c == 'w' || c == 'y'
}

/// The characters of `limit` that are not white space.
pub fn normalize(limit: &str) -> (chars: Vec<char>)
    ensures
        chars@ == strip_whitespace(limit@),
{
    let mut chars: Vec<char> = Vec::new();
    proof {
        reveal(Seq::filter);
    }
    for c in it: limit.chars()
        invariant
            it.seq() == limit@,
            chars@ == strip_whitespace(limit@.take(it.index() as int)),
    {
        proof {
            lemma_strip_push(limit@.take(it.index() as int), c);
            assert(limit@.take(it.index() as int).push(c) =~= limit@.take(it.index() + 1));
        }
        if !whitespace(c) {
            chars.push(c);
        }
    }
    assert(limit@.take(limit@.len() as int) =~= limit@);
    chars
}

/// Looks for a number followed by a unit anywhere in `text`.
fn find_term(text: &[char]) -> (found: bool)
    ensures
        found == holds_term(text@),
{
    let n: usize = text.len();
    if n < 2 {
        return false;
    }
    let mut at: usize = 0;
    while at < n - 1
        invariant
            2 <= n == text@.len(),
            forall|k: int| 0 <= k < at ==> !term_ends_at(text@, k),
        decreases n - at,
    {
        if digit(text[at]) && unit_start(text[at + 1]) {
            assert(term_ends_at(text@, at as int));
            return true;
        }
        at += 1;
    }
    false
}

/// The value of one term, `None` inside `Ok` where it is beyond `u64::MAX`.
fn term_value(term: &[char]) -> (value: Result<Option<u64>, LimitFault>)
    ensures
        match term_millis(term@) {
            Some(ms) => value == Ok::<Option<u64>, LimitFault>(
                if ms <= u64::MAX {
                    Some(ms as u64)
                } else {
                    None
                },
            ),
            None => value == Err::<Option<u64>, LimitFault>(term_fault(term@)),
        },
{
    let n: usize = term.len();
    let mut count: Option<u64> = Some(0);
    let mut at: usize = 0;
    while at < n && digit(term[at])
        invariant
            at <= n,
            n == term@.len(),
            forall|k: int| 0 <= k < at ==> is_digit(term@[k]),
            match count {
                Some(v) => v == digits_value(term@.take(at as int)),
                None => digits_value(term@.take(at as int)) > u64::MAX,
            },
        decreases n - at,
    {
        let c = term[at];
        let d: u64 = (c as u32 - '0' as u32) as u64;
        proof {
            lemma_digits_value_grows(term@.take(at as int), c);
            assert(term@.take(at as int).push(c) =~= term@.take(at + 1));
        }
        count = match count {
            Some(v) => match v.checked_mul(10) {
                Some(tens) => tens.checked_add(d),
                None => None,
            },
            None => None,
        };
        at += 1;
    }
    proof {
        lemma_leading_digits(term@, at as int);
    }
    let unit = TimeUnit::from_suffix(slice_subrange(term, at, n));
    match unit {
        Some(unit) if at > 0 => {
            let ms: u64 = unit.millis();
            match count {
                Some(number) => Ok(number.checked_mul(ms)),
                None => {
                    let ghost number = digits_value(term@.take(at as int));
                    assert(number * ms >= number) by (nonlinear_arith)
                        requires
                            ms >= 1,
                            number >= 0,
                    ;
                    Ok(None)
                },
            }
        },
        _ => Err(
            if find_term(term) {
                LimitFault::PartialTerm
            } else {
                LimitFault::UnmatchedTerm
            },
        ),
    }
}

/// Adds `magnitude` to `total` or takes it away, and says so where the result leaves `u64`.
pub fn apply_term(total: u64, sign: Sign, magnitude: u64) -> (next: Result<u64, LimitFault>)
    ensures
        total_view(next) == apply(total as nat, SignedTerm { sign, magnitude: magnitude as nat }),
{
    match sign {
        Sign::Plus => match total.checked_add(magnitude) {
            Some(sum) => Ok(sum),
            None => Err(LimitFault::Overflow),
        },
        Sign::Minus => if magnitude > total {
            Err(LimitFault::Underflow)
        } else {
            Ok(total - magnitude)
        },
    }
}

/// The value of an expression that holds no white space.
fn duration_stripped(text: &[char]) -> (value: Result<u64, LimitFault>)
    ensures
        total_view(value) == duration_of_stripped(text@),
{
    let n: usize = text.len();
    if n > 0 && operator(text[n - 1]) {
        return Err(LimitFault::DanglingOperator);
    }
    let mut start: usize = 0;
    if n > 0 && operator(text[0]) {
        start = 1;
    }
    let mut total: Result<u64, LimitFault> = Ok(0);
    let ghost mut terms: Seq<SignedTerm> = Seq::empty();
    loop
        invariant
            n == text@.len(),
            n > 0 ==> !is_operator(text@[n - 1]),
            start <= n,
            start == 0 ==> n == 0 || !is_operator(text@[0]),
            start >= 1 ==> is_operator(text@[start - 1]),
            resolve(segments_before(text@, start as int)) == Ok::<Seq<SignedTerm>, LimitFault>(
                terms,
            ),
            total_view(total) == evaluate(terms),
        decreases n - start,
    {
        let mut end: usize = start;
        while end < n && !operator(text[end])
            invariant
                n == text@.len(),
                start <= end <= n,
                forall|at: int| start <= at < end ==> !is_operator(text@[at]),
            decreases n - end,
        {
            end += 1;
        }
        let term_sign = if start >= 1 {
            sign(text[start - 1])
        } else {
            Sign::Plus
        };
        let term = slice_subrange(text, start, end);
        let ghost before = segments_before(text@, start as int);
        let ghost segment = Segment { sign: term_sign, text: term@ };
        proof {
            lemma_segments_step(text@, start as int, end as int);
            assert(before.push(segment).drop_last() =~= before);
            if end == n {
                assert(text@.take(end as int) =~= text@);
            }
        }
        match term_value(term) {
            Err(fault) => {
                proof {
                    if end < n {
                        lemma_fault_persists(text@, end as int, fault);
                    }
                }
                return Err(fault);
            },
            Ok(magnitude) => {
                let ghost ms = term_millis(term@)->0;
                let ghost resolved = SignedTerm { sign: term_sign, magnitude: ms };
                proof {
                    assert(terms.push(resolved).drop_last() =~= terms);
                }
                total = match total {
                    Err(fault) => Err(fault),
                    Ok(sum) => match magnitude {
                        Some(m) => apply_term(sum, term_sign, m),
                        None => Err(
                            match term_sign {
                                Sign::Plus => LimitFault::Overflow,
                                Sign::Minus => LimitFault::Underflow,
                            },
                        ),
                    },
                };
                proof {
                    terms = terms.push(resolved);
                }
            },
        }
        if end == n {
            return total;
        }
        start = end + 1;
    }
}

/// Evaluates a duration expression such as `1d - 2h + 3min` to milliseconds.
pub fn duration(limit: &str) -> (value: Result<u64, LimitFault>)
    ensures
        total_view(value) == duration_of(limit@),
{
    let chars = normalize(limit);
    duration_stripped(chars.as_slice())
}

/// Transforms a duration expression into milliseconds.
///
/// An expression is a row of terms joined by `+` and `-`, such as
/// `1d - 2h + 3min`. A term is a whole number and a unit: `s`, `min`, `h`,
/// `d`, `w`, `m` for a month of thirty days, `y` for a year of 365 days.
/// White space counts for nothing. The terms are added and taken away from
/// the left; the total never leaves the range of `u64`, nor passes below zero
/// on the way.
pub fn limit_to_milli(limit: String) -> (result: Result<u64, BotError>)
    ensures
        match duration_of(limit@) {
            Ok(ms) => result matches Ok(value) && value == ms,
            Err(fault) => result matches Err(error) && reports(error, fault),
        },
{
    match duration(limit.as_str()) {
        Ok(value) => Ok(value),
        Err(fault) => Err(BotError::new(fault.key().to_owned(), fault.kind(), ErrorOrigin::User)),
    }
}

} // verus!
