//! What holds of every duration expression.

use super::expression::{
    LimitFault, Segment, Sign, SignedTerm, apply, digits_value, duration_of, duration_of_stripped,
    evaluate, is_digit, is_operator, is_whitespace, leading_digits, lemma_last_operator,
    lemma_leading_digits, lemma_leading_digits_spans, lemma_segments_step, lemma_strip_push,
    resolve, segments, sign_before, sign_of, strip_whitespace, term_millis,
};
use super::units::{lemma_suffix_names_unit, TimeUnit};
use vstd::prelude::*;

verus! {

/// White space in an expression does not change its value: the expression
/// and the same expression without its white space come to the same.
pub proof fn law_whitespace_is_ignored(limit: Seq<char>)
    ensures
        strip_whitespace(strip_whitespace(limit)) == strip_whitespace(limit),
        duration_of(strip_whitespace(limit)) == duration_of(limit),
    decreases limit.len(),
{
    reveal(Seq::filter);
    if limit.len() > 0 {
        let front = limit.drop_last();
        law_whitespace_is_ignored(front);
        lemma_strip_push(front, limit.last());
        if !is_whitespace(limit.last()) {
            lemma_strip_push(strip_whitespace(front), limit.last());
        }
    }
}

/// What a term adds to the total: its magnitude, or the magnitude taken away.
pub open spec fn signed(term: SignedTerm) -> int {
    match term.sign {
        Sign::Plus => term.magnitude as int,
        Sign::Minus => -(term.magnitude as int),
    }
}

/// The sum of the terms with their signs, in the integers.
pub open spec fn signed_sum(terms: Seq<SignedTerm>) -> int
    decreases terms.len(),
{
    if terms.len() == 0 {
        0
    } else {
        signed_sum(terms.drop_last()) + signed(terms.last())
    }
}

/// Whether the sum of the first `count` terms can be held: it is not negative and fits `u64`.
pub open spec fn partial_sum_holds(terms: Seq<SignedTerm>, count: int) -> bool {
    0 <= signed_sum(terms.take(count)) <= u64::MAX
}

/// The evaluation never wraps. It succeeds exactly where every partial sum,
/// from the left, is neither negative nor beyond `u64::MAX`, and then the
/// total is the sum of the signed terms. Where it fails, the fault tells on
/// which side the first partial sum that cannot be held lies.
pub proof fn law_total_is_signed_sum(terms: Seq<SignedTerm>)
    ensures
        evaluate(terms) is Ok <==> forall|count: int|
            0 <= count <= terms.len() ==> partial_sum_holds(terms, count),
        evaluate(terms) matches Ok(total) ==> total == signed_sum(terms),
        evaluate(terms) matches Err(fault) ==> exists|count: int|
            {
                &&& 0 < count <= terms.len()
                &&& forall|before: int| 0 <= before < count ==> partial_sum_holds(terms, before)
                &&& !#[trigger] partial_sum_holds(terms, count)
                &&& fault == if signed_sum(terms.take(count)) < 0 {
                    LimitFault::Underflow
                } else {
                    LimitFault::Overflow
                }
            },
    decreases terms.len(),
{
    if terms.len() > 0 {
        let front = terms.drop_last();
        let n = terms.len() as int;
        law_total_is_signed_sum(front);
        assert(terms.take(n) =~= terms);
        assert(front.take(n - 1) =~= front);
        assert forall|count: int| 0 <= count < n implies terms.take(count) == front.take(
            count,
        ) by {
            assert(terms.take(count) =~= front.take(count));
        }
        match evaluate(front) {
            Ok(total) => {
                assert forall|before: int| 0 <= before < n implies partial_sum_holds(
                    terms,
                    before,
                ) by {
                    assert(partial_sum_holds(front, before));
                }
                assert(partial_sum_holds(front, n - 1));
                if evaluate(terms) is Err {
                    assert(!partial_sum_holds(terms, n));
                } else {
                    assert forall|count: int| 0 <= count <= n implies partial_sum_holds(
                        terms,
                        count,
                    ) by {
                        if count < n {
                            assert(partial_sum_holds(front, count));
                        }
                    }
                }
            },
            Err(fault) => {
                let count = choose|count: int|
                    {
                        &&& 0 < count <= front.len()
                        &&& forall|before: int|
                            0 <= before < count ==> partial_sum_holds(front, before)
                        &&& !#[trigger] partial_sum_holds(front, count)
                        &&& fault == if signed_sum(front.take(count)) < 0 {
                            LimitFault::Underflow
                        } else {
                            LimitFault::Overflow
                        }
                    };
                assert forall|before: int| 0 <= before < count implies partial_sum_holds(
                    terms,
                    before,
                ) by {
                    assert(partial_sum_holds(front, before));
                }
                assert(!partial_sum_holds(terms, count));
            },
        }
    }
}

/// A term is a number and a unit: the digits of any number, followed by the
/// suffix of any unit, stand for that number of units.
pub proof fn law_term_grammar(digits: Seq<char>, unit: TimeUnit)
    requires
        digits.len() > 0,
        forall|at: int| 0 <= at < digits.len() ==> is_digit(digits[at]),
    ensures
        term_millis(digits + unit.suffix()) == Some(digits_value(digits) * unit.milliseconds()),
{
    let text = digits + unit.suffix();
    let count = digits.len() as int;
    lemma_leading_digits(text, count);
    assert(text.skip(count) =~= unit.suffix());
    assert(text.take(count) =~= digits);
    lemma_suffix_names_unit(unit);
}

/// Only a number and a unit make a term: a text that stands for a duration
/// is one or more digits followed by the suffix of the unit it counts in.
pub proof fn law_term_shape(text: Seq<char>)
    requires
        term_millis(text) is Some,
    ensures
        ({
            let count = leading_digits(text) as int;
            let unit = TimeUnit::named_by(text.skip(count));
            &&& 0 < count < text.len()
            &&& forall|at: int| 0 <= at < count ==> is_digit(text[at])
            &&& unit is Some
            &&& text == text.take(count) + unit->0.suffix()
        }),
{
    lemma_leading_digits_spans(text);
    let count = leading_digits(text) as int;
    assert(text =~= text.take(count) + text.skip(count));
}

/// A term is digits and letters: no operator stands in it, and it is not empty.
pub proof fn lemma_term_holds_no_operator(term: Seq<char>)
    requires
        term_millis(term) is Some,
    ensures
        term.len() > 0,
        forall|at: int| 0 <= at < term.len() ==> !is_operator(term[at]),
{
    law_term_shape(term);
    let count = leading_digits(term) as int;
    let unit = TimeUnit::named_by(term.skip(count))->0;
    assert forall|at: int| 0 <= at < term.len() implies !is_operator(term[at]) by {
        if at >= count {
            assert(term[at] == unit.suffix()[at - count]);
        }
    }
}

/// An expression of one term, with or without a sign before it, is worth
/// what the one step from zero gives.
pub proof fn law_first_term(text: Seq<char>, term: Seq<char>, ms: nat)
    requires
        term_millis(term) == Some(ms),
        text == term || (text.len() > 0 && is_operator(text[0]) && text.skip(1) == term),
    ensures
        duration_of_stripped(text) == apply(
            0,
            SignedTerm {
                sign: if text == term {
                    Sign::Plus
                } else {
                    sign_of(text[0])
                },
                magnitude: ms,
            },
        ),
{
    lemma_term_holds_no_operator(term);
    let start: int = if text == term {
        0
    } else {
        1
    };
    let end = text.len() as int;
    assert forall|at: int| start <= at < end implies !is_operator(text[at]) by {
        assert(text[at] == term[at - start]);
    }
    assert(text.take(end) =~= text);
    lemma_segments_step(text, start, end);
    let segment = Segment { sign: sign_before(text, start), text: term };
    let resolved = SignedTerm { sign: segment.sign, magnitude: ms };
    assert(resolve(seq![segment].drop_last()) == Ok::<Seq<SignedTerm>, LimitFault>(Seq::empty()));
    assert(resolve(segments(text)) == Ok::<Seq<SignedTerm>, LimitFault>(
        Seq::<SignedTerm>::empty().push(resolved),
    ));
    let terms = Seq::<SignedTerm>::empty().push(resolved);
    assert(evaluate(terms.drop_last()) == Ok::<nat, LimitFault>(0));
}

/// An expression that goes on with an operator and a term is worth what it
/// was worth before, with the term added or taken away.
pub proof fn law_next_term(text: Seq<char>, op: char, term: Seq<char>, total: nat, ms: nat)
    requires
        duration_of_stripped(text) == Ok::<nat, LimitFault>(total),
        is_operator(op),
        term_millis(term) == Some(ms),
    ensures
        duration_of_stripped(text + seq![op] + term) == apply(
            total,
            SignedTerm { sign: sign_of(op), magnitude: ms },
        ),
{
    lemma_term_holds_no_operator(term);
    lemma_last_operator(text);
    let whole = text + seq![op] + term;
    let start = text.len() as int + 1;
    let end = whole.len() as int;
    assert(text.len() > 0) by {
        if text.len() == 0 {
            assert(segments(text) =~= seq![Segment { sign: Sign::Plus, text }]);
        }
    }
    assert forall|at: int| start <= at < end implies !is_operator(whole[at]) by {
        assert(whole[at] == term[at - start]);
    }
    assert(whole.subrange(start, end) =~= term);
    assert(whole.take(end) =~= whole);
    assert(whole.take(start - 1) =~= text);
    lemma_segments_step(whole, start, end);
    let segment = Segment { sign: sign_of(op), text: term };
    let resolved = SignedTerm { sign: sign_of(op), magnitude: ms };
    assert(segments(text).push(segment).drop_last() =~= segments(text));
    let terms = resolve(segments(text))->Ok_0;
    assert(terms.push(resolved).drop_last() =~= terms);
}

} // verus!
