//! Laws of rule application, proved over the spec functions that the
//! executable functions' contracts use.

use vstd::prelude::*;
use crate::fizzy::fizz_buzz_rules;
use crate::rules::{contribution, ints, joined, outcome, outcomes, RuleView};
use crate::text::int_text;
use crate::value::{divides, FizzValue};

verus! {

/// The texts of all of `rules`, concatenated in rule order.
pub open spec fn texts(rules: Seq<RuleView>) -> Seq<char>
    decreases rules.len(),
{
    if rules.len() == 0 {
        Seq::empty()
    } else {
        texts(rules.drop_last()) + rules.last().text
    }
}

/// When no rule matches `v`, the output for `v` is exactly its decimal form.
pub proof fn lemma_no_match(rules: Seq<RuleView>, v: int)
    requires
        forall|i: int| 0 <= i < rules.len() ==> !divides(#[trigger] rules[i].divisor, v),
    ensures
        outcome(rules, v) == int_text(v),
    decreases rules.len(),
{
    if rules.len() > 0 {
        let init = rules.drop_last();
        assert forall|i: int| 0 <= i < init.len() implies !divides(#[trigger] init[i].divisor, v) by {
            assert(init[i] == rules[i]);
        }
        lemma_no_match(init, v);
        lemma_joined_empty_when_no_match(rules, v);
    }
}

proof fn lemma_joined_empty_when_no_match(rules: Seq<RuleView>, v: int)
    requires
        forall|i: int| 0 <= i < rules.len() ==> !divides(#[trigger] rules[i].divisor, v),
    ensures
        joined(rules, v).len() == 0,
    decreases rules.len(),
{
    if rules.len() > 0 {
        let init = rules.drop_last();
        assert forall|i: int| 0 <= i < init.len() implies !divides(#[trigger] init[i].divisor, v) by {
            assert(init[i] == rules[i]);
        }
        lemma_joined_empty_when_no_match(init, v);
        assert(!divides(rules[rules.len() - 1].divisor, v));
    }
}

/// When every rule matches `v`, their texts are joined in rule order, and
/// that joined text is the output for `v` unless it is empty.
pub proof fn lemma_all_match_in_order(rules: Seq<RuleView>, v: int)
    requires
        forall|i: int| 0 <= i < rules.len() ==> divides(#[trigger] rules[i].divisor, v),
    ensures
        joined(rules, v) == texts(rules),
        texts(rules).len() > 0 ==> outcome(rules, v) == texts(rules),
    decreases rules.len(),
{
    if rules.len() > 0 {
        let init = rules.drop_last();
        assert forall|i: int| 0 <= i < init.len() implies divides(#[trigger] init[i].divisor, v) by {
            assert(init[i] == rules[i]);
        }
        lemma_all_match_in_order(init, v);
        assert(divides(rules[rules.len() - 1].divisor, v));
    }
}

/// With the fizz-buzz rules, a value that is a multiple of neither 3 nor 5 is
/// written as its decimal form.
pub proof fn lemma_fizz_buzz_plain(n: int)
    requires
        n % 3 != 0,
        n % 5 != 0,
    ensures
        outcome(fizz_buzz_rules(), n) == int_text(n),
{
    let rules = fizz_buzz_rules();
    assert(!divides(rules[0].divisor, n));
    assert(!divides(rules[1].divisor, n));
    lemma_no_match(rules, n);
}

/// With the fizz-buzz rules, a multiple of 3 but not of 5 gives `fizz`, a
/// multiple of 5 but not of 3 gives `buzz`, and a multiple of 15 gives
/// `fizzbuzz`, the text of 3 before that of 5.
pub proof fn lemma_fizz_buzz_words(n: int)
    ensures
        n % 3 == 0 && n % 5 != 0 ==> outcome(fizz_buzz_rules(), n) == "fizz"@,
        n % 5 == 0 && n % 3 != 0 ==> outcome(fizz_buzz_rules(), n) == "buzz"@,
        n % 15 == 0 ==> outcome(fizz_buzz_rules(), n) == "fizzbuzz"@,
{
    reveal_strlit("fizz");
    reveal_strlit("buzz");
    reveal_strlit("fizzbuzz");
    let rules = fizz_buzz_rules();
    assert(rules.drop_last().drop_last() =~= Seq::<RuleView>::empty());
    assert(rules.drop_last().last() == rules[0]);
    assert(rules.last() == rules[1]);
    assert(joined(rules, n) == joined(rules.drop_last(), n) + contribution(rules[1], n));
    let first = rules.drop_last();
    assert(joined(first.drop_last(), n) == Seq::<char>::empty());
    assert(joined(first, n) == joined(first.drop_last(), n) + contribution(rules[0], n));
    assert(joined(first, n) =~= contribution(rules[0], n));
    if n % 15 == 0 {
        assert(n % 3 == 0 && n % 5 == 0) by (nonlinear_arith)
            requires
                n % 15 == 0,
        ;
        assert(joined(rules, n) =~= "fizzbuzz"@);
    }
    if n % 3 == 0 && n % 5 != 0 {
        assert(joined(rules, n) =~= "fizz"@);
    }
    if n % 5 == 0 && n % 3 != 0 {
        assert(joined(rules, n) =~= "buzz"@);
    }
}

/// The outputs depend on the rules' meanings and on the integers the values
/// stand for, not on the numeric type that holds them: two value sequences
/// of any two types that stand for the same integers give the same outputs.
pub proof fn lemma_representation_independent<A: FizzValue, B: FizzValue>(
    rules_a: Seq<RuleView>,
    rules_b: Seq<RuleView>,
    xs: Seq<A>,
    ys: Seq<B>,
)
    requires
        rules_a == rules_b,
        xs.len() == ys.len(),
        forall|i: int| 0 <= i < xs.len() ==> #[trigger] xs[i].as_int() == ys[i].as_int(),
    ensures
        outcomes(rules_a, ints(xs)) == outcomes(rules_b, ints(ys)),
{
    assert(ints(xs) =~= ints(ys));
}

/// Each output depends on its own value alone, so the first `k` outputs of a
/// sequence are the outputs of its first `k` values, however long the
/// sequence goes on after them.
pub proof fn lemma_prefix_outputs(rules: Seq<RuleView>, vals: Seq<int>, k: int)
    requires
        0 <= k <= vals.len(),
    ensures
        outcomes(rules, vals).take(k) == outcomes(rules, vals.take(k)),
{
    assert(outcomes(rules, vals).take(k) =~= outcomes(rules, vals.take(k)));
}

} // verus!
