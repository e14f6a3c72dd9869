//! A single rule, and what a sequence of rules makes of a value.

use vstd::prelude::*;
use crate::text::int_text;
use crate::value::{divides, FizzValue};

verus! {

/// The meaning of a rule: values that are multiples of `divisor` contribute `text`.
pub struct RuleView {
    pub divisor: int,
    pub text: Seq<char>,
}

/// What `rule` contributes for the value `v`: its text if it matches, else nothing.
pub open spec fn contribution(rule: RuleView, v: int) -> Seq<char> {
    if divides(rule.divisor, v) {
        rule.text
    } else {
        Seq::empty()
    }
}

/// The texts of the rules that match `v`, concatenated in rule order.
pub open spec fn joined(rules: Seq<RuleView>, v: int) -> Seq<char>
    decreases rules.len(),
{
    if rules.len() == 0 {
        Seq::empty()
    } else {
        joined(rules.drop_last(), v) + contribution(rules.last(), v)
    }
}

/// The output for `v`: the joined texts of the matching rules, or the decimal
/// form of `v` when they join to nothing.
pub open spec fn outcome(rules: Seq<RuleView>, v: int) -> Seq<char> {
    let j = joined(rules, v);
    if j.len() == 0 {
        int_text(v)
    } else {
        j
    }
}

/// The output for each value of `vals`, in the same order.
pub open spec fn outcomes(rules: Seq<RuleView>, vals: Seq<int>) -> Seq<Seq<char>> {
    vals.map_values(|v: int| outcome(rules, v))
}

/// The integers that a sequence of values stands for.
pub open spec fn ints<T: FizzValue>(xs: Seq<T>) -> Seq<int> {
    xs.map_values(|x: T| x.as_int())
}

/// A rule: a divisor that selects values, and the text that replaces them.
pub struct Matcher<T: FizzValue> {
    divisor: T,
    substitution: String,
}

impl<T: FizzValue> View for Matcher<T> {
    type V = RuleView;

    closed spec fn view(&self) -> RuleView {
        RuleView { divisor: self.divisor.as_int(), text: self.substitution@ }
    }
}

impl<T: FizzValue> Matcher<T> {
    #[verifier::type_invariant]
    spec fn divisor_nonzero(&self) -> bool {
        self.divisor.as_int() != 0
    }

    /// A rule that replaces the multiples of `divisor` by `subs`.
    pub fn new(divisor: T, subs: &str) -> (r: Matcher<T>)
        requires
            divisor.as_int() != 0,
        ensures
            r@ == (RuleView { divisor: divisor.as_int(), text: subs@ }),
    {
        Matcher { divisor, substitution: String::from_str(subs) }
    }

    /// The rule's text when `value` is a multiple of its divisor, else `None`.
    pub fn check(&self, value: T) -> (r: Option<String>)
        ensures
            r is Some <==> divides(self@.divisor, value.as_int()),
            r matches Some(s) ==> s@ == self@.text,
    {
        proof {
            use_type_invariant(self);
        }
        if value.is_multiple_of(self.divisor) {
            Some(self.substitution.clone())
        } else {
            None
        }
    }
}

} // verus!
