//! An ordered set of rules, and its application to values.

use vstd::prelude::*;
use crate::rules::{contribution, ints, joined, outcome, outcomes, Matcher, RuleView};
use crate::value::FizzValue;

verus! {

/// The rules of `fizz_buzz`: multiples of 3 give `fizz`, then multiples of 5 give `buzz`.
pub open spec fn fizz_buzz_rules() -> Seq<RuleView> {
    seq![
        RuleView { divisor: 3, text: "fizz"@ },
        RuleView { divisor: 5, text: "buzz"@ },
    ]
}

/// An ordered sequence of rules; the order decides the order of the texts.
pub struct Fizzy<T: FizzValue> {
    matchers: Vec<Matcher<T>>,
}

impl<T: FizzValue> View for Fizzy<T> {
    type V = Seq<RuleView>;

    closed spec fn view(&self) -> Seq<RuleView> {
        self.matchers@.map_values(|m: Matcher<T>| m@)
    }
}

impl<T: FizzValue> Fizzy<T> {
    /// A rule set with no rules.
    pub fn new() -> (r: Self)
        ensures
            r@ == Seq::<RuleView>::empty(),
    {
        let r = Fizzy { matchers: Vec::new() };
        assert(r@ =~= Seq::<RuleView>::empty());
        r
    }

    /// This rule set with `matcher` added after its rules.
    pub fn add_matcher(self, matcher: Matcher<T>) -> (r: Self)
        ensures
            r@ == self@.push(matcher@),
    {
        let mut matchers = self.matchers;
        let ghost before = matchers@;
        matchers.push(matcher);
        let r = Fizzy { matchers };
        assert(r@ =~= before.map_values(|m: Matcher<T>| m@).push(matcher@));
        r
    }

    /// The output for one value: the texts of the matching rules in rule
    /// order, or the value's decimal form when they make an empty text.
    pub fn substitute(&self, value: T) -> (r: String)
        ensures
            r@ == outcome(self@, value.as_int()),
    {
        let ghost v = value.as_int();
        let mut result = String::new();
        let mut i: usize = 0;
        while i < self.matchers.len()
            invariant
                i <= self.matchers@.len(),
                v == value.as_int(),
                result@ == joined(self@.take(i as int), v),
            decreases self.matchers@.len() - i,
        {
            let found = self.matchers[i].check(value);
            let ghost rule = self.matchers@[i as int]@;
            proof {
                let next = self@.take(i as int + 1);
                assert(next.drop_last() =~= self@.take(i as int));
                assert(next.last() == rule);
            }
            if let Some(sub) = found {
                result.append(sub.as_str());
            } else {
                assert(result@ =~= result@ + contribution(rule, v));
            }
            i = i + 1;
        }
        assert(self@.take(i as int) =~= self@);
        if result.as_str().is_empty() {
            value.to_text()
        } else {
            result
        }
    }

    /// The output for each value of `input`, in input order.
    pub fn apply(&self, input: &[T]) -> (r: Vec<String>)
        ensures
            r@.len() == input@.len(),
            forall|k: int| 0 <= k < input@.len() ==> #[trigger] r@[k]@ == outcome(self@, input@[k].as_int()),
            r@.map_values(|s: String| s@) == outcomes(self@, ints(input@)),
    {
        let mut out: Vec<String> = Vec::new();
        let mut i: usize = 0;
        while i < input.len()
            invariant
                i <= input@.len(),
                out@.len() == i,
                forall|k: int| 0 <= k < i ==> #[trigger] out@[k]@ == outcome(self@, input@[k].as_int()),
            decreases input@.len() - i,
        {
            let s = self.substitute(input[i]);
            out.push(s);
            i = i + 1;
        }
        assert(out@.map_values(|s: String| s@) =~= outcomes(self@, ints(input@)));
        out
    }
}

/// The classic rule set: `fizz` for multiples of 3, then `buzz` for multiples of 5.
pub fn fizz_buzz<T: FizzValue>() -> (r: Fizzy<T>)
    ensures
        r@ == fizz_buzz_rules(),
{
    let r = Fizzy::new()
        .add_matcher(Matcher::new(T::from_u8(3), "fizz"))
        .add_matcher(Matcher::new(T::from_u8(5), "buzz"));
    assert(r@ =~= fizz_buzz_rules());
    r
}

} // verus!
