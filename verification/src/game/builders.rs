//! The rules of the game put together from plain functions.

use vstd::prelude::*;
use crate::text::decimal;
use super::action::Action;
use super::action::NumberAction;
use super::action::StringAction;
use super::matcher::has_digit;
use super::matcher::AlwaysMatcher;
use super::matcher::ContainsMatcher;
use super::matcher::DivMatcher;
use super::matcher::Matcher;
use super::rule::all_of;
use super::rule::any_of;
use super::rule::AllOfRules;
use super::rule::AnyOfRules;
use super::rule::AtomRule;
use super::rule::Rule;

verus! {

pub fn div_matcher(divisor: u32) -> (matcher: Matcher)
    requires
        divisor != 0,
    ensures
        forall|number: u32| #[trigger] matcher.spec_matches(number) == (number % divisor == 0),
{
    Matcher::Div(DivMatcher::new(divisor))
}

pub fn contains_matcher(digit: u32) -> (matcher: Matcher)
    ensures
        forall|number: u32| #[trigger]
            matcher.spec_matches(number) == has_digit(number as nat, digit as nat),
{
    Matcher::Contains(ContainsMatcher::new(digit))
}

pub fn always_matcher() -> (matcher: Matcher)
    ensures
        forall|number: u32| #[trigger] matcher.spec_matches(number),
{
    Matcher::Always(AlwaysMatcher)
}

pub fn string_action(output: &'static str) -> (action: Action)
    ensures
        forall|number: u32| #[trigger] action.spec_say(number) == output@,
{
    Action::Text(StringAction::new(output))
}

pub fn number_action() -> (action: Action)
    ensures
        forall|number: u32| #[trigger] action.spec_say(number) == decimal(number as nat),
{
    Action::Number(NumberAction)
}

pub fn atom_rule(matcher: Matcher, action: Action) -> (rule: Rule)
    ensures
        forall|number: u32| #[trigger]
            rule.spec_apply(number) == if matcher.spec_matches(number) {
                action.spec_say(number)
            } else {
                Seq::<char>::empty()
            },
{
    Rule::Atom(AtomRule::new(matcher, action))
}

pub fn all_of_rule(rules: Vec<Rule>) -> (rule: Rule)
    ensures
        forall|number: u32| #[trigger] rule.spec_apply(number) == all_of(rules@, number),
{
    Rule::AllOf(AllOfRules { rules })
}

pub fn any_of_rule(rules: Vec<Rule>) -> (rule: Rule)
    ensures
        forall|number: u32| #[trigger] rule.spec_apply(number) == any_of(rules@, number),
{
    Rule::AnyOf(AnyOfRules { rules })
}

} // verus!
