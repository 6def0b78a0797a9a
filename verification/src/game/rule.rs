//! Rules: a matcher with its action, and the two ways of combining rules.

use vstd::prelude::*;
use vstd::string::StringExecFns;
use super::action::Action;
use super::matcher::Matcher;

verus! {

/// Says what its action says of the numbers that its matcher matches, and
/// nothing of the others.
pub struct AtomRule {
    pub matcher: Matcher,
    pub action: Action,
}

/// Says what all of its rules say, one after the other.
pub struct AllOfRules {
    pub rules: Vec<Rule>,
}

/// Says what the first of its rules that says anything says.
pub struct AnyOfRules {
    pub rules: Vec<Rule>,
}

pub enum Rule {
    Atom(AtomRule),
    AllOf(AllOfRules),
    AnyOf(AnyOfRules),
}

/// What `rules` say of `number`, put together in their order.
pub open spec fn all_of(rules: Seq<Rule>, number: u32) -> Seq<char>
    decreases rules, 0nat,
{
    if rules.len() == 0 {
        Seq::empty()
    } else {
        all_of(rules.drop_last(), number) + rules.last().spec_apply(number)
    }
}

/// What the first of `rules` that says anything of `number` says; nothing
/// where none does.
pub open spec fn any_of(rules: Seq<Rule>, number: u32) -> Seq<char>
    decreases rules, 0nat,
{
    if rules.len() == 0 {
        Seq::empty()
    } else if rules.first().spec_apply(number).len() > 0 {
        rules.first().spec_apply(number)
    } else {
        any_of(rules.drop_first(), number)
    }
}

impl AtomRule {
    pub open spec fn spec_apply(&self, number: u32) -> Seq<char> {
        if self.matcher.spec_matches(number) {
            self.action.spec_say(number)
        } else {
            Seq::empty()
        }
    }

    pub fn new(matcher: Matcher, action: Action) -> (rule: Self)
        ensures
            rule.matcher == matcher,
            rule.action == action,
    {
        AtomRule { matcher, action }
    }

    pub fn apply(&self, number: u32) -> (said: String)
        ensures
            said@ == self.spec_apply(number),
    {
        if self.matcher.matches(number) {
            self.action.say(number)
        } else {
            String::new()
        }
    }
}

impl Rule {
    pub open spec fn spec_apply(&self, number: u32) -> Seq<char>
        decreases self, 1nat,
    {
        match self {
            Rule::Atom(rule) => rule.spec_apply(number),
            Rule::AllOf(rule) => all_of(rule.rules@, number),
            Rule::AnyOf(rule) => any_of(rule.rules@, number),
        }
    }

    pub fn apply(&self, number: u32) -> (said: String)
        ensures
            said@ == self.spec_apply(number),
        decreases self, 1nat,
    {
        match self {
            Rule::Atom(rule) => rule.apply(number),
            Rule::AllOf(rule) => rule.apply(number),
            Rule::AnyOf(rule) => rule.apply(number),
        }
    }
}

impl AllOfRules {
    pub open spec fn spec_apply(&self, number: u32) -> Seq<char> {
        all_of(self.rules@, number)
    }

    pub fn apply(&self, number: u32) -> (said: String)
        ensures
            said@ == self.spec_apply(number),
        decreases self, 0nat,
    {
        let mut said = String::new();
        let mut i: usize = 0;
        while i < self.rules.len()
            invariant
                i <= self.rules.len(),
                said@ == all_of(self.rules@.take(i as int), number),
            decreases self.rules.len() - i,
        {
            let next = self.rules[i].apply(number);
            proof {
                let upto = self.rules@.take(i + 1);
                assert(upto.drop_last() =~= self.rules@.take(i as int));
                assert(upto.last() == self.rules@[i as int]);
            }
            said.append(next.as_str());
            i = i + 1;
        }
        assert(self.rules@.take(i as int) =~= self.rules@);
        said
    }
}

impl AnyOfRules {
    pub open spec fn spec_apply(&self, number: u32) -> Seq<char> {
        any_of(self.rules@, number)
    }

    pub fn apply(&self, number: u32) -> (said: String)
        ensures
            said@ == self.spec_apply(number),
        decreases self, 0nat,
    {
        let mut i: usize = 0;
        assert(self.rules@.skip(0) =~= self.rules@);
        while i < self.rules.len()
            invariant
                i <= self.rules.len(),
                any_of(self.rules@, number) == any_of(self.rules@.skip(i as int), number),
            decreases self.rules.len() - i,
        {
            let said = self.rules[i].apply(number);
            proof {
                let rest = self.rules@.skip(i as int);
                assert(rest.first() == self.rules@[i as int]);
                assert(rest.drop_first() =~= self.rules@.skip(i + 1));
            }
            if !said.as_str().is_empty() {
                return said;
            }
            i = i + 1;
        }
        String::new()
    }
}

} // verus!
