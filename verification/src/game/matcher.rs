//! Matchers: the conditions under which a rule speaks.

use vstd::prelude::*;

verus! {

/// Whether `digit` is one of the decimal digits of `number`.
pub open spec fn has_digit(number: nat, digit: nat) -> bool
    decreases number,
{
    number % 10 == digit || (number >= 10 && has_digit(number / 10, digit))
}

/// Matches the multiples of a divisor.
pub struct DivMatcher {
    divisor: u32,
}

impl DivMatcher {
    #[verifier::type_invariant]
    spec fn divides(self) -> bool {
        self.divisor != 0
    }

    pub closed spec fn spec_divisor(&self) -> u32 {
        self.divisor
    }

    pub open spec fn spec_matches(&self, number: u32) -> bool {
        number % self.spec_divisor() == 0
    }

    pub fn new(divisor: u32) -> (matcher: Self)
        requires
            divisor != 0,
        ensures
            matcher.spec_divisor() == divisor,
    {
        DivMatcher { divisor }
    }

    pub fn matches(&self, number: u32) -> (matched: bool)
        ensures
            matched == self.spec_matches(number),
    {
        proof {
            use_type_invariant(self);
        }
        number % self.divisor == 0
    }
}

/// Matches the numbers that are written with a given digit.
pub struct ContainsMatcher {
    digit: u32,
}

impl ContainsMatcher {
    pub closed spec fn spec_digit(&self) -> u32 {
        self.digit
    }

    pub open spec fn spec_matches(&self, number: u32) -> bool {
        has_digit(number as nat, self.spec_digit() as nat)
    }

    pub fn new(digit: u32) -> (matcher: Self)
        ensures
            matcher.spec_digit() == digit,
    {
        ContainsMatcher { digit }
    }

    pub fn matches(&self, number: u32) -> (matched: bool)
        ensures
            matched == self.spec_matches(number),
    {
        let mut rest: u32 = number;
        loop
            invariant
                has_digit(rest as nat, self.digit as nat) == has_digit(
                    number as nat,
                    self.digit as nat,
                ),
            decreases rest,
        {
            if rest % 10 == self.digit {
                return true;
            }
            if rest < 10 {
                return false;
            }
            rest = rest / 10;
        }
    }
}

/// Matches every number.
pub struct AlwaysMatcher;

impl AlwaysMatcher {
    pub fn matches(&self, number: u32) -> (matched: bool)
        ensures
            matched,
    {
        true
    }
}

/// Any of the matchers.
pub enum Matcher {
    Div(DivMatcher),
    Contains(ContainsMatcher),
    Always(AlwaysMatcher),
}

impl Matcher {
    pub open spec fn spec_matches(&self, number: u32) -> bool {
        match self {
            Matcher::Div(m) => m.spec_matches(number),
            Matcher::Contains(m) => m.spec_matches(number),
            Matcher::Always(_) => true,
        }
    }

    pub fn matches(&self, number: u32) -> (matched: bool)
        ensures
            matched == self.spec_matches(number),
    {
        match self {
            Matcher::Div(m) => m.matches(number),
            Matcher::Contains(m) => m.matches(number),
            Matcher::Always(m) => m.matches(number),
        }
    }
}

} // verus!
