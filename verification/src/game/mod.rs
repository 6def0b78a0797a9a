//! The counting game: a number is answered by what a tree of rules makes of it.

use vstd::prelude::*;
use rayon::iter::IntoParallelIterator;
use rayon::iter::ParallelIterator;

pub mod action;
pub mod builders;
pub mod matcher;
pub mod rule;

use crate::text::decimal;
use builders::all_of_rule;
use builders::always_matcher;
use builders::any_of_rule;
use builders::atom_rule;
use builders::contains_matcher;
use builders::div_matcher;
use builders::number_action;
use builders::string_action;
use matcher::has_digit;
use rule::Rule;

verus! {

/// The word for the multiples of `divisor`, or nothing.
pub open spec fn word_if_multiple(number: u32, divisor: int, word: Seq<char>) -> Seq<char> {
    if number as int % divisor == 0 {
        word
    } else {
        Seq::empty()
    }
}

/// What the words of the three divisors come to for `number`.
pub open spec fn multiples_answer(number: u32) -> Seq<char> {
    word_if_multiple(number, 3, "fizz"@) + word_if_multiple(number, 5, "buzz"@)
        + word_if_multiple(number, 7, "whizz"@)
}

/// The answer of the standard game: "fizz" for a number written with a 3;
/// else the words of the divisors 3, 5 and 7 that divide it; else the number.
pub open spec fn standard_answer(number: u32) -> Seq<char> {
    if has_digit(number as nat, 3) {
        "fizz"@
    } else if multiples_answer(number).len() > 0 {
        multiples_answer(number)
    } else {
        decimal(number as nat)
    }
}

/// A game: the rule that answers each number.
pub struct FizzBuzzWhizz {
    rule: Rule,
}

impl FizzBuzzWhizz {
    /// The answer to `number`.
    pub closed spec fn answer(&self, number: u32) -> Seq<char> {
        self.rule.spec_apply(number)
    }

    /// A game played by `rule`.
    pub fn from_rule(rule: Rule) -> (game: Self)
        ensures
            forall|number: u32| #[trigger] game.answer(number) == rule.spec_apply(number),
    {
        FizzBuzzWhizz { rule }
    }

    /// The standard game.
    pub fn new() -> (game: Self)
        ensures
            forall|number: u32| #[trigger] game.answer(number) == standard_answer(number),
    {
        let contains = atom_rule(contains_matcher(3), string_action("fizz"));
        let fizz = atom_rule(div_matcher(3), string_action("fizz"));
        let buzz = atom_rule(div_matcher(5), string_action("buzz"));
        let whizz = atom_rule(div_matcher(7), string_action("whizz"));
        let fallback = atom_rule(always_matcher(), number_action());
        let mut multiples: Vec<Rule> = Vec::new();
        multiples.push(fizz);
        multiples.push(buzz);
        multiples.push(whizz);
        let ghost divisors = multiples@;
        let divisible = all_of_rule(multiples);
        let mut rules: Vec<Rule> = Vec::new();
        rules.push(contains);
        rules.push(divisible);
        rules.push(fallback);
        let ghost choices = rules@;
        let rule = any_of_rule(rules);
        proof {
            reveal_strlit("fizz");
            assert forall|number: u32| #[trigger]
                rule.spec_apply(number) == standard_answer(number) by {
                lemma_standard(divisors, choices, number);
            }
        }
        FizzBuzzWhizz { rule }
    }

    pub fn apply(&self, number: u32) -> (said: String)
        ensures
            said@ == self.answer(number),
    {
        self.rule.apply(number)
    }
}

/// Three rules for the divisors, then three choices, answer as the standard
/// game does.
proof fn lemma_standard(divisors: Seq<Rule>, choices: Seq<Rule>, number: u32)
    requires
        divisors.len() == 3,
        divisors[0].spec_apply(number) == word_if_multiple(number, 3, "fizz"@),
        divisors[1].spec_apply(number) == word_if_multiple(number, 5, "buzz"@),
        divisors[2].spec_apply(number) == word_if_multiple(number, 7, "whizz"@),
        choices.len() == 3,
        choices[0].spec_apply(number) == if has_digit(number as nat, 3) {
            "fizz"@
        } else {
            Seq::<char>::empty()
        },
        choices[1].spec_apply(number) == rule::all_of(divisors, number),
        choices[2].spec_apply(number) == decimal(number as nat),
        "fizz"@.len() > 0,
    ensures
        rule::any_of(choices, number) == standard_answer(number),
{
    let one = divisors.drop_last().drop_last();
    let two = divisors.drop_last();
    assert(one.drop_last().len() == 0);
    assert(rule::all_of(one.drop_last(), number) =~= Seq::<char>::empty());
    assert(rule::all_of(one, number) =~= word_if_multiple(number, 3, "fizz"@));
    assert(rule::all_of(two, number) =~= word_if_multiple(number, 3, "fizz"@) + word_if_multiple(
        number,
        5,
        "buzz"@,
    ));
    assert(rule::all_of(divisors, number) =~= multiples_answer(number));
    let later = choices.drop_first();
    let last = later.drop_first();
    assert(last.drop_first().len() == 0);
    assert(decimal(number as nat).len() > 0);
    assert(rule::any_of(last, number) == decimal(number as nat));
    assert(rule::any_of(later, number) == if multiples_answer(number).len() > 0 {
        multiples_answer(number)
    } else {
        decimal(number as nat)
    });
}

/// `into_par_iter` of a range, `map` and `collect` of rayon: `f` is called
/// on every number from `first` up to but without `end`, on the pool's
/// workers, and the results are gathered in the order of the numbers.
#[verifier::external_body]
fn range_par_map<R: Send, F: Fn(u32) -> R + Send + Sync>(first: u32, end: u32, f: F) -> (results:
    Vec<R>)
    requires
        forall|number: u32| first <= number < end ==> call_requires(f, (number,)),
    ensures
        results.len() == if first <= end {
            end - first
        } else {
            0
        },
        forall|i: int|
            0 <= i < results.len() ==> call_ensures(
                f,
                ((first + i) as u32,),
                #[trigger] results[i],
            ),
{
    (first..end).into_par_iter().map(f).collect()
}

/// The answers of the standard game to the numbers from 1 up to but without
/// `max`, in their order.
pub fn play_result(max: u32) -> (answers: Vec<String>)
    ensures
        answers.len() == if max >= 1 {
            max - 1
        } else {
            0
        },
        forall|i: int| 0 <= i < answers.len() ==> (#[trigger] answers[i])@ == standard_answer((i + 1) as u32),
{
    let game = FizzBuzzWhizz::new();
    let answer = |number: u32| -> (said: String)
        ensures
            said@ == standard_answer(number),
        {
            game.apply(number)
        };
    range_par_map(1, max, answer)
}

} // verus!
