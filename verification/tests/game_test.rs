use resource::game::action::Action;
use resource::game::action::NumberAction;
use resource::game::action::StringAction;
use resource::game::builders::all_of_rule;
use resource::game::builders::always_matcher;
use resource::game::builders::any_of_rule;
use resource::game::builders::atom_rule;
use resource::game::builders::contains_matcher;
use resource::game::builders::div_matcher;
use resource::game::builders::number_action;
use resource::game::builders::string_action;
use resource::game::matcher::AlwaysMatcher;
use resource::game::matcher::ContainsMatcher;
use resource::game::matcher::DivMatcher;
use resource::game::matcher::Matcher;
use resource::game::play_result;
use resource::game::rule::AllOfRules;
use resource::game::rule::AnyOfRules;
use resource::game::rule::AtomRule;
use resource::game::rule::Rule;
use resource::game::FizzBuzzWhizz;

fn expected_answers() -> Vec<(u32, &'static str)> {
    vec![
        (1, "1"),
        (2, "2"),
        (3, "fizz"),
        (5, "buzz"),
        (7, "whizz"),
        (13, "fizz"),
        (15, "fizzbuzz"),
        (21, "fizzwhizz"),
        (31, "fizz"),
        (35, "fizz"),
        (70, "buzzwhizz"),
        (105, "fizzbuzzwhizz"),
    ]
}

#[test]
fn game_v3_test_fizz_buzz_whizz() {
    let contain_3 = Rule::Atom(AtomRule::new(
        Matcher::Contains(ContainsMatcher::new(3)),
        Action::Text(StringAction::new("fizz")),
    ));
    let div_3 = Rule::Atom(AtomRule::new(
        Matcher::Div(DivMatcher::new(3)),
        Action::Text(StringAction::new("fizz")),
    ));
    let div_5 = Rule::Atom(AtomRule::new(
        Matcher::Div(DivMatcher::new(5)),
        Action::Text(StringAction::new("buzz")),
    ));
    let div_7 = Rule::Atom(AtomRule::new(
        Matcher::Div(DivMatcher::new(7)),
        Action::Text(StringAction::new("whizz")),
    ));
    let default_rule = Rule::Atom(AtomRule::new(
        Matcher::Always(AlwaysMatcher),
        Action::Number(NumberAction),
    ));

    let all_of_rules = Rule::AllOf(AllOfRules {
        rules: vec![div_3, div_5, div_7],
    });

    let any_of_rules = Rule::AnyOf(AnyOfRules {
        rules: vec![contain_3, all_of_rules, default_rule],
    });

    let game = FizzBuzzWhizz::from_rule(any_of_rules);

    for (input, expected_output) in expected_answers() {
        let result = game.apply(input);
        assert_eq!(
            result, expected_output,
            "For input {}, expected {} but got {}",
            input, expected_output, result
        );
    }
}

#[test]
fn game_v4_test_fizz_buzz_whizz() {
    let rule_contains_3 = atom_rule(contains_matcher(3), string_action("fizz"));
    let rule_div_3 = atom_rule(div_matcher(3), string_action("fizz"));
    let rule_div_5 = atom_rule(div_matcher(5), string_action("buzz"));
    let rule_div_7 = atom_rule(div_matcher(7), string_action("whizz"));
    let default_rule = atom_rule(always_matcher(), number_action());

    let div_rules = vec![rule_div_3, rule_div_5, rule_div_7];
    let all_rules = all_of_rule(div_rules);

    let any_rules = vec![rule_contains_3, all_rules, default_rule];
    let game_rule = any_of_rule(any_rules);

    let game = FizzBuzzWhizz::from_rule(game_rule);

    for (input, expected_output) in expected_answers() {
        let result = game.apply(input);
        assert_eq!(
            result, expected_output,
            "For input {}, expected {} but got {}",
            input, expected_output, result
        );
    }
}

#[test]
fn standard_game_answers_as_the_rules_say() {
    let game = FizzBuzzWhizz::new();
    for (input, expected_output) in expected_answers() {
        assert_eq!(game.apply(input), expected_output);
    }
    assert_eq!(game.apply(0), "fizzbuzzwhizz");
    assert_eq!(game.apply(4294967295), "fizzbuzz");
    assert_eq!(game.apply(3000000001), "fizz");
    assert_eq!(game.apply(1000000000), "buzz");
    assert_eq!(game.apply(4000000000), "buzz");
    assert_eq!(game.apply(4222222222), "4222222222");
}

#[test]
fn play_result_answers_in_order() {
    let answers = play_result(16);
    assert_eq!(answers.len(), 15);
    assert_eq!(
        answers,
        vec![
            "1", "2", "fizz", "4", "buzz", "fizz", "whizz", "8", "fizz", "buzz", "11", "fizz",
            "fizz", "whizz", "fizzbuzz"
        ]
    );
    assert_eq!(play_result(1).len(), 0);
    assert_eq!(play_result(0).len(), 0);
}

#[test]
fn contains_matcher_looks_at_every_digit() {
    assert!(ContainsMatcher::new(0).matches(0));
    assert!(ContainsMatcher::new(0).matches(105));
    assert!(!ContainsMatcher::new(0).matches(15));
    assert!(ContainsMatcher::new(3).matches(30001));
    assert!(!ContainsMatcher::new(13).matches(130));
}
