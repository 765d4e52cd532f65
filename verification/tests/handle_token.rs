use ashpd::desktop::handle_token::{HandleToken, HandleTokenGenerator};
use ashpd::Error;

fn follows_grammar(text: &str) -> bool {
    let mut chars = text.chars();
    match chars.next() {
        None => false,
        Some(first) => {
            !first.is_ascii_digit()
                && text.chars().all(|c| c.is_ascii_alphanumeric() || c == '_')
        }
    }
}

#[test]
fn first_generated_token() {
    let mut generator = HandleTokenGenerator::new();
    assert_eq!(generator.generate().as_str(), "ashpd_1");
}

#[test]
fn generated_tokens_count_upwards() {
    let mut generator = HandleTokenGenerator::default();
    let texts: Vec<String> = (0..12)
        .map(|_| generator.generate().as_str().to_owned())
        .collect();
    assert_eq!(texts[0], "ashpd_1");
    assert_eq!(texts[8], "ashpd_9");
    assert_eq!(texts[9], "ashpd_10");
    assert_eq!(texts[11], "ashpd_12");
}

#[test]
fn generated_tokens_follow_the_grammar() {
    let mut generator = HandleTokenGenerator::new();
    for _ in 0..1000 {
        let token = generator.generate();
        assert!(follows_grammar(token.as_str()), "{}", token.as_str());
    }
}

#[test]
fn successive_tokens_differ() {
    let mut generator = HandleTokenGenerator::new();
    let mut previous = generator.generate();
    for _ in 0..1000 {
        let next = generator.generate();
        assert_ne!(previous, next);
        previous = next;
    }
}

#[test]
fn no_token_repeats_among_many() {
    let mut generator = HandleTokenGenerator::new();
    let mut seen = std::collections::HashSet::new();
    for _ in 0..5000 {
        assert!(seen.insert(generator.generate().as_str().to_owned()));
    }
}

#[test]
fn chosen_token_is_kept_as_given() {
    let token = HandleToken::new("my_Token_42").unwrap();
    assert_eq!(token.as_str(), "my_Token_42");
    assert_eq!(token.clone(), token);
}

#[test]
fn underscore_may_lead_a_token() {
    assert_eq!(HandleToken::new("_1").unwrap().as_str(), "_1");
}

#[test]
fn token_with_leading_digit_is_refused() {
    assert_eq!(
        HandleToken::new("1abc"),
        Err(Error::ParseError("Invalid handle token"))
    );
}

#[test]
fn empty_token_is_refused() {
    assert_eq!(
        HandleToken::new(""),
        Err(Error::ParseError("Invalid handle token"))
    );
}

#[test]
fn token_with_other_characters_is_refused() {
    for text in ["a-b", "a.b", "a/b", "a b", "tok\u{e9}n", "a\u{0}", "\u{4e2d}"] {
        assert_eq!(
            HandleToken::new(text),
            Err(Error::ParseError("Invalid handle token")),
            "{:?}",
            text
        );
    }
}

#[test]
fn counter_starts_over_after_its_largest_value() {
    let mut generator = HandleTokenGenerator::starting_at(u64::MAX - 1);
    assert_eq!(generator.generate().as_str(), "ashpd_18446744073709551614");
    assert_eq!(generator.generate().as_str(), "ashpd_18446744073709551615");
    assert_eq!(generator.generate().as_str(), "ashpd_0");
    assert_eq!(generator.generate().as_str(), "ashpd_1");
}

#[test]
fn numerals_have_no_leading_zeros() {
    for (counter, text) in [
        (0u64, "ashpd_0"),
        (9, "ashpd_9"),
        (10, "ashpd_10"),
        (100, "ashpd_100"),
        (1_000_000, "ashpd_1000000"),
        (9_007_199_254_740_993, "ashpd_9007199254740993"),
    ] {
        let mut generator = HandleTokenGenerator::starting_at(counter);
        assert_eq!(generator.generate().as_str(), text);
    }
}
