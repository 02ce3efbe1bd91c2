use time_macros::error::{Error, InvalidFormatDescription};
use time_macros::span::Location;
use time_macros::token::SourceToken;

fn each_with_hints(span_start: Option<Location>, span_end: Option<Location>) -> Vec<Error> {
    vec![
        Error::MissingComponent { name: "year", span_start, span_end },
        Error::InvalidComponent { name: "year", value: "-0".to_string(), span_start, span_end },
        Error::InvalidFormatDescription {
            error: InvalidFormatDescription { message: "invalid component name".to_string() },
            span_start,
            span_end,
        },
        Error::Custom { message: "no".to_string(), span_start, span_end },
    ]
}

#[test]
fn without_hints_both_ends_are_the_invocation() {
    let mut errors = each_with_hints(None, None);
    errors.push(Error::ExpectedString);
    errors.push(Error::UnexpectedEndOfInput);
    assert_eq!(errors.len(), 6);
    for error in errors {
        assert_eq!(error.span_start(), Location::MixedSite);
        assert_eq!(error.span_end(), Location::MixedSite);
        assert_eq!(error.span_end(), error.span_start());
    }
}

#[test]
fn with_start_alone_the_end_is_the_start() {
    for error in each_with_hints(Some(Location::Input(5)), None) {
        assert_eq!(error.span_start(), Location::Input(5));
        assert_eq!(error.span_end(), Location::Input(5));
    }
}

#[test]
fn with_both_hints_both_are_kept() {
    for error in each_with_hints(Some(Location::Input(2)), Some(Location::Input(7))) {
        assert_eq!(error.span_start(), Location::Input(2));
        assert_eq!(error.span_end(), Location::Input(7));
    }
}

#[test]
fn with_end_alone_the_start_is_the_invocation() {
    for error in each_with_hints(None, Some(Location::Input(3))) {
        assert_eq!(error.span_start(), Location::MixedSite);
        assert_eq!(error.span_end(), Location::Input(3));
    }
}

#[test]
fn a_hint_may_name_the_invocation() {
    for error in each_with_hints(Some(Location::MixedSite), Some(Location::Input(0))) {
        assert_eq!(error.span_start(), Location::MixedSite);
        assert_eq!(error.span_end(), Location::Input(0));
    }
}

#[test]
fn unexpected_token_sits_at_its_token() {
    let token = SourceToken { text: "@".to_string(), span: Location::Input(11) };
    let error = Error::UnexpectedToken { token };
    assert_eq!(error.span_start(), Location::Input(11));
    assert_eq!(error.span_end(), Location::Input(11));
}

#[test]
fn unexpected_token_at_the_invocation() {
    let token = SourceToken { text: "@".to_string(), span: Location::MixedSite };
    let error = Error::UnexpectedToken { token };
    assert_eq!(error.span_start(), Location::MixedSite);
    assert_eq!(error.span_end(), Location::MixedSite);
}

#[test]
fn distinct_inputs_are_distinct_locations() {
    assert_ne!(Location::Input(0), Location::MixedSite);
    assert_ne!(Location::Input(0), Location::Input(1));
    assert_eq!(Location::Input(usize::MAX), Location::Input(usize::MAX));
}
