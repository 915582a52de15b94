use toguru::{ParseError, ToggleState};

#[test]
fn parse_accepts_exact_names() {
    assert_eq!(ToggleState::parse("On"), Ok(ToggleState::On));
    assert_eq!(ToggleState::parse("Off"), Ok(ToggleState::Off));
}

#[test]
fn parse_refuses_other_case_and_other_text() {
    assert_eq!(ToggleState::parse("on"), Err(ParseError::VariantNotFound));
    assert_eq!(ToggleState::parse("OFF"), Err(ParseError::VariantNotFound));
    assert_eq!(ToggleState::parse(""), Err(ParseError::VariantNotFound));
    assert_eq!(ToggleState::parse("On "), Err(ParseError::VariantNotFound));
}

#[test]
fn to_string_gives_names() {
    assert_eq!(ToggleState::On.to_string(), "On");
    assert_eq!(ToggleState::Off.to_string(), "Off");
}

#[test]
fn printed_name_parses_back() {
    for state in [ToggleState::On, ToggleState::Off] {
        assert_eq!(ToggleState::parse(&state.to_string()), Ok(state));
    }
}
