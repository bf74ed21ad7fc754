use tbg::models::gender::GenderParseError;
use tbg::Gender;

#[test]
fn db_spelling_round_trips() {
    for g in [Gender::Male, Gender::Female, Gender::Unspecified] {
        assert_eq!(Gender::from_db_string(g.to_db_string()), g);
        assert_eq!(Gender::from_string(g.display_name()), g);
    }
}

#[test]
fn spellings() {
    assert_eq!(Gender::Male.to_db_string(), "male");
    assert_eq!(Gender::Female.to_db_string(), "female");
    assert_eq!(Gender::Unspecified.to_db_string(), "unspecified");
    assert_eq!(Gender::Male.display_name(), "Male");
    assert_eq!(Gender::Female.display_name(), "Female");
    assert_eq!(Gender::Unspecified.display_name(), "Choose not to specify");
}

#[test]
fn unknown_spellings_are_unspecified() {
    assert_eq!(Gender::from_string("male"), Gender::Unspecified);
    assert_eq!(Gender::from_string("Choose not to specify"), Gender::Unspecified);
    assert_eq!(Gender::from_db_string("MALE"), Gender::Unspecified);
    assert_eq!(Gender::from_db_string(""), Gender::Unspecified);
}

#[test]
fn parse_ignores_case_and_space() {
    assert_eq!("  MaLe \n".parse::<Gender>().unwrap(), Gender::Male);
    assert_eq!(Gender::parse("FEMALE").unwrap(), Gender::Female);
    assert_eq!(Gender::parse("\tunspecified").unwrap(), Gender::Unspecified);
}

#[test]
fn parse_error_holds_normalized_text() {
    let err = Gender::parse("  Robot ").unwrap_err();
    let GenderParseError::InvalidGender(text) = &err;
    assert_eq!(text, "robot");
    assert_eq!(err.message(), "Invalid gender: InvalidGender(\"robot\")");
    let shown = Gender::parse("Choose not to specify").unwrap_err();
    assert_eq!(shown.message(), "Invalid gender: InvalidGender(\"choose not to specify\")");
}
