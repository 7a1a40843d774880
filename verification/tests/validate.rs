use recent_messages2::validate::{validate_login, Error};

#[test]
fn logins_of_one_to_twenty_five_allowed_characters_pass() {
    assert_eq!(validate_login("pajlada"), Ok(()));
    assert_eq!(validate_login("a"), Ok(()));
    assert_eq!(validate_login("_"), Ok(()));
    assert_eq!(validate_login("pajlada_0123456789"), Ok(()));
    assert_eq!(validate_login("1234567890123456789012345"), Ok(()));
    assert_eq!(validate_login("abcdefghijklmnopqrstuvwxy"), Ok(()));
}

#[test]
fn an_empty_login_is_too_short() {
    assert_eq!(validate_login(""), Err(Error::TooShort { login: "".to_owned() }));
}

#[test]
fn a_login_of_twenty_six_characters_is_too_long() {
    assert_eq!(
        validate_login("12345678901234567890123456"),
        Err(Error::TooLong { login: "12345678901234567890123456".to_owned() })
    );
    assert_eq!(
        validate_login("12345678901234567890123456789"),
        Err(Error::TooLong { login: "12345678901234567890123456789".to_owned() })
    );
}

#[test]
fn the_first_character_that_is_not_allowed_is_reported() {
    assert_eq!(
        validate_login("pajLada"),
        Err(Error::InvalidCharacter { login: "pajLada".to_owned(), position: 3, character: 'L' })
    );
    assert_eq!(
        validate_login("pajlada,def"),
        Err(Error::InvalidCharacter { login: "pajlada,def".to_owned(), position: 7, character: ',' })
    );
    assert_eq!(
        validate_login("pajlada-def"),
        Err(Error::InvalidCharacter { login: "pajlada-def".to_owned(), position: 7, character: '-' })
    );
    assert_eq!(
        validate_login("#chan"),
        Err(Error::InvalidCharacter { login: "#chan".to_owned(), position: 0, character: '#' })
    );
    assert_eq!(
        validate_login("\u{e9}t\u{e9}"),
        Err(Error::InvalidCharacter { login: "\u{e9}t\u{e9}".to_owned(), position: 0, character: '\u{e9}' })
    );
}

#[test]
fn the_reading_ends_at_the_twenty_sixth_character() {
    // An invalid character at place 25 is still met, one at place 26 is not.
    assert_eq!(
        validate_login("1234567890123456789012345!"),
        Err(Error::InvalidCharacter {
            login: "1234567890123456789012345!".to_owned(),
            position: 25,
            character: '!'
        })
    );
    assert_eq!(
        validate_login("12345678901234567890123456!"),
        Err(Error::TooLong { login: "12345678901234567890123456!".to_owned() })
    );
}

#[test]
fn login_errors_are_written_as_sentences() {
    assert_eq!(
        validate_login("pajLada").unwrap_err().to_string(),
        "Invalid login name `pajLada`: Invalid character `L` encountered at position `3`"
    );
    assert_eq!(
        validate_login("").unwrap_err().to_string(),
        "Invalid login name ``: Login name is too short (must be at least one character long)"
    );
    assert_eq!(
        validate_login("12345678901234567890123456").unwrap_err().to_string(),
        "Invalid login name `12345678901234567890123456`: Login name exceeds maximum length of 25 characters"
    );
}

#[test]
fn validation_agrees_with_the_irc_library() {
    for login in [
        "", "a", "pajlada", "pajLada", "pajlada,def", "1234567890123456789012345",
        "12345678901234567890123456", "1234567890123456789012345!", "12345678901234567890123456!",
        "with space", "\u{e9}", "_under_score_", "UPPER",
    ] {
        let ours = validate_login(login);
        let theirs = twitch_irc::validate::validate_login(login);
        assert_eq!(ours.is_ok(), theirs.is_ok(), "{:?}", login);
        if let (Err(ours), Err(theirs)) = (ours, theirs) {
            assert_eq!(ours.to_string(), theirs.to_string());
        }
    }
}
