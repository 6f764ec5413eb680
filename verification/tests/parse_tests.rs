use line_ed::address::{Address, AddressToken};
use line_ed::command::{Command, CommandToken};
use line_ed::errors::EdError;

fn chars(s: &str) -> Vec<char> {
    s.chars().collect()
}

#[test]
fn bare_line_is_print_and_set() {
    let c = Command::parse("").unwrap();
    assert_eq!(c.address, None);
    assert_eq!(c.kind, CommandToken::PrintAndSet);
}

#[test]
fn print_with_range() {
    let c = Command::parse("1,2p").unwrap();
    assert_eq!(
        c.address,
        Some(Address::Range { start: AddressToken::Number(1), end: AddressToken::Number(2) })
    );
    assert_eq!(c.kind, CommandToken::Print);
}

#[test]
fn dollar_alone_is_print_and_set_of_last_line() {
    let c = Command::parse("$").unwrap();
    assert_eq!(c.address, Some(Address::Single(AddressToken::Dollar)));
    assert_eq!(c.kind, CommandToken::PrintAndSet);
}

#[test]
fn dollar_range() {
    let c = Command::parse("1,$d").unwrap();
    assert_eq!(
        c.address,
        Some(Address::Range { start: AddressToken::Number(1), end: AddressToken::Dollar })
    );
    assert_eq!(c.kind, CommandToken::Delete);
}

#[test]
fn trailing_comma_degrades_to_single() {
    let c = Command::parse("3,p").unwrap();
    assert_eq!(c.address, Some(Address::Single(AddressToken::Number(3))));
    assert_eq!(c.kind, CommandToken::Print);
}

#[test]
fn single_letter_verbs() {
    assert_eq!(Command::parse("a").unwrap().kind, CommandToken::Append);
    assert_eq!(Command::parse("i").unwrap().kind, CommandToken::Insert);
    assert_eq!(Command::parse("c").unwrap().kind, CommandToken::Change);
    assert_eq!(Command::parse("d").unwrap().kind, CommandToken::Delete);
    assert_eq!(Command::parse("p").unwrap().kind, CommandToken::Print);
}

#[test]
fn edit_with_path() {
    let c = Command::parse("e foo.txt").unwrap();
    assert_eq!(c.address, None);
    assert_eq!(c.kind, CommandToken::Edit(Some(chars("foo.txt"))));
}

#[test]
fn edit_without_path() {
    let c = Command::parse("e").unwrap();
    assert_eq!(c.kind, CommandToken::Edit(None));
}

#[test]
fn write_without_path() {
    let c = Command::parse("w").unwrap();
    assert_eq!(c.address, None);
    assert_eq!(c.kind, CommandToken::Write(None));
}

#[test]
fn write_path_is_rest_of_line_verbatim() {
    // One separator; everything after it, spaces included, is the path.
    let c = Command::parse("w  spaced name").unwrap();
    assert_eq!(c.kind, CommandToken::Write(Some(chars(" spaced name"))));
}

#[test]
fn addressed_write_with_path() {
    let c = Command::parse("2,3w out.txt").unwrap();
    assert_eq!(
        c.address,
        Some(Address::Range { start: AddressToken::Number(2), end: AddressToken::Number(3) })
    );
    assert_eq!(c.kind, CommandToken::Write(Some(chars("out.txt"))));
}

#[test]
fn unknown_verb_is_rejected() {
    assert_eq!(Command::parse("x"), Err(EdError::UnknownCommand));
    assert_eq!(Command::parse("1q"), Err(EdError::UnknownCommand));
}

#[test]
fn leftover_input_is_rejected() {
    assert_eq!(Command::parse("pp"), Err(EdError::ExtraTrailingCharacters));
    assert_eq!(Command::parse("1d2"), Err(EdError::ExtraTrailingCharacters));
}

#[test]
fn missing_argument_is_rejected() {
    assert_eq!(Command::parse("e "), Err(EdError::MissingCommandArgument));
    assert_eq!(Command::parse("w "), Err(EdError::MissingCommandArgument));
}

#[test]
fn missing_separator_is_rejected() {
    assert_eq!(Command::parse("wfoo"), Err(EdError::ExpectedSeparator));
    assert_eq!(Command::parse("efoo"), Err(EdError::ExpectedSeparator));
}

#[test]
fn any_whitespace_character_separates_the_path() {
    assert_eq!(
        Command::parse("w\tfoo").unwrap().kind,
        CommandToken::Write(Some(chars("foo")))
    );
    assert_eq!(
        Command::parse("w\u{000B}foo").unwrap().kind,
        CommandToken::Write(Some(chars("foo")))
    );
    assert_eq!(
        Command::parse("e\u{00A0}foo").unwrap().kind,
        CommandToken::Edit(Some(chars("foo")))
    );
    assert_eq!(
        Command::parse("e\u{3000}foo").unwrap().kind,
        CommandToken::Edit(Some(chars("foo")))
    );
}

#[test]
fn whitespace_with_nothing_after_is_a_missing_argument() {
    assert_eq!(Command::parse("w\u{000B}"), Err(EdError::MissingCommandArgument));
    assert_eq!(Command::parse("e\u{0085}"), Err(EdError::MissingCommandArgument));
}

#[test]
fn numeric_address_at_word_limit_parses() {
    let c = Command::parse("18446744073709551615p").unwrap();
    assert_eq!(c.address, Some(Address::Single(AddressToken::Number(usize::MAX))));
}

#[test]
fn numeric_address_overflow_is_an_error_not_a_panic() {
    assert_eq!(
        Command::parse("18446744073709551616p"),
        Err(EdError::AddressParseFailure)
    );
    assert_eq!(
        Command::parse("99999999999999999999999999p"),
        Err(EdError::AddressParseFailure)
    );
}

#[test]
fn leading_zeroes_parse_as_number() {
    let c = Command::parse("007p").unwrap();
    assert_eq!(c.address, Some(Address::Single(AddressToken::Number(7))));
}
