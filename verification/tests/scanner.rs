use learn_to_write_a_compiler::scanner::{
    digit_value, is_decimal_digit, is_word_character, is_word_character_given,
    significant_tokens, visible_tokens, KeywordToken, Precedence, ScannerError, Token,
    TokenIterator,
};
use learn_to_write_a_compiler::text::append_decimal;

fn chars(text: &str) -> Vec<char> {
    text.chars().collect()
}

fn scan_all(text: &str) -> Vec<Token> {
    let mut scanner = TokenIterator::new_iterator(chars(text));
    let mut tokens = Vec::new();
    while let Some(token) = scanner.next() {
        tokens.push(token.expect("a token"));
    }
    tokens
}

fn first_error(text: &str) -> ScannerError {
    let mut scanner = TokenIterator::new_iterator(chars(text));
    loop {
        match scanner.next() {
            Some(Ok(_)) => {}
            Some(Err(e)) => return e,
            None => panic!("scanned without an error"),
        }
    }
}

#[test]
fn empty_input_has_no_tokens() {
    let mut scanner = TokenIterator::new_iterator(Vec::new());
    assert_eq!(scanner.next(), None);
    assert_eq!(scanner.next(), None);
}

#[test]
fn single_character_operators() {
    assert_eq!(
        scan_all("+-*/;"),
        vec![Token::Plus, Token::Minus, Token::Star, Token::Slash, Token::SemiColon]
    );
}

#[test]
fn two_character_operators_take_the_equals_sign() {
    assert_eq!(
        scan_all("<=>===!="),
        vec![Token::LessThanEqual, Token::GreaterThanEqual, Token::Equality, Token::NotEqual]
    );
}

#[test]
fn one_character_relations_and_assignment() {
    assert_eq!(scan_all("<"), vec![Token::LessThan]);
    assert_eq!(scan_all(">"), vec![Token::GreaterThan]);
    assert_eq!(scan_all("="), vec![Token::Assignment]);
    assert_eq!(scan_all("<1"), vec![Token::LessThan, Token::U32(1)]);
    assert_eq!(scan_all("= ="), vec![Token::Assignment, Token::Space, Token::Assignment]);
}

#[test]
fn three_equals_signs_are_equality_then_assignment() {
    assert_eq!(scan_all("==="), vec![Token::Equality, Token::Assignment]);
}

#[test]
fn digits_become_one_literal() {
    assert_eq!(scan_all("0"), vec![Token::U32(0)]);
    assert_eq!(scan_all("7"), vec![Token::U32(7)]);
    assert_eq!(scan_all("1234567890"), vec![Token::U32(1234567890)]);
    assert_eq!(scan_all("007"), vec![Token::U32(7)]);
}

#[test]
fn largest_literal_is_kept() {
    assert_eq!(scan_all("4294967295"), vec![Token::U32(u32::MAX)]);
}

#[test]
fn literal_beyond_the_width_wraps_around() {
    assert_eq!(scan_all("4294967296"), vec![Token::U32(0)]);
    assert_eq!(scan_all("4294967301"), vec![Token::U32(5)]);
    assert_eq!(scan_all("99999999999"), vec![Token::U32(1215752191)]);
}

#[test]
fn keywords_are_recognised() {
    assert_eq!(scan_all("print"), vec![Token::Keyword(KeywordToken::Print)]);
    assert_eq!(scan_all("int"), vec![Token::Keyword(KeywordToken::Int)]);
}

#[test]
fn other_words_are_identifiers() {
    assert_eq!(scan_all("x"), vec![Token::Identifier("x".to_string())]);
    assert_eq!(scan_all("printer"), vec![Token::Identifier("printer".to_string())]);
    assert_eq!(scan_all("Print"), vec![Token::Identifier("Print".to_string())]);
    assert_eq!(scan_all("in"), vec![Token::Identifier("in".to_string())]);
}

#[test]
fn a_word_ends_at_the_first_character_that_is_no_letter() {
    assert_eq!(
        scan_all("ab1"),
        vec![Token::Identifier("ab".to_string()), Token::U32(1)]
    );
    assert_eq!(
        scan_all("int5"),
        vec![Token::Keyword(KeywordToken::Int), Token::U32(5)]
    );
    assert_eq!(
        scan_all("a+b"),
        vec![
            Token::Identifier("a".to_string()),
            Token::Plus,
            Token::Identifier("b".to_string())
        ]
    );
}

#[test]
fn letters_beyond_ascii_form_words() {
    assert_eq!(scan_all("été"), vec![Token::Identifier("été".to_string())]);
    assert_eq!(
        scan_all("京=1"),
        vec![Token::Identifier("京".to_string()), Token::Assignment, Token::U32(1)]
    );
}

#[test]
fn word_characters() {
    assert!(is_word_character('a'));
    assert!(is_word_character('Z'));
    assert!(is_word_character('é'));
    assert!(is_word_character('京'));
    assert!(!is_word_character('1'));
    assert!(!is_word_character('_'));
    assert!(!is_word_character(' '));
    assert!(!is_word_character('@'));
    assert!(!is_word_character('['));
    assert!(!is_word_character('💝'));
}

#[test]
fn decimal_digits() {
    assert!(is_decimal_digit('0'));
    assert!(is_decimal_digit('9'));
    assert!(!is_decimal_digit('a'));
    assert!(!is_decimal_digit('/'));
    assert!(!is_decimal_digit(':'));
    assert!(!is_decimal_digit('٣'));
    assert_eq!(digit_value('0'), 0);
    assert_eq!(digit_value('7'), 7);
    assert_eq!(digit_value('9'), 9);
}

#[test]
fn white_space_becomes_tokens() {
    assert_eq!(
        scan_all(" \t\r\n"),
        vec![Token::Space, Token::Space, Token::Space, Token::NewLine]
    );
}

#[test]
fn white_space_only_input_has_no_significant_token_but_newlines() {
    assert_eq!(significant_tokens(chars("   \t \r ")), Ok(vec![]));
    assert_eq!(
        significant_tokens(chars(" \n\t\n")),
        Ok(vec![Token::NewLine, Token::NewLine])
    );
}

#[test]
fn significant_tokens_drop_spaces_only() {
    assert_eq!(
        significant_tokens(chars("print 2 + 3 * 4;\n")),
        Ok(vec![
            Token::Keyword(KeywordToken::Print),
            Token::U32(2),
            Token::Plus,
            Token::U32(3),
            Token::Star,
            Token::U32(4),
            Token::SemiColon,
            Token::NewLine,
        ])
    );
}

#[test]
fn significant_tokens_report_the_first_error() {
    assert_eq!(
        significant_tokens(chars("1 # 2 @")),
        Err(ScannerError::UnrecognizedCharacter('#'))
    );
}

#[test]
fn unrecognised_character_is_an_error() {
    assert_eq!(first_error("@"), ScannerError::UnrecognizedCharacter('@'));
    assert_eq!(first_error("1 + $"), ScannerError::UnrecognizedCharacter('$'));
    assert_eq!(first_error("x_y"), ScannerError::UnrecognizedCharacter('_'));
    assert_eq!(first_error("(1)"), ScannerError::UnrecognizedCharacter('('));
}

#[test]
fn bang_must_be_followed_by_equals() {
    assert_eq!(first_error("!"), ScannerError::UnterminatedBang);
    assert_eq!(first_error("1 !"), ScannerError::UnterminatedBang);
    assert_eq!(first_error("!x"), ScannerError::UnexpectedAfterBang('x'));
    assert_eq!(first_error("! ="), ScannerError::UnexpectedAfterBang(' '));
}

#[test]
fn scanner_stays_at_an_error() {
    let mut scanner = TokenIterator::new_iterator(chars("1@"));
    assert_eq!(scanner.next(), Some(Ok(Token::U32(1))));
    assert_eq!(scanner.next(), Some(Err(ScannerError::UnrecognizedCharacter('@'))));
    assert_eq!(scanner.next(), Some(Err(ScannerError::UnrecognizedCharacter('@'))));
}

#[test]
fn keyword_lookup() {
    assert_eq!(KeywordToken::try_from("print"), Some(KeywordToken::Print));
    assert_eq!(KeywordToken::try_from("int"), Some(KeywordToken::Int));
    assert_eq!(KeywordToken::try_from("Int"), None);
    assert_eq!(KeywordToken::try_from("prin"), None);
    assert_eq!(KeywordToken::try_from("prints"), None);
    assert_eq!(KeywordToken::try_from(""), None);
}

#[test]
fn precedence_table() {
    assert_eq!(Token::Plus.precedence(), 10);
    assert_eq!(Token::Minus.precedence(), 10);
    assert_eq!(Token::Star.precedence(), 20);
    assert_eq!(Token::Slash.precedence(), 20);
    assert_eq!(Token::LessThan.precedence(), 40);
    assert_eq!(Token::LessThanEqual.precedence(), 40);
    assert_eq!(Token::GreaterThan.precedence(), 40);
    assert_eq!(Token::GreaterThanEqual.precedence(), 40);
    assert_eq!(Token::NotEqual.precedence(), 40);
    assert_eq!(Token::Equality.precedence(), 40);
    assert_eq!(Token::Assignment.precedence(), 0);
    assert_eq!(Token::SemiColon.precedence(), 0);
    assert_eq!(Token::U32(3).precedence(), 0);
    assert_eq!(Token::Identifier("x".to_string()).precedence(), 0);
    assert_eq!(Token::Keyword(KeywordToken::Print).precedence(), 0);
    assert_eq!(Token::NewLine.precedence(), 0);
    assert_eq!(Token::Space.precedence(), 0);
}

#[test]
fn a_cloned_token_equals_the_token() {
    let tokens = scan_all("print x1<=2;");
    for token in &tokens {
        assert_eq!(&token.clone(), token);
    }
}

#[test]
fn word_characters_given_the_tables() {
    assert!(is_word_character_given('a', false));
    assert!(is_word_character_given('z', true));
    assert!(is_word_character_given('A', false));
    assert!(is_word_character_given('Z', false));
    assert!(!is_word_character_given('@', true));
    assert!(!is_word_character_given('`', true));
    assert!(!is_word_character_given('{', true));
    assert!(!is_word_character_given('0', true));
    assert!(!is_word_character_given(' ', true));
    assert!(!is_word_character_given('\u{7f}', true));
    assert!(is_word_character_given('\u{80}', true));
    assert!(!is_word_character_given('\u{80}', false));
    assert!(is_word_character_given('é', true));
    assert!(!is_word_character_given('é', false));
}

#[test]
fn a_number_written_in_decimal_scans_back() {
    for value in [0u32, 1, 9, 10, 99, 100, 4096, 65535, 1000000007, 4294967294, 4294967295] {
        let mut text = String::new();
        append_decimal(&mut text, value);
        assert_eq!(scan_all(&text), vec![Token::U32(value)]);
    }
}

#[test]
fn value_of_a_literal_is_the_sum_of_its_digits_by_their_place() {
    // 3 * 10^4 + 0 * 10^3 + 7 * 10^2 + 1 * 10 + 5
    assert_eq!(scan_all("30715"), vec![Token::U32(3 * 10000 + 7 * 100 + 10 + 5)]);
    // 12345678901 = 2 * 2^32 + 3755744309
    assert_eq!(scan_all("12345678901"), vec![Token::U32(3755744309)]);
}

#[test]
fn visible_tokens_drop_spaces_and_newlines() {
    assert_eq!(
        visible_tokens(chars("int x;\n x = 1\n\n")),
        Ok(vec![
            Token::Keyword(KeywordToken::Int),
            Token::Identifier("x".to_string()),
            Token::SemiColon,
            Token::Identifier("x".to_string()),
            Token::Assignment,
            Token::U32(1),
        ])
    );
    assert_eq!(visible_tokens(chars(" \n \t\r\n")), Ok(vec![]));
    assert_eq!(visible_tokens(chars("")), Ok(vec![]));
}

#[test]
fn visible_tokens_report_the_first_error() {
    assert_eq!(
        visible_tokens(chars("1\n!\n@")),
        Err(ScannerError::UnexpectedAfterBang('\n'))
    );
}

#[test]
fn scanner_can_be_moved_back() {
    let mut scanner = TokenIterator::new_iterator(chars("12+x"));
    assert_eq!(scanner.offset(), 0);
    assert_eq!(scanner.next(), Some(Ok(Token::U32(12))));
    assert_eq!(scanner.offset(), 2);
    assert_eq!(scanner.next(), Some(Ok(Token::Plus)));
    assert_eq!(scanner.offset(), 3);
    scanner.seek(2);
    assert_eq!(scanner.offset(), 2);
    assert_eq!(scanner.next(), Some(Ok(Token::Plus)));
    assert_eq!(scanner.next(), Some(Ok(Token::Identifier("x".to_string()))));
    assert_eq!(scanner.offset(), 4);
    assert_eq!(scanner.next(), None);
    scanner.seek(4);
    assert_eq!(scanner.next(), None);
    scanner.seek(0);
    assert_eq!(scanner.next(), Some(Ok(Token::U32(12))));
}
