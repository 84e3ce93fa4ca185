//! Lexical scanning: from characters to tokens.

use vstd::prelude::*;
use crate::scanner::rules::{
    decimal_value, digit_of, digits_end, followed_by, is_ascii_letter, is_digit, is_letter,
    keyword_of, lemma_scan_advances, lemma_tokens_from_step, lemma_without_newlines_push,
    lemma_without_spaces_push, literal_modulus, number_at, scan_at, significant_tokens_of,
    symbol_at, tokens_from, tokens_of, unicode_alphabetic, visible_tokens_of,
    without_newlines, without_spaces, word_at, word_end, Scanned,
};
use crate::text::{push_char, same_text};

pub mod rules;

verus! {

/// Why a character sequence cannot be scanned.
#[derive(Debug, Clone, Copy, PartialEq, Eq, Structural)]
pub enum ScannerError {
    /// The character starts no token.
    UnrecognizedCharacter(char),
    /// `!` was followed by this character instead of `=`.
    UnexpectedAfterBang(char),
    /// `!` was the last character of the input.
    UnterminatedBang,
}

/// The reserved words.
#[derive(Debug, PartialEq, Eq, Clone, Copy, Structural)]
pub enum KeywordToken {
    Print,
    Int,
}

/// A lexical unit of the language.
#[derive(Debug, PartialEq)]
pub enum Token {
    Plus,
    Minus,
    Star,
    Slash,
    U32(u32),
    SemiColon,
    Keyword(KeywordToken),
    Space,
    Identifier(String),
    Assignment,
    NewLine,
    LessThan,
    LessThanEqual,
    GreaterThan,
    GreaterThanEqual,
    NotEqual,
    Equality,
}

/// A token as a mathematical value: an identifier carries its characters.
pub enum TokenView {
    Plus,
    Minus,
    Star,
    Slash,
    U32(u32),
    SemiColon,
    Keyword(KeywordToken),
    Space,
    Identifier(Seq<char>),
    Assignment,
    NewLine,
    LessThan,
    LessThanEqual,
    GreaterThan,
    GreaterThanEqual,
    NotEqual,
    Equality,
}

impl View for Token {
    type V = TokenView;

    open spec fn view(&self) -> TokenView {
        match self {
            Token::Plus => TokenView::Plus,
            Token::Minus => TokenView::Minus,
            Token::Star => TokenView::Star,
            Token::Slash => TokenView::Slash,
            Token::U32(v) => TokenView::U32(*v),
            Token::SemiColon => TokenView::SemiColon,
            Token::Keyword(k) => TokenView::Keyword(*k),
            Token::Space => TokenView::Space,
            Token::Identifier(name) => TokenView::Identifier(name@),
            Token::Assignment => TokenView::Assignment,
            Token::NewLine => TokenView::NewLine,
            Token::LessThan => TokenView::LessThan,
            Token::LessThanEqual => TokenView::LessThanEqual,
            Token::GreaterThan => TokenView::GreaterThan,
            Token::GreaterThanEqual => TokenView::GreaterThanEqual,
            Token::NotEqual => TokenView::NotEqual,
            Token::Equality => TokenView::Equality,
        }
    }
}

impl DeepView for Token {
    type V = TokenView;

    open spec fn deep_view(&self) -> TokenView {
        self@
    }
}

/// How tightly an operator token binds; 0 for a token that is no operator.
pub open spec fn precedence_of(token: TokenView) -> u32 {
    match token {
        TokenView::Plus | TokenView::Minus => 10,
        TokenView::Star | TokenView::Slash => 20,
        TokenView::LessThan
        | TokenView::LessThanEqual
        | TokenView::GreaterThan
        | TokenView::GreaterThanEqual
        | TokenView::NotEqual
        | TokenView::Equality => 40,
        _ => 0,
    }
}

/// Binding strength of operators.
pub trait Precedence {
    /// The strength that `precedence` returns.
    spec fn binding(&self) -> u32;

    /// How tightly the operator binds; 0 for what is no operator.
    fn precedence(&self) -> (p: u32)
        ensures
            p == self.binding(),
    ;
}

impl Precedence for Token {
    open spec fn binding(&self) -> u32 {
        precedence_of(self@)
    }

    fn precedence(&self) -> (p: u32) {
        match self {
            Token::Plus => 10,
            Token::Minus => 10,
            Token::Star => 20,
            Token::Slash => 20,
            Token::LessThan => 40,
            Token::LessThanEqual => 40,
            Token::GreaterThan => 40,
            Token::GreaterThanEqual => 40,
            Token::NotEqual => 40,
            Token::Equality => 40,
            _ => 0,
        }
    }
}

impl Clone for Token {
    fn clone(&self) -> (copy: Token)
        ensures
            copy@ == self@,
    {
        match self {
            Token::Plus => Token::Plus,
            Token::Minus => Token::Minus,
            Token::Star => Token::Star,
            Token::Slash => Token::Slash,
            Token::U32(v) => Token::U32(*v),
            Token::SemiColon => Token::SemiColon,
            Token::Keyword(k) => Token::Keyword(*k),
            Token::Space => Token::Space,
            Token::Identifier(name) => Token::Identifier(name.clone()),
            Token::Assignment => Token::Assignment,
            Token::NewLine => Token::NewLine,
            Token::LessThan => Token::LessThan,
            Token::LessThanEqual => Token::LessThanEqual,
            Token::GreaterThan => Token::GreaterThan,
            Token::GreaterThanEqual => Token::GreaterThanEqual,
            Token::NotEqual => Token::NotEqual,
            Token::Equality => Token::Equality,
        }
    }
}

/// `char::is_alphabetic`. The result is given the name
/// `unicode_alphabetic`; nothing is claimed of its value.
#[verifier::external_body]
fn char_is_alphabetic(c: char) -> (b: bool)
    ensures
        b == unicode_alphabetic(c),
{
    c.is_alphabetic()
}

/// Whether `c` is a decimal digit.
pub fn is_decimal_digit(c: char) -> (b: bool)
    ensures
        b == is_digit(c),
{
    '0' <= c && c <= '9'
}

/// The value of the decimal digit `c`.
pub fn digit_value(c: char) -> (d: u32)
    requires
        is_digit(c),
    ensures
        d == digit_of(c),
        d <= 9,
{
    (c as u32) - ('0' as u32)
}

/// Whether `c` may appear in a word, given in `alphabetic` what the Unicode
/// tables say of it. Below U+0080 the tables are not consulted: there the
/// Latin letters are the word characters.
pub fn is_word_character_given(c: char, alphabetic: bool) -> (b: bool)
    ensures
        b == if (c as u32) < 0x80 {
            is_ascii_letter(c)
        } else {
            alphabetic
        },
{
    if (c as u32) < 0x80 {
        ('a' <= c && c <= 'z') || ('A' <= c && c <= 'Z')
    } else {
        alphabetic
    }
}

/// Whether `c` may appear in a word: a Latin letter or, beyond U+007F, a
/// character that `char::is_alphabetic` accepts.
pub fn is_word_character(c: char) -> (b: bool)
    ensures
        b == is_letter(c),
{
    is_word_character_given(c, char_is_alphabetic(c))
}

impl KeywordToken {
    /// The keyword that `value` spells, if it spells one.
    pub fn try_from(value: &str) -> (keyword: Option<KeywordToken>)
        ensures
            keyword == keyword_of(value@),
    {
        if same_text(value, "print") {
            Some(KeywordToken::Print)
        } else if same_text(value, "int") {
            Some(KeywordToken::Int)
        } else {
            None
        }
    }
}

/// A scanner over a sequence of characters: each call of `next` yields the
/// token that starts at the current position and moves past it.
pub struct TokenIterator {
    chars: Vec<char>,
    position: usize,
}

impl TokenIterator {
    #[verifier::type_invariant]
    spec fn within_source(self) -> bool {
        self.position <= self.chars.len()
    }

    /// The characters that are being scanned.
    pub closed spec fn source(&self) -> Seq<char> {
        self.chars@
    }

    /// The index of the next character to be scanned.
    pub closed spec fn position(&self) -> int {
        self.position as int
    }

    /// The index of the next character to be scanned; it lies within the
    /// source.
    pub fn offset(&self) -> (at: usize)
        ensures
            at == self.position(),
            at <= self.source().len(),
    {
        proof {
            use_type_invariant(self);
        }
        self.position
    }

    /// Moves the scanner to the index `at` of its source.
    pub fn seek(&mut self, at: usize)
        requires
            at <= old(self).source().len(),
        ensures
            final(self).source() == old(self).source(),
            final(self).position() == at,
    {
        self.position = at;
    }

    /// A scanner at the start of `chars`.
    pub fn new_iterator(chars: Vec<char>) -> (scanner: TokenIterator)
        ensures
            scanner.source() == chars@,
            scanner.position() == 0,
    {
        TokenIterator::new(chars)
    }

    fn new(inner: Vec<char>) -> (scanner: TokenIterator)
        ensures
            scanner.source() == inner@,
            scanner.position() == 0,
    {
        TokenIterator { chars: inner, position: 0 }
    }

    /// Scans the operator, terminator or white space at the current
    /// position.
    fn read_symbol(&mut self) -> (res: Result<Token, ScannerError>)
        requires
            old(self).position() < old(self).source().len(),
        ensures
            final(self).source() == old(self).source(),
            match symbol_at(old(self).source(), old(self).position()) {
                Scanned::Token { token, end } => {
                    &&& res matches Ok(found)
                    &&& found@ == token
                    &&& final(self).position() == end
                },
                Scanned::Error(e) => {
                    &&& res == Err::<Token, ScannerError>(e)
                    &&& final(self).position() == old(self).position()
                },
            },
    {
        assert(self.position < self.chars.len());
        let c = self.chars[self.position];
        let followed = self.position + 1 < self.chars.len() && self.chars[self.position + 1] == '=';
        let (token, width): (Token, usize) = if c == '+' {
            (Token::Plus, 1)
        } else if c == '-' {
            (Token::Minus, 1)
        } else if c == '*' {
            (Token::Star, 1)
        } else if c == '/' {
            (Token::Slash, 1)
        } else if c == ';' {
            (Token::SemiColon, 1)
        } else if c == '\n' {
            (Token::NewLine, 1)
        } else if c == ' ' || c == '\t' || c == '\r' {
            (Token::Space, 1)
        } else if c == '=' {
            if followed {
                (Token::Equality, 2)
            } else {
                (Token::Assignment, 1)
            }
        } else if c == '<' {
            if followed {
                (Token::LessThanEqual, 2)
            } else {
                (Token::LessThan, 1)
            }
        } else if c == '>' {
            if followed {
                (Token::GreaterThanEqual, 2)
            } else {
                (Token::GreaterThan, 1)
            }
        } else if c == '!' {
            if followed {
                (Token::NotEqual, 2)
            } else if self.position + 1 < self.chars.len() {
                return Err(ScannerError::UnexpectedAfterBang(self.chars[self.position + 1]));
            } else {
                return Err(ScannerError::UnterminatedBang);
            }
        } else {
            return Err(ScannerError::UnrecognizedCharacter(c));
        };
        self.position = self.position + width;
        Ok(token)
    }

    /// Scans the run of letters at the current position into a keyword or
    /// an identifier.
    fn read_alphabetic_token(&mut self) -> (found: Token)
        requires
            old(self).position() < old(self).source().len(),
        ensures
            final(self).source() == old(self).source(),
            word_at(old(self).source(), old(self).position()) == (Scanned::Token {
                token: found@,
                end: final(self).position(),
            }),
    {
        let ghost start = self.position as int;
        let ghost s = self.chars@;
        let mut result = String::new();
        while self.position < self.chars.len() && is_word_character(self.chars[self.position])
            invariant
                self.chars@ == s,
                0 <= start <= self.position <= s.len(),
                result@ == s.subrange(start, self.position as int),
                word_end(s, start) == word_end(s, self.position as int),
            decreases s.len() - self.position,
        {
            push_char(&mut result, self.chars[self.position]);
            self.position = self.position + 1;
            assert(result@ == s.subrange(start, self.position as int));
        }
        match KeywordToken::try_from(result.as_str()) {
            Some(keyword) => Token::Keyword(keyword),
            None => Token::Identifier(result),
        }
    }

    /// Scans the run of digits at the current position into an integer
    /// literal. A value that does not fit wraps around.
    fn read_int_lit_token(&mut self) -> (found: Token)
        requires
            old(self).position() < old(self).source().len(),
        ensures
            final(self).source() == old(self).source(),
            number_at(old(self).source(), old(self).position()) == (Scanned::Token {
                token: found@,
                end: final(self).position(),
            }),
    {
        let ghost start = self.position as int;
        let ghost s = self.chars@;
        let mut result: u32 = 0;
        assert(s.subrange(start, start) =~= Seq::<char>::empty());
        while self.position < self.chars.len() && is_decimal_digit(self.chars[self.position])
            invariant
                self.chars@ == s,
                0 <= start <= self.position <= s.len(),
                result == decimal_value(s.subrange(start, self.position as int))
                    % literal_modulus(),
                digits_end(s, start) == digits_end(s, self.position as int),
            decreases s.len() - self.position,
        {
            let digit = digit_value(self.chars[self.position]);
            proof {
                let before = s.subrange(start, self.position as int);
                let after = s.subrange(start, self.position as int + 1);
                assert(after.drop_last() =~= before);
                assert(after.last() == s[self.position as int]);
                lemma_wrapping_step(decimal_value(before), digit as int);
            }
            result = result.wrapping_mul(10).wrapping_add(digit);
            self.position = self.position + 1;
        }
        Token::U32(result)
    }

    /// The token at the current position, or `None` at the end of the
    /// input. After a token the scanner stands behind it; after an error it
    /// stays where it was. The position lies within the source, before the
    /// call and after it.
    pub fn next(&mut self) -> (res: Option<Result<Token, ScannerError>>)
        ensures
            final(self).source() == old(self).source(),
            0 <= old(self).position() <= old(self).source().len(),
            old(self).position() <= final(self).position() <= old(self).source().len(),
            old(self).position() >= old(self).source().len() ==> {
                &&& res is None
                &&& final(self).position() == old(self).position()
            },
            old(self).position() < old(self).source().len() ==> match scan_at(
                old(self).source(),
                old(self).position(),
            ) {
                Scanned::Token { token, end } => {
                    &&& res matches Some(Ok(found))
                    &&& found@ == token
                    &&& final(self).position() == end
                },
                Scanned::Error(e) => {
                    &&& res == Some(Err::<Token, ScannerError>(e))
                    &&& final(self).position() == old(self).position()
                },
            },
    {
        proof {
            use_type_invariant(&*self);
            if self.position < self.chars.len() {
                lemma_scan_advances(self.chars@, self.position as int);
            }
        }
        if self.position < self.chars.len() {
            let c = self.chars[self.position];
            if is_decimal_digit(c) {
                return Some(Ok(self.read_int_lit_token()));
            }
            if is_word_character(c) {
                return Some(Ok(self.read_alphabetic_token()));
            }
            return Some(self.read_symbol());
        }
        None
    }
}

/// Scans all of `chars` and keeps every token but `Space`.
pub fn significant_tokens(chars: Vec<char>) -> (res: Result<Vec<Token>, ScannerError>)
    ensures
        match significant_tokens_of(chars@) {
            Ok(tokens) => res matches Ok(found) && found.deep_view() == tokens,
            Err(e) => res == Err::<Vec<Token>, ScannerError>(e),
        },
{
    let ghost s = chars@;
    let mut scanner = TokenIterator::new_iterator(chars);
    let mut found: Vec<Token> = Vec::new();
    let ghost scanned: Seq<TokenView> = Seq::empty();
    assert(found.deep_view() =~= without_spaces(scanned));
    assert(followed_by(scanned, tokens_from(s, 0)) == tokens_of(s)) by {
        match tokens_from(s, 0) {
            Ok(rest) => {
                assert(scanned + rest =~= rest);
            },
            Err(e) => {},
        }
    }
    loop
        invariant
            s == chars@,
            scanner.source() == s,
            0 <= scanner.position() <= s.len(),
            found.deep_view() == without_spaces(scanned),
            followed_by(scanned, tokens_from(s, scanner.position())) == tokens_of(s),
        decreases s.len() - scanner.position(),
    {
        let ghost at = scanner.position();
        proof {
            if at < s.len() {
                lemma_scan_advances(s, at);
                lemma_tokens_from_step(s, at, scanned);
            }
        }
        match scanner.next() {
            None => {
                assert(scanned + Seq::<TokenView>::empty() =~= scanned);
                return Ok(found);
            },
            Some(Err(e)) => {
                return Err(e);
            },
            Some(Ok(token)) => {
                proof {
                    lemma_without_spaces_push(scanned, token@);
                    scanned = scanned.push(token@);
                }
                match token {
                    Token::Space => {},
                    _ => {
                        let ghost before = found.deep_view();
                        found.push(token);
                        assert(found.deep_view() =~= before.push(token@));
                    },
                }
            },
        }
    }
}

/// Scans all of `chars` and keeps every token but `Space` and `NewLine`.
pub fn visible_tokens(chars: Vec<char>) -> (res: Result<Vec<Token>, ScannerError>)
    ensures
        match visible_tokens_of(chars@) {
            Ok(tokens) => res matches Ok(found) && found.deep_view() == tokens,
            Err(e) => res == Err::<Vec<Token>, ScannerError>(e),
        },
{
    let tokens = match significant_tokens(chars) {
        Ok(tokens) => tokens,
        Err(e) => {
            return Err(e);
        },
    };
    let ghost all = tokens.deep_view();
    let mut found: Vec<Token> = Vec::new();
    let mut i: usize = 0;
    assert(all.take(0) =~= Seq::<TokenView>::empty());
    assert(found.deep_view() =~= without_newlines(all.take(0)));
    while i < tokens.len()
        invariant
            all == tokens.deep_view(),
            0 <= i <= tokens.len(),
            found.deep_view() == without_newlines(all.take(i as int)),
        decreases tokens.len() - i,
    {
        proof {
            lemma_without_newlines_push(all.take(i as int), all[i as int]);
            assert(all.take(i as int).push(all[i as int]) =~= all.take(i + 1));
        }
        match &tokens[i] {
            Token::NewLine => {},
            other => {
                let ghost before = found.deep_view();
                found.push(other.clone());
                assert(found.deep_view() =~= before.push(all[i as int]));
            },
        }
        i = i + 1;
    }
    assert(all.take(tokens.len() as int) =~= all);
    Ok(found)
}

/// Reducing before or after a further digit is appended gives the same
/// literal value.
proof fn lemma_wrapping_step(value: int, digit: int)
    requires
        0 <= digit <= 9,
    ensures
        (((value % literal_modulus()) * 10) % literal_modulus() + digit) % literal_modulus() == (
        value * 10 + digit) % literal_modulus(),
{
    let m = literal_modulus();
    vstd::arithmetic::div_mod::lemma_mul_mod_noop_left(value, 10, m);
    vstd::arithmetic::div_mod::lemma_add_mod_noop(value * 10, digit, m);
}

} // verus!
