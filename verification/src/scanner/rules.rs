//! The lexical rules, as functions from a character sequence to tokens.

use vstd::prelude::*;
use crate::scanner::{KeywordToken, ScannerError, TokenView};
use crate::text::{decimal_text, digit_char};

verus! {

/// One more than the largest value of an integer literal.
pub open spec fn literal_modulus() -> int {
    0x1_0000_0000
}

/// `c` is one of the ten decimal digits.
pub open spec fn is_digit(c: char) -> bool {
    '0' <= c && c <= '9'
}

/// The number that the decimal digit `c` stands for.
pub open spec fn digit_of(c: char) -> int {
    c as int - '0' as int
}

/// `c` is an unaccented Latin letter.
pub open spec fn is_ascii_letter(c: char) -> bool {
    ('a' <= c && c <= 'z') || ('A' <= c && c <= 'Z')
}

/// What `char::is_alphabetic` returns for `c`: whether the character has
/// the Unicode property `Alphabetic`.
pub uninterp spec fn unicode_alphabetic(c: char) -> bool;

/// `c` may appear in a word. Below U+0080 these are the Latin letters; from
/// there on, the characters that Unicode calls alphabetic.
pub open spec fn is_letter(c: char) -> bool {
    if (c as u32) < 0x80 {
        is_ascii_letter(c)
    } else {
        unicode_alphabetic(c)
    }
}

/// `c` is white space other than a line feed.
pub open spec fn is_blank(c: char) -> bool {
    c == ' ' || c == '\t' || c == '\r'
}

/// `c` is white space.
pub open spec fn is_whitespace(c: char) -> bool {
    is_blank(c) || c == '\n'
}

/// `c` begins an operator, a terminator or white space.
pub open spec fn starts_symbol(c: char) -> bool {
    ||| c == '+'
    ||| c == '-'
    ||| c == '*'
    ||| c == '/'
    ||| c == ';'
    ||| c == '='
    ||| c == '<'
    ||| c == '>'
    ||| c == '!'
    ||| is_whitespace(c)
}

/// The result of scanning one token.
pub enum Scanned {
    /// The token, and the index of the first character after it.
    Token { token: TokenView, end: int },
    /// No token starts here.
    Error(ScannerError),
}

/// Where the run of digits that starts at `i` ends: the first index from
/// `i` on that holds no digit, or the length of `s`.
pub open spec fn digits_end(s: Seq<char>, i: int) -> int
    decreases s.len() - i,
{
    if 0 <= i < s.len() && is_digit(s[i]) {
        digits_end(s, i + 1)
    } else {
        i
    }
}

/// Where the run of letters that starts at `i` ends.
pub open spec fn word_end(s: Seq<char>, i: int) -> int
    decreases s.len() - i,
{
    if 0 <= i < s.len() && is_letter(s[i]) {
        word_end(s, i + 1)
    } else {
        i
    }
}

/// The number that a sequence of decimal digits denotes: with `n` digits,
/// the sum of the `k`-th digit times ten to the power `n - 1 - k`.
pub open spec fn decimal_value(digits: Seq<char>) -> int
    decreases digits.len(),
{
    if digits.len() == 0 {
        0
    } else {
        decimal_value(digits.drop_last()) * 10 + digit_of(digits.last())
    }
}

/// The reserved word that `word` spells, if any.
pub open spec fn keyword_of(word: Seq<char>) -> Option<KeywordToken> {
    if word == "print"@ {
        Some(KeywordToken::Print)
    } else if word == "int"@ {
        Some(KeywordToken::Int)
    } else {
        None
    }
}

/// The token for a run of letters: a keyword, or else an identifier.
pub open spec fn word_token(word: Seq<char>) -> TokenView {
    match keyword_of(word) {
        Some(keyword) => TokenView::Keyword(keyword),
        None => TokenView::Identifier(word),
    }
}

/// The token that the symbol at `i` begins. `=`, `<` and `>` take a directly
/// following `=` with them; `!` must be followed by `=`.
pub open spec fn symbol_at(s: Seq<char>, i: int) -> Scanned {
    let c = s[i];
    let followed = i + 1 < s.len() && s[i + 1] == '=';
    if c == '+' {
        Scanned::Token { token: TokenView::Plus, end: i + 1 }
    } else if c == '-' {
        Scanned::Token { token: TokenView::Minus, end: i + 1 }
    } else if c == '*' {
        Scanned::Token { token: TokenView::Star, end: i + 1 }
    } else if c == '/' {
        Scanned::Token { token: TokenView::Slash, end: i + 1 }
    } else if c == ';' {
        Scanned::Token { token: TokenView::SemiColon, end: i + 1 }
    } else if c == '\n' {
        Scanned::Token { token: TokenView::NewLine, end: i + 1 }
    } else if is_blank(c) {
        Scanned::Token { token: TokenView::Space, end: i + 1 }
    } else if c == '=' {
        if followed {
            Scanned::Token { token: TokenView::Equality, end: i + 2 }
        } else {
            Scanned::Token { token: TokenView::Assignment, end: i + 1 }
        }
    } else if c == '<' {
        if followed {
            Scanned::Token { token: TokenView::LessThanEqual, end: i + 2 }
        } else {
            Scanned::Token { token: TokenView::LessThan, end: i + 1 }
        }
    } else if c == '>' {
        if followed {
            Scanned::Token { token: TokenView::GreaterThanEqual, end: i + 2 }
        } else {
            Scanned::Token { token: TokenView::GreaterThan, end: i + 1 }
        }
    } else if c == '!' {
        if followed {
            Scanned::Token { token: TokenView::NotEqual, end: i + 2 }
        } else if i + 1 < s.len() {
            Scanned::Error(ScannerError::UnexpectedAfterBang(s[i + 1]))
        } else {
            Scanned::Error(ScannerError::UnterminatedBang)
        }
    } else {
        Scanned::Error(ScannerError::UnrecognizedCharacter(c))
    }
}

/// The integer literal whose first digit is at `i`: the whole run of digits,
/// read as a decimal number and reduced modulo `literal_modulus()`.
pub open spec fn number_at(s: Seq<char>, i: int) -> Scanned {
    let end = digits_end(s, i);
    Scanned::Token {
        token: TokenView::U32((decimal_value(s.subrange(i, end)) % literal_modulus()) as u32),
        end,
    }
}

/// The keyword or identifier whose first letter is at `i`: the whole run of
/// letters.
pub open spec fn word_at(s: Seq<char>, i: int) -> Scanned {
    let end = word_end(s, i);
    Scanned::Token { token: word_token(s.subrange(i, end)), end }
}

/// The token that starts at index `i` of `s`.
pub open spec fn scan_at(s: Seq<char>, i: int) -> Scanned {
    if is_digit(s[i]) {
        number_at(s, i)
    } else if is_letter(s[i]) {
        word_at(s, i)
    } else {
        symbol_at(s, i)
    }
}

/// The tokens of `s` from index `i` on, or the first error met.
pub open spec fn tokens_from(s: Seq<char>, i: int) -> Result<Seq<TokenView>, ScannerError>
    decreases s.len() - i,
{
    if 0 <= i < s.len() {
        match scan_at(s, i) {
            Scanned::Error(e) => Err(e),
            Scanned::Token { token, end } => {
                proof {
                    lemma_scan_advances(s, i);
                }
                match tokens_from(s, end) {
                    Ok(rest) => Ok(seq![token] + rest),
                    Err(e) => Err(e),
                }
            },
        }
    } else {
        Ok(Seq::empty())
    }
}

/// The tokens of the whole of `s`, or the first error met.
pub open spec fn tokens_of(s: Seq<char>) -> Result<Seq<TokenView>, ScannerError> {
    tokens_from(s, 0)
}

/// The run of digits from `i` is the longest stretch of digits that starts
/// there.
pub proof fn lemma_digits_end(s: Seq<char>, i: int)
    requires
        0 <= i <= s.len(),
    ensures
        i <= digits_end(s, i) <= s.len(),
        forall|k: int| i <= k < digits_end(s, i) ==> is_digit(s[k]),
        digits_end(s, i) < s.len() ==> !is_digit(s[digits_end(s, i)]),
        forall|k: int| i <= k <= digits_end(s, i) ==> digits_end(s, k) == digits_end(s, i),
    decreases s.len() - i,
{
    if i < s.len() && is_digit(s[i]) {
        lemma_digits_end(s, i + 1);
    }
}

/// The run of letters from `i` is the longest stretch of letters that starts
/// there.
pub proof fn lemma_word_end(s: Seq<char>, i: int)
    requires
        0 <= i <= s.len(),
    ensures
        i <= word_end(s, i) <= s.len(),
        forall|k: int| i <= k < word_end(s, i) ==> is_letter(s[k]),
        word_end(s, i) < s.len() ==> !is_letter(s[word_end(s, i)]),
        forall|k: int| i <= k <= word_end(s, i) ==> word_end(s, k) == word_end(s, i),
    decreases s.len() - i,
{
    if i < s.len() && is_letter(s[i]) {
        lemma_word_end(s, i + 1);
    }
}

/// A token is at least one character long and ends within the input.
pub proof fn lemma_scan_advances(s: Seq<char>, i: int)
    requires
        0 <= i < s.len(),
    ensures
        scan_at(s, i) matches Scanned::Token { end, .. } ==> i < end <= s.len(),
{
    lemma_digits_end(s, i);
    lemma_word_end(s, i);
}

/// `token` is more than white space between tokens.
pub open spec fn is_significant(token: TokenView) -> bool {
    !(token is Space)
}

/// `tokens` without the `Space` tokens.
pub open spec fn without_spaces(tokens: Seq<TokenView>) -> Seq<TokenView> {
    tokens.filter(|token: TokenView| is_significant(token))
}

/// The tokens of `s` that the parser is given: all but the `Space` tokens.
pub open spec fn significant_tokens_of(s: Seq<char>) -> Result<Seq<TokenView>, ScannerError> {
    match tokens_of(s) {
        Ok(tokens) => Ok(without_spaces(tokens)),
        Err(e) => Err(e),
    }
}

/// What scanning a text hands to the parser, token by token: the significant
/// tokens up to the end of the text or up to the first thing that is no
/// token, and in that case the error.
pub struct TokenStream {
    /// The tokens, in their order.
    pub tokens: Seq<TokenView>,
    /// The error that ends the tokens, if one does.
    pub error: Option<ScannerError>,
}

/// The stream of `s` from index `i` on.
pub open spec fn stream_from(s: Seq<char>, i: int) -> TokenStream
    decreases s.len() - i,
{
    if 0 <= i < s.len() {
        match scan_at(s, i) {
            Scanned::Error(e) => TokenStream { tokens: Seq::empty(), error: Some(e) },
            Scanned::Token { token, end } => {
                proof {
                    lemma_scan_advances(s, i);
                }
                let rest = stream_from(s, end);
                if is_significant(token) {
                    TokenStream { tokens: seq![token] + rest.tokens, error: rest.error }
                } else {
                    rest
                }
            },
        }
    } else {
        TokenStream { tokens: Seq::empty(), error: None }
    }
}

/// The stream of the whole of `s`.
pub open spec fn stream_of(s: Seq<char>) -> TokenStream {
    stream_from(s, 0)
}

/// A text that scans without an error has its significant tokens as its
/// stream; one that does not has the same error at the end of its stream.
pub proof fn lemma_stream_of_tokens(s: Seq<char>, i: int)
    requires
        0 <= i <= s.len(),
    ensures
        match tokens_from(s, i) {
            Ok(tokens) => stream_from(s, i) == (TokenStream {
                tokens: without_spaces(tokens),
                error: None,
            }),
            Err(e) => stream_from(s, i).error == Some(e),
        },
    decreases s.len() - i,
{
    if i < s.len() {
        match scan_at(s, i) {
            Scanned::Error(e) => {},
            Scanned::Token { token, end } => {
                lemma_scan_advances(s, i);
                lemma_stream_of_tokens(s, end);
                match tokens_from(s, end) {
                    Ok(rest) => {
                        lemma_without_spaces_prepend(token, rest);
                    },
                    Err(e) => {},
                }
            },
        }
    } else {
        assert(without_spaces(Seq::<TokenView>::empty()) =~= Seq::<TokenView>::empty());
    }
}

/// A token in front of others is in front of their significant tokens too,
/// unless it is a `Space`.
pub proof fn lemma_without_spaces_prepend(token: TokenView, tokens: Seq<TokenView>)
    ensures
        without_spaces(seq![token] + tokens) == if is_significant(token) {
            seq![token] + without_spaces(tokens)
        } else {
            without_spaces(tokens)
        },
    decreases tokens.len(),
{
    reveal_with_fuel(Seq::filter, 2);
    let all = seq![token] + tokens;
    if tokens.len() == 0 {
        assert(all.drop_last() =~= Seq::<TokenView>::empty());
        assert(all.last() == token);
        assert(without_spaces(tokens) =~= Seq::<TokenView>::empty());
        assert(without_spaces(all.drop_last()) =~= Seq::<TokenView>::empty());
        assert(Seq::<TokenView>::empty().push(token) =~= seq![token] + without_spaces(tokens));
    } else {
        lemma_without_spaces_prepend(token, tokens.drop_last());
        assert(all.drop_last() =~= seq![token] + tokens.drop_last());
        assert(all.last() == tokens.last());
        let kept = without_spaces(tokens.drop_last());
        if is_significant(token) {
            assert((seq![token] + kept).push(tokens.last()) =~= seq![token] + kept.push(
                tokens.last(),
            ));
        }
    }
}

/// `tokens` without the `NewLine` tokens.
pub open spec fn without_newlines(tokens: Seq<TokenView>) -> Seq<TokenView> {
    tokens.filter(|token: TokenView| !(token is NewLine))
}

/// The tokens of `s` that are no white space: all but the `Space` and
/// `NewLine` tokens.
pub open spec fn visible_tokens_of(s: Seq<char>) -> Result<Seq<TokenView>, ScannerError> {
    match tokens_of(s) {
        Ok(tokens) => Ok(without_newlines(without_spaces(tokens))),
        Err(e) => Err(e),
    }
}

/// Appending a token appends it to the tokens without line breaks too,
/// unless it is a `NewLine`.
pub proof fn lemma_without_newlines_push(tokens: Seq<TokenView>, token: TokenView)
    ensures
        without_newlines(tokens.push(token)) == if token is NewLine {
            without_newlines(tokens)
        } else {
            without_newlines(tokens).push(token)
        },
{
    let longer = tokens.push(token);
    assert(longer.drop_last() =~= tokens);
    assert(longer.last() == token);
    reveal_with_fuel(Seq::filter, 2);
}

/// Appending a token appends it to the significant tokens too, unless it is
/// a `Space`.
pub proof fn lemma_without_spaces_push(tokens: Seq<TokenView>, token: TokenView)
    ensures
        without_spaces(tokens.push(token)) == if is_significant(token) {
            without_spaces(tokens).push(token)
        } else {
            without_spaces(tokens)
        },
{
    let longer = tokens.push(token);
    assert(longer.drop_last() =~= tokens);
    assert(longer.last() == token);
    reveal_with_fuel(Seq::filter, 2);
}

/// `tokens` followed by what `rest` holds, if it holds tokens.
pub open spec fn followed_by(
    tokens: Seq<TokenView>,
    rest: Result<Seq<TokenView>, ScannerError>,
) -> Result<Seq<TokenView>, ScannerError> {
    match rest {
        Ok(more) => Ok(tokens + more),
        Err(e) => Err(e),
    }
}

/// Scanning from `i` yields the token at `i`, then what scanning from its
/// end yields.
pub proof fn lemma_tokens_from_step(s: Seq<char>, i: int, scanned: Seq<TokenView>)
    requires
        0 <= i < s.len(),
    ensures
        match scan_at(s, i) {
            Scanned::Token { token, end } => followed_by(scanned, tokens_from(s, i))
                == followed_by(scanned.push(token), tokens_from(s, end)),
            Scanned::Error(e) => followed_by(scanned, tokens_from(s, i)) == Err::<
                Seq<TokenView>,
                ScannerError,
            >(e),
        },
{
    match scan_at(s, i) {
        Scanned::Token { token, end } => {
            match tokens_from(s, end) {
                Ok(rest) => {
                    assert(scanned + (seq![token] + rest) =~= scanned.push(token) + rest);
                },
                Err(e) => {},
            }
        },
        Scanned::Error(e) => {},
    }
}

/// All of `s` is white space.
pub open spec fn all_whitespace(s: Seq<char>) -> bool {
    forall|k: int| 0 <= k < s.len() ==> is_whitespace(s[k])
}

/// All of `s` is decimal digits.
pub open spec fn all_digits(s: Seq<char>) -> bool {
    forall|k: int| 0 <= k < s.len() ==> is_digit(s[k])
}

/// A sequence of one or more decimal digits scans to a single integer
/// literal, whose value is the number that the digits denote, modulo
/// `literal_modulus()`.
pub proof fn lemma_digits_scan_to_one_literal(digits: Seq<char>)
    requires
        digits.len() > 0,
        all_digits(digits),
    ensures
        tokens_of(digits) == Ok::<Seq<TokenView>, ScannerError>(
            seq![TokenView::U32((decimal_value(digits) % literal_modulus()) as u32)],
        ),
{
    lemma_digits_end(digits, 0);
    let end = digits_end(digits, 0);
    assert(end == digits.len());
    assert(digits.subrange(0, end) =~= digits);
    let token = TokenView::U32((decimal_value(digits) % literal_modulus()) as u32);
    assert(scan_at(digits, 0) == Scanned::Token { token, end });
    assert(tokens_from(digits, end) == Ok::<Seq<TokenView>, ScannerError>(Seq::empty()));
    assert(seq![token] + Seq::<TokenView>::empty() =~= seq![token]);
}

/// Scanning white space from `i` on gives one token for each character,
/// and each of them is `Space` or `NewLine`.
pub proof fn lemma_whitespace_scans_to_separators(s: Seq<char>, i: int)
    requires
        all_whitespace(s),
        0 <= i <= s.len(),
    ensures
        tokens_from(s, i) matches Ok(tokens) && {
            &&& tokens.len() == s.len() - i
            &&& forall|k: int|
                0 <= k < tokens.len() ==> tokens[k] == if s[i + k] == '\n' {
                    TokenView::NewLine
                } else {
                    TokenView::Space
                }
        },
    decreases s.len() - i,
{
    if i < s.len() {
        assert(is_whitespace(s[i]));
        lemma_whitespace_scans_to_separators(s, i + 1);
    }
}

/// Ten to the power `e`.
pub open spec fn power_of_ten(e: nat) -> int
    decreases e,
{
    if e == 0 {
        1
    } else {
        10 * power_of_ten((e - 1) as nat)
    }
}

/// The sum of the digits of `digits`, each times the power of ten of its
/// place: with `n` digits, the digit at index `k` counts `10^(n - 1 - k)`.
pub open spec fn place_value_sum(digits: Seq<char>) -> int
    decreases digits.len(),
{
    if digits.len() == 0 {
        0
    } else {
        digit_of(digits[0]) * power_of_ten((digits.len() - 1) as nat) + place_value_sum(
            digits.drop_first(),
        )
    }
}

/// A further digit at the end shifts the sum by one place.
proof fn lemma_place_value_sum_by_last(digits: Seq<char>)
    requires
        digits.len() > 0,
    ensures
        place_value_sum(digits) == place_value_sum(digits.drop_last()) * 10 + digit_of(
            digits.last(),
        ),
    decreases digits.len(),
{
    if digits.len() == 1 {
        assert(digits.drop_first().len() == 0);
        assert(digits.drop_last().len() == 0);
        assert(place_value_sum(digits.drop_first()) == 0);
        assert(place_value_sum(digits.drop_last()) == 0);
        assert(power_of_ten(0) == 1);
    } else {
        let rest = digits.drop_first();
        let init = digits.drop_last();
        lemma_place_value_sum_by_last(rest);
        assert(rest.drop_last() =~= init.drop_first());
        assert(rest.last() == digits.last());
        assert(init[0] == digits[0]);
        let first = digit_of(digits[0]);
        let low = power_of_ten((init.len() - 1) as nat);
        let inner = place_value_sum(init.drop_first());
        assert(power_of_ten((digits.len() - 1) as nat) == 10 * low);
        assert(place_value_sum(init) == first * low + inner);
        assert((first * low + inner) * 10 == first * (10 * low) + inner * 10)
            by (nonlinear_arith);
    }
}

/// The number that digits denote is the sum of the digits by their place.
pub proof fn lemma_decimal_value_is_place_value_sum(digits: Seq<char>)
    ensures
        decimal_value(digits) == place_value_sum(digits),
    decreases digits.len(),
{
    if digits.len() > 0 {
        lemma_decimal_value_is_place_value_sum(digits.drop_last());
        lemma_place_value_sum_by_last(digits);
    }
}

/// A run of `n` digits from index `i`, followed by the end of the input or
/// by a character that is no digit, scans to one integer literal, whatever
/// stands before or behind it: its value is the sum of the digits by their
/// place, modulo `literal_modulus()`, and it ends behind the last of the
/// `n` digits.
pub proof fn lemma_digit_run_scans_to_literal(s: Seq<char>, i: int, n: int)
    requires
        0 <= i,
        1 <= n,
        i + n <= s.len(),
        forall|k: int| i <= k < i + n ==> is_digit(s[k]),
        i + n < s.len() ==> !is_digit(s[i + n]),
    ensures
        scan_at(s, i) == (Scanned::Token {
            token: TokenView::U32(
                (place_value_sum(s.subrange(i, i + n)) % literal_modulus()) as u32,
            ),
            end: i + n,
        }),
{
    lemma_digits_end(s, i);
    let end = digits_end(s, i);
    if end < i + n {
        assert(is_digit(s[end]));
    }
    if end > i + n {
        assert(is_digit(s[i + n]));
    }
    lemma_decimal_value_is_place_value_sum(s.subrange(i, i + n));
}

/// The decimal text of a number consists of digits, at least one, and
/// denotes that number.
pub proof fn lemma_decimal_text_denotes(n: nat)
    ensures
        decimal_text(n).len() > 0,
        all_digits(decimal_text(n)),
        decimal_value(decimal_text(n)) == n,
    decreases n,
{
    if n < 10 {
        let text = decimal_text(n);
        assert(text.drop_last() =~= Seq::<char>::empty());
        assert(decimal_value(text.drop_last()) == 0);
        assert(text.last() == digit_char(n));
    } else {
        lemma_decimal_text_denotes(n / 10);
        let text = decimal_text(n);
        assert(text.drop_last() =~= decimal_text(n / 10));
        assert(text.last() == digit_char(n % 10));
    }
}

/// Writing a literal's value in decimal and scanning the text gives the
/// literal back.
pub proof fn lemma_decimal_text_scans_back(value: u32)
    ensures
        tokens_of(decimal_text(value as nat)) == Ok::<Seq<TokenView>, ScannerError>(
            seq![TokenView::U32(value)],
        ),
{
    lemma_decimal_text_denotes(value as nat);
    lemma_digits_scan_to_one_literal(decimal_text(value as nat));
}

} // verus!
