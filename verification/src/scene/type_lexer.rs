//! Tokens of the type language in which a scene names the layout of its
//! material parameters, such as `[[vec3; 5]; 1]`.
//!
//! White space may follow a bracket or a semicolon and may open the text. It
//! may not follow a type name or a number: there it is an invalid start of a
//! token.

use vstd::prelude::*;
use vstd::std_specs::cmp::PartialEqSpecImpl;

verus! {

/// White space as Unicode defines it (the `White_Space` property).
pub open spec fn is_whitespace(c: char) -> bool {
    let u = c as u32;
    ||| 0x09 <= u <= 0x0d
    ||| u == 0x20
    ||| u == 0x85
    ||| u == 0xa0
    ||| u == 0x1680
    ||| 0x2000 <= u <= 0x200a
    ||| u == 0x2028
    ||| u == 0x2029
    ||| u == 0x202f
    ||| u == 0x205f
    ||| u == 0x3000
}

/// An ASCII decimal digit.
pub open spec fn is_digit(c: char) -> bool {
    0x30 <= c as u32 <= 0x39
}

/// An ASCII letter.
pub open spec fn is_letter(c: char) -> bool {
    let u = c as u32;
    0x41 <= u <= 0x5a || 0x61 <= u <= 0x7a
}

/// The classes of characters that the lexer scans runs of.
#[derive(Clone, Copy, Debug, PartialEq, Eq, Structural)]
pub enum CharClass {
    /// White space.
    Space,
    /// ASCII letters and digits: what a type name is made of.
    Word,
    /// ASCII decimal digits.
    Digit,
    /// ASCII white space: space, tab, line feed, form feed and carriage
    /// return.
    AsciiSpace,
    /// Anything but ASCII white space.
    Text,
}

/// ASCII white space.
pub open spec fn is_ascii_space(c: char) -> bool {
    let u = c as u32;
    u == 0x20 || u == 0x09 || u == 0x0a || u == 0x0c || u == 0x0d
}

impl CharClass {
    /// Whether `c` belongs to the class.
    pub open spec fn holds(self, c: char) -> bool {
        match self {
            CharClass::Space => is_whitespace(c),
            CharClass::Word => is_letter(c) || is_digit(c),
            CharClass::Digit => is_digit(c),
            CharClass::AsciiSpace => is_ascii_space(c),
            CharClass::Text => !is_ascii_space(c),
        }
    }

    /// Whether `c` belongs to the class.
    pub fn test(self, c: char) -> (held: bool)
        ensures
            held == self.holds(c),
    {
        let u: u32 = c as u32;
        let digit = 0x30 <= u && u <= 0x39;
        let ascii_space = u == 0x20 || u == 0x09 || u == 0x0a || u == 0x0c || u == 0x0d;
        match self {
            CharClass::Space => {
                (0x09 <= u && u <= 0x0d) || u == 0x20 || u == 0x85 || u == 0xa0 || u == 0x1680 || (
                0x2000 <= u && u <= 0x200a) || u == 0x2028 || u == 0x2029 || u == 0x202f || u
                    == 0x205f || u == 0x3000
            },
            CharClass::Word => (0x41 <= u && u <= 0x5a) || (0x61 <= u && u <= 0x7a) || digit,
            CharClass::Digit => digit,
            CharClass::AsciiSpace => ascii_space,
            CharClass::Text => !ascii_space,
        }
    }
}

/// Length of the longest prefix of `s` whose characters all belong to
/// `class`.
pub open spec fn run_len(s: Seq<char>, class: CharClass) -> nat
    decreases s.len(),
{
    if s.len() > 0 && class.holds(s[0]) {
        1 + run_len(s.drop_first(), class)
    } else {
        0
    }
}

/// `s` without its leading white space.
pub open spec fn trim_start(s: Seq<char>) -> Seq<char> {
    s.skip(run_len(s, CharClass::Space) as int)
}

/// The number that the decimal digits `s` write.
pub open spec fn decimal_value(s: Seq<char>) -> nat
    decreases s.len(),
{
    if s.len() == 0 {
        0
    } else {
        decimal_value(s.drop_last()) * 10 + (s.last() as u32 - 0x30) as nat
    }
}

/// A run is as long as the first character outside the class is far.
pub proof fn lemma_run_len(s: Seq<char>, class: CharClass, n: int)
    requires
        0 <= n <= s.len(),
        forall|i: int| 0 <= i < n ==> class.holds(#[trigger] s[i]),
        n == s.len() || !class.holds(s[n]),
    ensures
        run_len(s, class) == n,
    decreases n,
{
    if n > 0 {
        let rest = s.drop_first();
        assert forall|i: int| 0 <= i < n - 1 implies class.holds(#[trigger] rest[i]) by {
            assert(rest[i] == s[i + 1]);
        }
        lemma_run_len(rest, class, n - 1);
    }
}

/// A run never reaches past the end, and every character of it belongs to
/// the class.
pub proof fn lemma_run_len_bounds(s: Seq<char>, class: CharClass)
    ensures
        run_len(s, class) <= s.len(),
        forall|i: int| 0 <= i < run_len(s, class) ==> class.holds(#[trigger] s[i]),
        s.len() > 0 && class.holds(s[0]) ==> run_len(s, class) >= 1,
    decreases s.len(),
{
    if s.len() > 0 && class.holds(s[0]) {
        let rest = s.drop_first();
        lemma_run_len_bounds(rest, class);
        assert forall|i: int| 0 <= i < run_len(s, class) implies class.holds(#[trigger] s[i]) by {
            if i > 0 {
                assert(s[i] == rest[i - 1]);
            }
        }
    }
}

/// A longer run of digits writes no smaller number.
pub proof fn lemma_decimal_value_grows(s: Seq<char>, shorter: int)
    requires
        0 <= shorter <= s.len(),
        forall|i: int| 0 <= i < s.len() ==> is_digit(#[trigger] s[i]),
    ensures
        decimal_value(s.take(shorter)) <= decimal_value(s),
    decreases s.len() - shorter,
{
    if shorter < s.len() {
        let front = s.drop_last();
        assert(front.take(shorter) =~= s.take(shorter));
        lemma_decimal_value_grows(front, shorter);
    } else {
        assert(s.take(shorter) =~= s);
    }
}

/// Why the lexer stopped short of a token.
#[derive(Clone, Copy, Debug, PartialEq, Eq, Structural)]
pub enum LexError {
    /// No token starts with this character.
    InvalidStart(char),
    /// The number does not fit 64 bits.
    IntegerTooLarge,
}

/// A token of the type language.
#[derive(Debug)]
pub enum Token<'a> {
    LSqBracket,
    RSqBracket,
    Semicolon,
    Typename(&'a str),
    Integer(u64),
    LexerError(LexError),
}

/// What a token holds, with the text of a type name as a sequence of
/// characters.
pub ghost enum TokenValue {
    LSqBracket,
    RSqBracket,
    Semicolon,
    Typename(Seq<char>),
    Integer(u64),
    LexerError(LexError),
}

impl TokenValue {
    /// Equality as `==` on tokens decides it: type names by their text,
    /// numbers by their value, and all else by the kind of token alone, so
    /// that any two errors are equal.
    pub open spec fn same(self, other: TokenValue) -> bool {
        match (self, other) {
            (TokenValue::Typename(l), TokenValue::Typename(r)) => l == r,
            (TokenValue::Integer(l), TokenValue::Integer(r)) => l == r,
            (TokenValue::LSqBracket, TokenValue::LSqBracket) => true,
            (TokenValue::RSqBracket, TokenValue::RSqBracket) => true,
            (TokenValue::Semicolon, TokenValue::Semicolon) => true,
            (TokenValue::LexerError(_), TokenValue::LexerError(_)) => true,
            _ => false,
        }
    }
}

impl<'a> View for Token<'a> {
    type V = TokenValue;

    open spec fn view(&self) -> TokenValue {
        match *self {
            Token::LSqBracket => TokenValue::LSqBracket,
            Token::RSqBracket => TokenValue::RSqBracket,
            Token::Semicolon => TokenValue::Semicolon,
            Token::Typename(name) => TokenValue::Typename(name@),
            Token::Integer(value) => TokenValue::Integer(value),
            Token::LexerError(error) => TokenValue::LexerError(error),
        }
    }
}

/// Whether two texts hold the same characters.
pub fn same_text(left: &str, right: &str) -> (same: bool)
    ensures
        same == (left@ == right@),
{
    let n: usize = left.unicode_len();
    if n != right.unicode_len() {
        return false;
    }
    let mut i: usize = 0;
    while i < n
        invariant
            i <= n,
            n == left@.len(),
            n == right@.len(),
            forall|j: int| 0 <= j < i ==> left@[j] == right@[j],
        decreases n - i,
    {
        if left.get_char(i) != right.get_char(i) {
            return false;
        }
        i += 1;
    }
    assert(left@ =~= right@);
    true
}

impl<'a> PartialEq for Token<'a> {
    fn eq(&self, other: &Self) -> (equal: bool) {
        match (self, other) {
            (Token::Typename(l), Token::Typename(r)) => same_text(l, r),
            (Token::Integer(l), Token::Integer(r)) => *l == *r,
            (Token::LSqBracket, Token::LSqBracket) => true,
            (Token::RSqBracket, Token::RSqBracket) => true,
            (Token::Semicolon, Token::Semicolon) => true,
            (Token::LexerError(_), Token::LexerError(_)) => true,
            _ => false,
        }
    }
}

impl<'a> PartialEqSpecImpl for Token<'a> {
    open spec fn obeys_eq_spec() -> bool {
        true
    }

    open spec fn eq_spec(&self, other: &Self) -> bool {
        self@.same(other@)
    }
}

/// One step of the lexer: the token that `s` starts with, if `s` is not
/// empty, and the text that is left behind it.
pub ghost struct LexStep {
    pub token: Option<TokenValue>,
    pub rest: Seq<char>,
}

/// The step that the lexer makes on `s`. After an error no text is taken.
pub open spec fn lex_step(s: Seq<char>) -> LexStep {
    if s.len() == 0 {
        LexStep { token: None, rest: s }
    } else if s[0] == '[' {
        LexStep { token: Some(TokenValue::LSqBracket), rest: trim_start(s.drop_first()) }
    } else if s[0] == ']' {
        LexStep { token: Some(TokenValue::RSqBracket), rest: trim_start(s.drop_first()) }
    } else if s[0] == ';' {
        LexStep { token: Some(TokenValue::Semicolon), rest: trim_start(s.drop_first()) }
    } else if is_letter(s[0]) {
        let n = run_len(s, CharClass::Word) as int;
        LexStep { token: Some(TokenValue::Typename(s.take(n))), rest: s.skip(n) }
    } else if is_digit(s[0]) {
        let n = run_len(s, CharClass::Digit) as int;
        let value = decimal_value(s.take(n));
        if value <= u64::MAX {
            LexStep { token: Some(TokenValue::Integer(value as u64)), rest: s.skip(n) }
        } else {
            LexStep { token: Some(TokenValue::LexerError(LexError::IntegerTooLarge)), rest: s }
        }
    } else {
        LexStep { token: Some(TokenValue::LexerError(LexError::InvalidStart(s[0]))), rest: s }
    }
}

/// The tokens of `s`, up to its end or to the first error, which is the last
/// token then.
pub open spec fn lex_all(s: Seq<char>) -> Seq<TokenValue>
    decreases s.len(),
{
    let step = lex_step(s);
    match step.token {
        None => Seq::empty(),
        Some(TokenValue::LexerError(error)) => seq![TokenValue::LexerError(error)],
        Some(token) => if step.rest.len() < s.len() {
            seq![token] + lex_all(step.rest)
        } else {
            seq![token]
        },
    }
}

/// Every token but an error takes at least one character.
pub proof fn lemma_lex_step_shortens(s: Seq<char>)
    ensures
        lex_step(s).rest.len() <= s.len(),
        lex_step(s).token matches Some(t) && !(t is LexerError) ==> lex_step(s).rest.len()
            < s.len(),
{
    if s.len() > 0 {
        lemma_run_len_bounds(s.drop_first(), CharClass::Space);
        lemma_run_len_bounds(s, CharClass::Word);
        lemma_run_len_bounds(s, CharClass::Digit);
    }
}

/// Number of leading characters of `s` that belong to `class`.
pub fn scan_run(s: &str, class: CharClass) -> (n: usize)
    ensures
        n == run_len(s@, class),
        n <= s@.len(),
{
    let len: usize = s.unicode_len();
    let mut n: usize = 0;
    while n < len
        invariant
            n <= len,
            len == s@.len(),
            forall|i: int| 0 <= i < n ==> class.holds(#[trigger] s@[i]),
        decreases len - n,
    {
        if !class.test(s.get_char(n)) {
            proof {
                lemma_run_len(s@, class, n as int);
            }
            return n;
        }
        n += 1;
    }
    proof {
        lemma_run_len(s@, class, n as int);
    }
    n
}

/// `s` without its leading white space.
fn skip_space<'a>(s: &'a str) -> (rest: &'a str)
    ensures
        rest@ == trim_start(s@),
{
    let n: usize = scan_run(s, CharClass::Space);
    let len: usize = s.unicode_len();
    let rest = s.substring_char(n, len);
    assert(s@.subrange(n as int, len as int) =~= s@.skip(n as int));
    rest
}

/// The number that the digits `s` write, where it fits 64 bits.
fn parse_decimal(s: &str) -> (value: Option<u64>)
    requires
        forall|i: int| 0 <= i < s@.len() ==> is_digit(#[trigger] s@[i]),
    ensures
        decimal_value(s@) <= u64::MAX <==> value.is_some(),
        value matches Some(v) ==> v == decimal_value(s@),
{
    let len: usize = s.unicode_len();
    let mut value: u64 = 0;
    let mut i: usize = 0;
    while i < len
        invariant
            i <= len,
            len == s@.len(),
            forall|j: int| 0 <= j < s@.len() ==> is_digit(#[trigger] s@[j]),
            value == decimal_value(s@.take(i as int)),
        decreases len - i,
    {
        let c: char = s.get_char(i);
        let digit: u64 = (c as u32 - 0x30) as u64;
        proof {
            let upto = s@.take(i + 1);
            assert(upto.drop_last() =~= s@.take(i as int));
            assert(upto.last() == c);
            lemma_decimal_value_grows(s@, i + 1);
        }
        let next = match value.checked_mul(10) {
            Some(tens) => tens.checked_add(digit),
            None => None,
        };
        match next {
            Some(v) => {
                value = v;
            },
            None => {
                return None;
            },
        }
        i += 1;
    }
    assert(s@.take(i as int) =~= s@);
    Some(value)
}

/// A lexer over a text; it hands out one token at a time.
pub struct TokenIter<'a> {
    remaining: &'a str,
}

impl<'a> View for TokenIter<'a> {
    type V = Seq<char>;

    /// The text that has not been taken yet.
    closed spec fn view(&self) -> Seq<char> {
        self.remaining@
    }
}

impl<'a> TokenIter<'a> {
    /// A lexer at the first character of `str` that is not white space.
    pub fn new(str: &'a str) -> (iter: Self)
        ensures
            iter@ == trim_start(str@),
    {
        Self { remaining: skip_space(str) }
    }

    /// The next token, or `None` at the end of the text.
    pub fn next(&mut self) -> (token: Option<Token<'a>>)
        ensures
            final(self)@ == lex_step(old(self)@).rest,
            match token {
                Some(t) => lex_step(old(self)@).token == Some(t@),
                None => lex_step(old(self)@).token is None,
            },
    {
        let remaining: &'a str = self.remaining;
        let len: usize = remaining.unicode_len();
        if len == 0 {
            return None;
        }
        let first: char = remaining.get_char(0);
        if first == '[' || first == ']' || first == ';' {
            let after = remaining.substring_char(1, len);
            assert(remaining@.subrange(1, len as int) =~= remaining@.drop_first());
            self.remaining = skip_space(after);
            if first == '[' {
                Some(Token::LSqBracket)
            } else if first == ']' {
                Some(Token::RSqBracket)
            } else {
                Some(Token::Semicolon)
            }
        } else if CharClass::Word.test(first) && !CharClass::Digit.test(first) {
            let end: usize = scan_run(remaining, CharClass::Word);
            let name = remaining.substring_char(0, end);
            self.remaining = remaining.substring_char(end, len);
            assert(remaining@.subrange(0, end as int) =~= remaining@.take(end as int));
            assert(remaining@.subrange(end as int, len as int) =~= remaining@.skip(end as int));
            Some(Token::Typename(name))
        } else if CharClass::Digit.test(first) {
            let end: usize = scan_run(remaining, CharClass::Digit);
            let digits = remaining.substring_char(0, end);
            assert(remaining@.subrange(0, end as int) =~= remaining@.take(end as int));
            assert(remaining@.subrange(end as int, len as int) =~= remaining@.skip(end as int));
            proof {
                lemma_run_len_bounds(remaining@, CharClass::Digit);
            }
            match parse_decimal(digits) {
                Some(value) => {
                    self.remaining = remaining.substring_char(end, len);
                    Some(Token::Integer(value))
                },
                None => Some(Token::LexerError(LexError::IntegerTooLarge)),
            }
        } else {
            Some(Token::LexerError(LexError::InvalidStart(first)))
        }
    }

    /// All tokens that are left, up to the end of the text or to the first
    /// error, which is the last token then.
    pub fn collect(self) -> (tokens: Vec<Token<'a>>)
        ensures
            tokens@.map_values(|t: Token<'a>| t@) == lex_all(self@),
    {
        let mut iter = self;
        let mut tokens: Vec<Token<'a>> = Vec::new();
        let ghost start = iter@;
        loop
            invariant_except_break
                lex_all(start) == tokens@.map_values(|t: Token<'a>| t@) + lex_all(iter@),
            ensures
                lex_all(start) == tokens@.map_values(|t: Token<'a>| t@),
            decreases iter@.len(),
        {
            let ghost before = iter@;
            let ghost taken = tokens@.map_values(|t: Token<'a>| t@);
            proof {
                lemma_lex_step_shortens(before);
            }
            match iter.next() {
                None => {
                    assert(taken + Seq::<TokenValue>::empty() =~= taken);
                    break ;
                },
                Some(token) => {
                    let ghost value = token@;
                    let failed = matches!(token, Token::LexerError(_));
                    tokens.push(token);
                    assert(tokens@.map_values(|t: Token<'a>| t@) =~= taken + seq![value]);
                    if failed {
                        break ;
                    }
                    assert(lex_all(before) == seq![value] + lex_all(iter@));
                    assert(taken + (seq![value] + lex_all(iter@)) =~= (taken + seq![value])
                        + lex_all(iter@));
                },
            }
        }
        tokens
    }
}

} // verus!
