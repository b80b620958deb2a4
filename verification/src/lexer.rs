use vstd::prelude::*;

use crate::error::Error;
use crate::error::ErrorView;

verus! {

/// Classification of a token.
#[derive(Debug, Clone, Copy, PartialEq, Eq, Structural)]
pub enum TokenType {
    /// End of the input; always the last token of a successful scan.
    EOF,
    Plus,
    Minus,
    Asterisk,
    Slash,
    Modulus,
    Not,
    And,
    Or,
    If,
    Equal,
    NotEqual,
    BitwiseNot,
    BitwiseAnd,
    BitwiseOr,
    BitwiseXor,
    BitwiseLeftShift,
    BitwiseRightShift,
    LeftParen,
    RightParen,
    Float,
    Integer,
    Boolean,
}

/// The literal value a literal token carries.  A float literal keeps the
/// decimal text of its lexeme: the bits it writes are computed outside
/// this crate, during evaluation, through a
/// [`crate::expression::FloatRequest::Parse`] request.
#[derive(Debug)]
pub enum TokenValue {
    /// Decimal text of a float literal: digits, a dot, digits.
    Float(String),
    Integer(i64),
    Boolean(bool),
}

/// Mathematical image of a [`TokenValue`].
pub ghost enum TokenValueView {
    Float(Seq<char>),
    Integer(i64),
    Boolean(bool),
}

impl View for TokenValue {
    type V = TokenValueView;

    open spec fn view(&self) -> TokenValueView {
        match self {
            TokenValue::Float(s) => TokenValueView::Float(s@),
            TokenValue::Integer(i) => TokenValueView::Integer(*i),
            TokenValue::Boolean(b) => TokenValueView::Boolean(*b),
        }
    }
}

impl TokenValue {
    /// The float literal's decimal text, if this is a float value.
    pub fn as_float(&self) -> (r: Option<String>)
        ensures
            match r {
                Some(s) => self@ matches TokenValueView::Float(t) && s@ == t,
                None => !(self@ is Float),
            },
    {
        match self {
            TokenValue::Float(s) => Some(s.clone()),
            _ => None,
        }
    }

    /// The integer, if this is an integer value.
    pub fn as_integer(&self) -> (r: Option<i64>)
        ensures
            match r {
                Some(i) => self@ == TokenValueView::Integer(i),
                None => !(self@ is Integer),
            },
    {
        match self {
            TokenValue::Integer(i) => Some(*i),
            _ => None,
        }
    }

    /// The boolean, if this is a boolean value.
    pub fn as_boolean(&self) -> (r: Option<bool>)
        ensures
            match r {
                Some(b) => self@ == TokenValueView::Boolean(b),
                None => !(self@ is Boolean),
            },
    {
        match self {
            TokenValue::Boolean(b) => Some(*b),
            _ => None,
        }
    }
}

/// One classified unit of source text: its type, the exact substring it
/// was matched from, an optional literal value, and the column just past
/// its last character.
#[derive(Debug)]
pub struct Token {
    pub type_: TokenType,
    pub lexeme: String,
    pub value: Option<TokenValue>,
    pub column: u32,
}

/// Mathematical image of a [`Token`].
pub ghost struct TokenView {
    pub type_: TokenType,
    pub lexeme: Seq<char>,
    pub value: Option<TokenValueView>,
    pub column: u32,
}

impl View for Token {
    type V = TokenView;

    open spec fn view(&self) -> TokenView {
        TokenView {
            type_: self.type_,
            lexeme: self.lexeme@,
            value: match self.value {
                Some(v) => Some(v@),
                None => None,
            },
            column: self.column,
        }
    }
}

/// The views of a token list.
pub open spec fn token_views(ts: Seq<Token>) -> Seq<TokenView> {
    ts.map_values(|t: Token| t@)
}

// ---------------------------------------------------------------------
// The scanner as a mathematical function.
// ---------------------------------------------------------------------

/// True of the ten decimal digit characters.
pub open spec fn is_digit_char(c: char) -> bool {
    48 <= c as u32 <= 57
}

/// The numeric value of a digit character.
pub open spec fn digit_value(c: char) -> int {
    c as u32 - 48
}

/// Whether a character is Unicode alphabetic, exactly as
/// `char::is_alphabetic` decides it; the scanner uses it to take the
/// maximal run of letters after a leading `t` or `f`.
pub uninterp spec fn is_alphabetic_char(c: char) -> bool;

/// Relies on `char::is_alphabetic`: whether the character is alphabetic,
/// a property of the character alone.
#[verifier::external_body]
fn check_alphabetic(c: char) -> (r: bool)
    ensures
        r == is_alphabetic_char(c),
{
    c.is_alphabetic()
}

/// Exec check for [`is_digit_char`].
fn check_digit(c: char) -> (r: bool)
    ensures
        r == is_digit_char(c),
{
    let u = c as u32;
    48 <= u && u <= 57
}

/// First position at or after `i` holding no decimal digit.
pub open spec fn digit_run_end(src: Seq<char>, i: int) -> int
    decreases src.len() - i,
{
    if i < src.len() && is_digit_char(src[i]) {
        digit_run_end(src, i + 1)
    } else {
        i
    }
}

/// First position at or after `i` holding no alphabetic character.
pub open spec fn alpha_run_end(src: Seq<char>, i: int) -> int
    decreases src.len() - i,
{
    if i < src.len() && is_alphabetic_char(src[i]) {
        alpha_run_end(src, i + 1)
    } else {
        i
    }
}

/// A digit run ends between its start and the end of the input.
pub proof fn lemma_digit_run_end(src: Seq<char>, i: int)
    requires
        0 <= i <= src.len(),
    ensures
        i <= digit_run_end(src, i) <= src.len(),
    decreases src.len() - i,
{
    if i < src.len() && is_digit_char(src[i]) {
        lemma_digit_run_end(src, i + 1);
    }
}

/// An alphabetic run ends between its start and the end of the input.
pub proof fn lemma_alpha_run_end(src: Seq<char>, i: int)
    requires
        0 <= i <= src.len(),
    ensures
        i <= alpha_run_end(src, i) <= src.len(),
    decreases src.len() - i,
{
    if i < src.len() && is_alphabetic_char(src[i]) {
        lemma_alpha_run_end(src, i + 1);
    }
}

/// The numeric value of a digit string, most significant digit first.
pub open spec fn dec_value(s: Seq<char>) -> int
    decreases s.len(),
{
    if s.len() == 0 {
        0
    } else {
        dec_value(s.drop_last()) * 10 + digit_value(s.last())
    }
}

/// Message of a scan error on a single unrecognized character.
pub open spec fn unrecognized_char_message(c: char) -> Seq<char> {
    "Unrecognized token: '"@ + seq![c] + "'"@
}

/// Message of a scan error on an alphabetic run that is neither `true`
/// nor `false`.
pub open spec fn unrecognized_lexeme_message(lex: Seq<char>) -> Seq<char> {
    "Unrecognized token: "@ + lex
}

/// Message of a scan error on an integer literal too large for `i64`.
pub open spec fn malformed_literal_message(lex: Seq<char>) -> Seq<char> {
    "Malformed literal: "@ + lex
}

/// What scanning one token at a position does: produce a token and the
/// position after it, skip a space, or fail.
pub ghost enum ScanStep {
    Tok(TokenView, int),
    Skip(int),
    Fail(ErrorView),
}

/// A token without a literal value whose lexeme runs from `start` to
/// `end`; its column is the position just past it.
pub open spec fn plain_token(t: TokenType, src: Seq<char>, start: int, end: int) -> TokenView {
    TokenView { type_: t, lexeme: src.subrange(start, end), value: None, column: end as u32 }
}

/// Scanning the boolean or error token whose alphabetic run starts at
/// `pos`.
pub open spec fn scan_word(src: Seq<char>, pos: int) -> ScanStep {
    let end = alpha_run_end(src, pos + 1);
    let lex = src.subrange(pos, end);
    if lex == "true"@ {
        ScanStep::Tok(
            TokenView {
                type_: TokenType::Boolean,
                lexeme: lex,
                value: Some(TokenValueView::Boolean(true)),
                column: end as u32,
            },
            end,
        )
    } else if lex == "false"@ {
        ScanStep::Tok(
            TokenView {
                type_: TokenType::Boolean,
                lexeme: lex,
                value: Some(TokenValueView::Boolean(false)),
                column: end as u32,
            },
            end,
        )
    } else {
        ScanStep::Fail(
            ErrorView { column: end as u32, message: unrecognized_lexeme_message(lex) },
        )
    }
}

/// Scanning the numeric literal whose digit run starts at `pos`: a
/// maximal digit run, then, after a dot, a further maximal run for a
/// float.  An integer literal that does not fit in `i64` fails.
pub open spec fn scan_number_spec(src: Seq<char>, pos: int) -> ScanStep {
    let d1 = digit_run_end(src, pos + 1);
    if d1 < src.len() && src[d1] == '.' {
        let d2 = digit_run_end(src, d1 + 1);
        let lex = src.subrange(pos, d2);
        ScanStep::Tok(
            TokenView {
                type_: TokenType::Float,
                lexeme: lex,
                value: Some(TokenValueView::Float(lex)),
                column: d2 as u32,
            },
            d2,
        )
    } else {
        let lex = src.subrange(pos, d1);
        if dec_value(lex) > i64::MAX {
            ScanStep::Fail(
                ErrorView { column: d1 as u32, message: malformed_literal_message(lex) },
            )
        } else {
            ScanStep::Tok(
                TokenView {
                    type_: TokenType::Integer,
                    lexeme: lex,
                    value: Some(TokenValueView::Integer(dec_value(lex) as i64)),
                    column: d1 as u32,
                },
                d1,
            )
        }
    }
}

/// Whether the character at `i` is `c` (false past the end).
pub open spec fn char_at_is(src: Seq<char>, i: int, c: char) -> bool {
    i < src.len() && src[i] == c
}

/// Scanning one token starting at `pos`: spaces skip, operators match
/// greedily (two characters before one), a leading `t` or `f` starts a
/// word, a digit starts a number, anything else fails.
pub open spec fn scan_one(src: Seq<char>, pos: int) -> ScanStep
    recommends
        0 <= pos < src.len(),
{
    let c = src[pos];
    if c == ' ' {
        ScanStep::Skip(pos + 1)
    } else if c == '+' {
        ScanStep::Tok(plain_token(TokenType::Plus, src, pos, pos + 1), pos + 1)
    } else if c == '-' {
        ScanStep::Tok(plain_token(TokenType::Minus, src, pos, pos + 1), pos + 1)
    } else if c == '/' {
        ScanStep::Tok(plain_token(TokenType::Slash, src, pos, pos + 1), pos + 1)
    } else if c == '*' {
        ScanStep::Tok(plain_token(TokenType::Asterisk, src, pos, pos + 1), pos + 1)
    } else if c == '%' {
        ScanStep::Tok(plain_token(TokenType::Modulus, src, pos, pos + 1), pos + 1)
    } else if c == '(' {
        ScanStep::Tok(plain_token(TokenType::LeftParen, src, pos, pos + 1), pos + 1)
    } else if c == ')' {
        ScanStep::Tok(plain_token(TokenType::RightParen, src, pos, pos + 1), pos + 1)
    } else if c == '&' {
        if char_at_is(src, pos + 1, '&') {
            ScanStep::Tok(plain_token(TokenType::And, src, pos, pos + 2), pos + 2)
        } else {
            ScanStep::Tok(plain_token(TokenType::BitwiseAnd, src, pos, pos + 1), pos + 1)
        }
    } else if c == '|' {
        if char_at_is(src, pos + 1, '|') {
            ScanStep::Tok(plain_token(TokenType::Or, src, pos, pos + 2), pos + 2)
        } else {
            ScanStep::Tok(plain_token(TokenType::BitwiseOr, src, pos, pos + 1), pos + 1)
        }
    } else if c == '!' {
        if char_at_is(src, pos + 1, '=') {
            ScanStep::Tok(plain_token(TokenType::NotEqual, src, pos, pos + 2), pos + 2)
        } else {
            ScanStep::Tok(plain_token(TokenType::Not, src, pos, pos + 1), pos + 1)
        }
    } else if c == '=' {
        if char_at_is(src, pos + 1, '=') {
            ScanStep::Tok(plain_token(TokenType::Equal, src, pos, pos + 2), pos + 2)
        } else if char_at_is(src, pos + 1, '>') {
            ScanStep::Tok(plain_token(TokenType::If, src, pos, pos + 2), pos + 2)
        } else {
            ScanStep::Fail(
                ErrorView { column: (pos + 1) as u32, message: unrecognized_char_message(c) },
            )
        }
    } else if c == 't' || c == 'f' {
        scan_word(src, pos)
    } else if c == '~' {
        ScanStep::Tok(plain_token(TokenType::BitwiseNot, src, pos, pos + 1), pos + 1)
    } else if c == '^' {
        ScanStep::Tok(plain_token(TokenType::BitwiseXor, src, pos, pos + 1), pos + 1)
    } else if c == '>' {
        if char_at_is(src, pos + 1, '>') {
            ScanStep::Tok(plain_token(TokenType::BitwiseRightShift, src, pos, pos + 2), pos + 2)
        } else {
            ScanStep::Fail(
                ErrorView { column: (pos + 1) as u32, message: unrecognized_char_message(c) },
            )
        }
    } else if c == '<' {
        if char_at_is(src, pos + 1, '<') {
            ScanStep::Tok(plain_token(TokenType::BitwiseLeftShift, src, pos, pos + 2), pos + 2)
        } else {
            ScanStep::Fail(
                ErrorView { column: (pos + 1) as u32, message: unrecognized_char_message(c) },
            )
        }
    } else if is_digit_char(c) {
        scan_number_spec(src, pos)
    } else {
        ScanStep::Fail(
            ErrorView { column: (pos + 1) as u32, message: unrecognized_char_message(c) },
        )
    }
}

/// Scanning one token moves forward and never past the end.
pub proof fn lemma_scan_one_advances(src: Seq<char>, pos: int)
    requires
        0 <= pos < src.len(),
    ensures
        match scan_one(src, pos) {
            ScanStep::Tok(t, p) => pos < p <= src.len(),
            ScanStep::Skip(p) => pos < p <= src.len(),
            ScanStep::Fail(e) => true,
        },
{
    lemma_alpha_run_end(src, pos + 1);
    lemma_digit_run_end(src, pos + 1);
    let d1 = digit_run_end(src, pos + 1);
    if d1 + 1 <= src.len() {
        lemma_digit_run_end(src, d1 + 1);
    }
}

/// The end-of-input token closing every successful scan.
pub open spec fn eof_token(src: Seq<char>) -> TokenView {
    TokenView {
        type_: TokenType::EOF,
        lexeme: Seq::<char>::empty(),
        value: None,
        column: src.len() as u32,
    }
}

/// The token sequence of the whole input from `pos` on, or the first
/// scan error.  A successful scan always ends with the end-of-input
/// token.
pub open spec fn scan_from(src: Seq<char>, pos: int) -> Result<Seq<TokenView>, ErrorView>
    decreases src.len() - pos,
    when 0 <= pos
    via scan_from_decreases
{
    if pos < src.len() {
        match scan_one(src, pos) {
            ScanStep::Skip(p2) => scan_from(src, p2),
            ScanStep::Tok(t, p2) => match scan_from(src, p2) {
                Ok(rest) => Ok(seq![t] + rest),
                Err(e) => Err(e),
            },
            ScanStep::Fail(e) => Err(e),
        }
    } else {
        Ok(seq![eof_token(src)])
    }
}

#[via_fn]
proof fn scan_from_decreases(src: Seq<char>, pos: int) {
    if pos < src.len() {
        lemma_scan_one_advances(src, pos);
    }
}

/// The token sequence of the whole input, or the first scan error.
pub open spec fn scan_spec(src: Seq<char>) -> Result<Seq<TokenView>, ErrorView> {
    scan_from(src, 0)
}

/// The shape every token of a successful scan has: a non-EOF token has
/// a non-empty lexeme, and a literal token carries a literal value of
/// its own kind.
pub open spec fn wf_token(t: TokenView) -> bool {
    &&& (!(t.type_ is EOF) ==> t.lexeme.len() > 0)
    &&& (t.type_ is Integer ==> t.value matches Some(TokenValueView::Integer(_)))
    &&& (t.type_ is Float ==> t.value matches Some(TokenValueView::Float(_)))
    &&& (t.type_ is Boolean ==> t.value matches Some(TokenValueView::Boolean(_)))
}

/// Every token of a successful scan is well formed.
pub proof fn lemma_scan_tokens_well_formed(src: Seq<char>, pos: int)
    requires
        0 <= pos,
    ensures
        scan_from(src, pos) matches Ok(toks) ==> forall|i: int|
            0 <= i < toks.len() ==> wf_token(#[trigger] toks[i]),
    decreases src.len() - pos,
{
    if pos < src.len() {
        lemma_scan_one_advances(src, pos);
        lemma_alpha_run_end(src, pos + 1);
        lemma_digit_run_end(src, pos + 1);
        let d1 = digit_run_end(src, pos + 1);
        if d1 < src.len() {
            lemma_digit_run_end(src, d1 + 1);
        }
        match scan_one(src, pos) {
            ScanStep::Skip(p2) => {
                lemma_scan_tokens_well_formed(src, p2);
            },
            ScanStep::Tok(t, p2) => {
                lemma_scan_tokens_well_formed(src, p2);
                assert(wf_token(t));
            },
            ScanStep::Fail(_) => {},
        }
    }
}



/// Every position strictly inside a digit run holds a digit.
pub proof fn lemma_digit_run_chars(src: Seq<char>, i: int, j: int)
    requires
        0 <= i <= j < digit_run_end(src, i),
    ensures
        is_digit_char(src[j]),
    decreases j - i,
{
    lemma_digit_run_end(src, i + 1);
    if i < j {
        lemma_digit_run_chars(src, i + 1, j);
    }
}

/// Gluing an already-scanned prefix onto the outcome of scanning the
/// rest.
pub open spec fn glue(prefix: Seq<TokenView>, rest: Result<Seq<TokenView>, ErrorView>) -> Result<
    Seq<TokenView>,
    ErrorView,
> {
    match rest {
        Ok(ts) => Ok(prefix + ts),
        Err(e) => Err(e),
    }
}

// ---------------------------------------------------------------------
// The executable scanner.
// ---------------------------------------------------------------------

/// Relies on `String::push`: appends exactly one character at the end.
#[verifier::external_body]
fn push_char(s: &mut String, c: char)
    ensures
        final(s)@ == old(s)@.push(c),
{
    s.push(c);
}

/// Builds the text of [`unrecognized_char_message`].
fn build_unrecognized_char(c: char) -> (r: String)
    ensures
        r@ == unrecognized_char_message(c),
{
    let mut m = String::from_str("Unrecognized token: '");
    push_char(&mut m, c);
    m.append("'");
    assert(m@ =~= unrecognized_char_message(c));
    m
}

/// The scanner: a single left-to-right pass over the characters of the
/// input, producing the token list that [`scan_spec`] describes.
pub struct Lexer<'a> {
    source: &'a str,
    current_position: u32,
    token_start: u32,
    token_list: Vec<Token>,
}

/// Mathematical image of a [`Lexer`]: the input characters, the cursor,
/// the start of the token under construction and the tokens built so
/// far.
pub ghost struct LexerView {
    pub source: Seq<char>,
    pub position: int,
    pub start: int,
    pub tokens: Seq<TokenView>,
}

impl<'a> View for Lexer<'a> {
    type V = LexerView;

    closed spec fn view(&self) -> LexerView {
        LexerView {
            source: self.source@,
            position: self.current_position as int,
            start: self.token_start as int,
            tokens: token_views(self.token_list@),
        }
    }
}

impl<'a> Lexer<'a> {
    /// A fresh scanner over `source`.
    pub fn new(source: &'a str) -> (r: Self)
        ensures
            r@.source == source@,
            r@.position == 0,
            r@.start == 0,
            r@.tokens == Seq::<TokenView>::empty(),
    {
        let r = Lexer { source, current_position: 0, token_start: 0, token_list: Vec::new() };
        proof {
            assert(token_views(Seq::<Token>::empty()) =~= Seq::<TokenView>::empty());
        }
        r
    }

    /// Whether a character is left to read.
    fn has_next(&self) -> (r: bool)
        ensures
            r == (self@.position < self@.source.len()),
    {
        (self.current_position as usize) < self.source.unicode_len()
    }

    /// An error at the current cursor column.
    fn error(&self, message: String) -> (r: Error)
        ensures
            r@ == (ErrorView { column: (self@.position) as u32, message: message@ }),
    {
        Error::new(self.current_position, message)
    }

    /// Consumes and returns the next character.
    fn advance(&mut self) -> (c: char)
        requires
            old(self)@.position < old(self)@.source.len(),
            old(self)@.source.len() <= u32::MAX,
        ensures
            final(self)@.source == old(self)@.source,
            final(self)@.position == old(self)@.position + 1,
            final(self)@.start == old(self)@.start,
            final(self)@.tokens == old(self)@.tokens,
            c == old(self)@.source[old(self)@.position],
    {
        let next = self.source.get_char(self.current_position as usize);
        self.current_position = self.current_position + 1;
        next
    }

    /// The next character, if any, without consuming it.
    fn peek(&self) -> (c: Option<char>)
        ensures
            match c {
                Some(ch) => self@.position < self@.source.len() && ch == self@.source[self@.position],
                None => self@.position >= self@.source.len(),
            },
    {
        if (self.current_position as usize) < self.source.unicode_len() {
            Some(self.source.get_char(self.current_position as usize))
        } else {
            None
        }
    }

    /// Whether the next character is `ch`.
    fn match_character(&self, ch: char) -> (r: bool)
        ensures
            r == char_at_is(self@.source, self@.position, ch),
    {
        match self.peek() {
            Some(c) => c == ch,
            None => false,
        }
    }

    /// Pushes a token without a literal value, spanning from the start of
    /// the current token to the cursor.
    fn add_token(&mut self, token_type: TokenType)
        requires
            0 <= old(self)@.start <= old(self)@.position <= old(self)@.source.len(),
            old(self)@.source.len() <= u32::MAX,
        ensures
            final(self)@.source == old(self)@.source,
            final(self)@.position == old(self)@.position,
            final(self)@.start == old(self)@.start,
            final(self)@.tokens == old(self)@.tokens.push(
                plain_token(token_type, old(self)@.source, old(self)@.start, old(self)@.position),
            ),
    {
        let lexeme = self.source.substring_char(
            self.token_start as usize,
            self.current_position as usize,
        ).to_owned();
        let tok = Token { type_: token_type, lexeme, value: None, column: self.current_position };
        let ghost t = tok@;
        let ghost before = self.token_list@;
        self.token_list.push(tok);
        proof {
            assert(token_views(before.push(self.token_list@.last())) =~= token_views(before).push(
                t,
            ));
        }
    }

    /// Scans the rest of a numeric literal, the leading digit already
    /// consumed: the maximal digit run, and after a dot a further run for
    /// a float.  An integer literal that does not fit in `i64` is a scan
    /// error.
    fn scan_number(&mut self) -> (r: Result<(), Error>)
        requires
            old(self)@.source.len() <= u32::MAX,
            0 <= old(self)@.start < old(self)@.source.len(),
            old(self)@.position == old(self)@.start + 1,
            is_digit_char(old(self)@.source[old(self)@.start]),
        ensures
            final(self)@.source == old(self)@.source,
            final(self)@.start == old(self)@.start,
            match scan_number_spec(old(self)@.source, old(self)@.start) {
                ScanStep::Tok(t, p) => r is Ok && final(self)@.tokens == old(self)@.tokens.push(t)
                    && final(self)@.position == p,
                ScanStep::Fail(e) => r matches Err(er) && er@ == e,
                ScanStep::Skip(_) => false,
            },
    {
        let ghost src = self.source@;
        let ghost tstart = self@.start;
        let ghost toks0 = self@.tokens;
        proof {
            lemma_digit_run_end(src, tstart + 1);
        }
        loop
            invariant
                self@.source == src,
                src.len() <= u32::MAX,
                self@.start == tstart,
                self@.tokens == toks0,
                tstart + 1 <= self@.position <= src.len(),
                digit_run_end(src, self@.position) == digit_run_end(src, tstart + 1),
            ensures
                self@.source == src,
                self@.start == tstart,
                self@.tokens == toks0,
                self@.position == digit_run_end(src, tstart + 1),
            decreases src.len() - self@.position,
        {
            match self.peek() {
                Some(ch) => {
                    if check_digit(ch) {
                        self.advance();
                    } else {
                        break;
                    }
                },
                None => {
                    break;
                },
            }
        }
        let ghost d1 = digit_run_end(src, tstart + 1);
        proof {
            if d1 < src.len() {
                lemma_digit_run_end(src, d1 + 1);
            }
        }
        let is_dot = match self.peek() {
            Some(ch) => ch == '.',
            None => false,
        };
        if is_dot {
            // A float literal: consume the dot and the fractional run,
            // then keep the whole lexeme as the literal's text.
            self.advance();
            loop
                invariant
                    self@.source == src,
                    src.len() <= u32::MAX,
                    self@.start == tstart,
                    self@.tokens == toks0,
                    d1 + 1 <= self@.position <= src.len(),
                    digit_run_end(src, self@.position) == digit_run_end(src, d1 + 1),
                ensures
                    self@.source == src,
                    self@.start == tstart,
                    self@.tokens == toks0,
                    self@.position == digit_run_end(src, d1 + 1),
                decreases src.len() - self@.position,
            {
                match self.peek() {
                    Some(ch) => {
                        if check_digit(ch) {
                            self.advance();
                        } else {
                            break;
                        }
                    },
                    None => {
                        break;
                    },
                }
            }
            let text = self.source.substring_char(
                self.token_start as usize,
                self.current_position as usize,
            ).to_owned();
            let text_value = text.clone();
            let tok = Token {
                type_: TokenType::Float,
                lexeme: text,
                value: Some(TokenValue::Float(text_value)),
                column: self.current_position,
            };
            let ghost t = tok@;
            let ghost before = self.token_list@;
            self.token_list.push(tok);
            proof {
                assert(token_views(before.push(self.token_list@.last())) =~= token_views(
                    before,
                ).push(t));
            }
            Ok(())
        } else {
            // An integer literal: fold the digits into a value, watching
            // for overflow past `i64::MAX`.
            let end: u32 = self.current_position;
            let mut i: u32 = self.token_start;
            let mut acc: u64 = 0;
            let mut over: bool = false;
            proof {
                assert(src.subrange(tstart, tstart) =~= Seq::<char>::empty());
            }
            while i < end
                invariant
                    self@.source == src,
                    src.len() <= u32::MAX,
                    self@.start == tstart,
                    self@.position == d1,
                    end as int == d1,
                    d1 == digit_run_end(src, tstart + 1),
                    is_digit_char(src[tstart]),
                    tstart <= i as int <= d1 <= src.len(),
                    !over ==> acc as int == dec_value(src.subrange(tstart, i as int)) && acc
                        <= i64::MAX as u64,
                    over ==> dec_value(src.subrange(tstart, i as int)) > i64::MAX,
                decreases end as int - i as int,
            {
                proof {
                    if tstart < i as int {
                        lemma_digit_run_chars(src, tstart + 1, i as int);
                    }
                }
                let c = self.source.get_char(i as usize);
                let d: u64 = (c as u32 - 48) as u64;
                let ghost prefix = src.subrange(tstart, i as int);
                let ghost extended = src.subrange(tstart, i as int + 1);
                proof {
                    assert(extended.drop_last() =~= prefix);
                    assert(extended.last() == src[i as int]);
                    assert(dec_value(extended) == dec_value(prefix) * 10 + digit_value(
                        src[i as int],
                    ));
                }
                if over {
                    proof {
                        assert(dec_value(prefix) * 10 >= dec_value(prefix)) by (nonlinear_arith)
                            requires
                                dec_value(prefix) > 0,
                        ;
                    }
                } else {
                    if acc > (9223372036854775807u64 - d) / 10 {
                        over = true;
                        proof {
                            assert(dec_value(prefix) * 10 + digit_value(src[i as int])
                                > i64::MAX) by (nonlinear_arith)
                                requires
                                    dec_value(prefix) == acc as int,
                                    digit_value(src[i as int]) == d as int,
                                    0 <= d <= 9,
                                    acc as int > (i64::MAX - d as int) / 10,
                            ;
                        }
                    } else {
                        proof {
                            assert(acc as int * 10 + d as int <= i64::MAX) by (nonlinear_arith)
                                requires
                                    0 <= d <= 9,
                                    0 <= acc as int <= (i64::MAX - d as int) / 10,
                            ;
                        }
                        acc = acc * 10 + d;
                    }
                }
                i = i + 1;
            }
            let ghost lex = src.subrange(tstart, d1);
            if over {
                let mut m = String::from_str("Malformed literal: ");
                m.append(
                    self.source.substring_char(
                        self.token_start as usize,
                        self.current_position as usize,
                    ),
                );
                proof {
                    assert(m@ =~= malformed_literal_message(lex));
                }
                Err(self.error(m))
            } else {
                let lexeme = self.source.substring_char(
                    self.token_start as usize,
                    self.current_position as usize,
                ).to_owned();
                let tok = Token {
                    type_: TokenType::Integer,
                    lexeme,
                    value: Some(TokenValue::Integer(acc as i64)),
                    column: self.current_position,
                };
                let ghost t = tok@;
                let ghost before = self.token_list@;
                self.token_list.push(tok);
                proof {
                    assert(token_views(before.push(self.token_list@.last())) =~= token_views(
                        before,
                    ).push(t));
                }
                Ok(())
            }
        }
    }

    /// Scans the rest of a boolean literal, the leading letter already
    /// consumed: the maximal alphabetic run, which must read `true` or
    /// `false`.
    fn scan_boolean(&mut self) -> (r: Result<(), Error>)
        requires
            old(self)@.source.len() <= u32::MAX,
            0 <= old(self)@.start < old(self)@.source.len(),
            old(self)@.position == old(self)@.start + 1,
        ensures
            final(self)@.source == old(self)@.source,
            final(self)@.start == old(self)@.start,
            match scan_word(old(self)@.source, old(self)@.start) {
                ScanStep::Tok(t, p) => r is Ok && final(self)@.tokens == old(self)@.tokens.push(t)
                    && final(self)@.position == p,
                ScanStep::Fail(e) => r matches Err(er) && er@ == e,
                ScanStep::Skip(_) => false,
            },
    {
        let ghost src = self.source@;
        let ghost tstart = self@.start;
        let ghost toks0 = self@.tokens;
        proof {
            lemma_alpha_run_end(src, tstart + 1);
        }
        loop
            invariant
                self@.source == src,
                src.len() <= u32::MAX,
                self@.start == tstart,
                self@.tokens == toks0,
                tstart + 1 <= self@.position <= src.len(),
                alpha_run_end(src, self@.position) == alpha_run_end(src, tstart + 1),
            ensures
                self@.source == src,
                self@.start == tstart,
                self@.tokens == toks0,
                self@.position == alpha_run_end(src, tstart + 1),
            decreases src.len() - self@.position,
        {
            match self.peek() {
                Some(ch) => {
                    if check_alphabetic(ch) {
                        self.advance();
                    } else {
                        break;
                    }
                },
                None => {
                    break;
                },
            }
        }
        let lexeme = self.source.substring_char(
            self.token_start as usize,
            self.current_position as usize,
        ).to_owned();
        if lexeme == String::from_str("true") {
            let tok = Token {
                type_: TokenType::Boolean,
                lexeme,
                value: Some(TokenValue::Boolean(true)),
                column: self.current_position,
            };
            let ghost t = tok@;
            let ghost before = self.token_list@;
            self.token_list.push(tok);
            proof {
                assert(token_views(before.push(self.token_list@.last())) =~= token_views(
                    before,
                ).push(t));
            }
            Ok(())
        } else if lexeme == String::from_str("false") {
            let tok = Token {
                type_: TokenType::Boolean,
                lexeme,
                value: Some(TokenValue::Boolean(false)),
                column: self.current_position,
            };
            let ghost t = tok@;
            let ghost before = self.token_list@;
            self.token_list.push(tok);
            proof {
                assert(token_views(before.push(self.token_list@.last())) =~= token_views(
                    before,
                ).push(t));
            }
            Ok(())
        } else {
            let mut m = String::from_str("Unrecognized token: ");
            m.append(lexeme.as_str());
            proof {
                assert(m@ =~= unrecognized_lexeme_message(src.subrange(
                    tstart,
                    alpha_run_end(src, tstart + 1),
                )));
            }
            Err(self.error(m))
        }
    }

    /// Scans one token (or skips one space) starting at the cursor.
    fn scan_next(&mut self) -> (r: Result<(), Error>)
        requires
            old(self)@.source.len() <= u32::MAX,
            old(self)@.start == old(self)@.position,
            0 <= old(self)@.position < old(self)@.source.len(),
        ensures
            final(self)@.source == old(self)@.source,
            final(self)@.start == old(self)@.start,
            match scan_one(old(self)@.source, old(self)@.position) {
                ScanStep::Skip(p) => r is Ok && final(self)@.tokens == old(self)@.tokens
                    && final(self)@.position == p,
                ScanStep::Tok(t, p) => r is Ok && final(self)@.tokens == old(self)@.tokens.push(t)
                    && final(self)@.position == p,
                ScanStep::Fail(e) => r matches Err(er) && er@ == e,
            },
    {
        let next = self.advance();
        match next {
            ' ' => Ok(()),
            '+' => {
                self.add_token(TokenType::Plus);
                Ok(())
            },
            '-' => {
                self.add_token(TokenType::Minus);
                Ok(())
            },
            '/' => {
                self.add_token(TokenType::Slash);
                Ok(())
            },
            '*' => {
                self.add_token(TokenType::Asterisk);
                Ok(())
            },
            '%' => {
                self.add_token(TokenType::Modulus);
                Ok(())
            },
            '(' => {
                self.add_token(TokenType::LeftParen);
                Ok(())
            },
            ')' => {
                self.add_token(TokenType::RightParen);
                Ok(())
            },
            '&' => {
                if self.match_character('&') {
                    self.advance();
                    self.add_token(TokenType::And);
                } else {
                    self.add_token(TokenType::BitwiseAnd);
                }
                Ok(())
            },
            '|' => {
                if self.match_character('|') {
                    self.advance();
                    self.add_token(TokenType::Or);
                } else {
                    self.add_token(TokenType::BitwiseOr);
                }
                Ok(())
            },
            '!' => {
                if self.match_character('=') {
                    self.advance();
                    self.add_token(TokenType::NotEqual);
                } else {
                    self.add_token(TokenType::Not);
                }
                Ok(())
            },
            '=' => {
                if self.match_character('=') {
                    self.advance();
                    self.add_token(TokenType::Equal);
                    Ok(())
                } else if self.match_character('>') {
                    self.advance();
                    self.add_token(TokenType::If);
                    Ok(())
                } else {
                    Err(self.error(build_unrecognized_char(next)))
                }
            },
            't' | 'f' => self.scan_boolean(),
            '~' => {
                self.add_token(TokenType::BitwiseNot);
                Ok(())
            },
            '^' => {
                self.add_token(TokenType::BitwiseXor);
                Ok(())
            },
            '>' => {
                if self.match_character('>') {
                    self.advance();
                    self.add_token(TokenType::BitwiseRightShift);
                    Ok(())
                } else {
                    Err(self.error(build_unrecognized_char(next)))
                }
            },
            '<' => {
                if self.match_character('<') {
                    self.advance();
                    self.add_token(TokenType::BitwiseLeftShift);
                    Ok(())
                } else {
                    Err(self.error(build_unrecognized_char(next)))
                }
            },
            c => {
                if check_digit(c) {
                    self.scan_number()
                } else {
                    Err(self.error(build_unrecognized_char(c)))
                }
            },
        }
    }

    /// Converts the whole input into its token list, ending with the
    /// end-of-input token, or returns the first scan error.  The outcome
    /// is exactly [`scan_spec`] of the input characters.
    pub fn tokenize(&mut self) -> (r: Result<Vec<Token>, Error>)
        requires
            old(self)@.source.len() <= u32::MAX,
            old(self)@.position == 0,
            old(self)@.start == 0,
            old(self)@.tokens == Seq::<TokenView>::empty(),
        ensures
            match r {
                Ok(toks) => scan_spec(old(self)@.source) == Ok::<Seq<TokenView>, ErrorView>(
                    token_views(toks@),
                ),
                Err(e) => scan_spec(old(self)@.source) matches Err(ev) && e@ == ev,
            },
    {
        let ghost src = self.source@;
        while self.has_next()
            invariant
                src == old(self)@.source,
                self@.source == src,
                src.len() <= u32::MAX,
                0 <= self@.position <= src.len(),
                self@.start == self@.position,
                glue(self@.tokens, scan_from(src, self@.position)) == scan_from(src, 0),
            decreases src.len() - self@.position,
        {
            let ghost pos0 = self@.position;
            let ghost toks0 = self@.tokens;
            match self.scan_next() {
                Ok(()) => {},
                Err(e) => {
                    proof {
                        lemma_scan_one_advances(src, pos0);
                        match scan_one(src, pos0) {
                            ScanStep::Fail(f) => {
                                assert(scan_from(src, pos0) == Err::<Seq<TokenView>, ErrorView>(
                                    f,
                                ));
                            },
                            _ => {
                                assert(false);
                            },
                        }
                    }
                    return Err(e);
                },
            }
            self.token_start = self.current_position;
            proof {
                lemma_scan_one_advances(src, pos0);
                match scan_one(src, pos0) {
                    ScanStep::Skip(p) => {
                        assert(scan_from(src, pos0) == scan_from(src, p));
                    },
                    ScanStep::Tok(t, p) => {
                        assert(scan_from(src, pos0) == (match scan_from(src, p) {
                            Ok(rest) => Ok::<Seq<TokenView>, ErrorView>(seq![t] + rest),
                            Err(e2) => Err(e2),
                        }));
                        match scan_from(src, p) {
                            Ok(rest) => {
                                assert(toks0.push(t) + rest =~= toks0 + (seq![t] + rest));
                            },
                            Err(_) => {},
                        }
                    },
                    ScanStep::Fail(_) => {
                        assert(false);
                    },
                }
            }
        }
        proof {
            assert(src.subrange(src.len() as int, src.len() as int) =~= Seq::<char>::empty());
            assert(plain_token(TokenType::EOF, src, src.len() as int, src.len() as int)
                == eof_token(src));
        }
        let ghost toks_before = self@.tokens;
        self.add_token(TokenType::EOF);
        let mut out: Vec<Token> = Vec::new();
        core::mem::swap(&mut out, &mut self.token_list);
        proof {
            assert(toks_before.push(eof_token(src)) =~= toks_before + seq![eof_token(src)]);
        }
        Ok(out)
    }
}
} // verus!
