use vstd::prelude::*;

use crate::error::Error;
use crate::error::ErrorView;
use crate::lexer::token_views;
use crate::lexer::Token;
use crate::lexer::TokenType;
use crate::lexer::TokenValue;
use crate::lexer::TokenValueView;
use crate::lexer::TokenView;

verus! {

/// The binary operators of the language.  The bitwise operators and the
/// comparisons are produced by the parser like every other operator; the
/// evaluator gives them their semantics.
#[derive(Debug, Clone, Copy, PartialEq, Eq, Structural)]
pub enum BinaryOperationType {
    Add,
    Subtract,
    Multiply,
    Divide,
    Modulus,
    And,
    Or,
    If,
    Equal,
    NotEqual,
    BitwiseAnd,
    BitwiseOr,
    BitwiseXor,
    BitwiseLeftShift,
    BitwiseRightShift,
}

/// The unary operators of the language.
#[derive(Debug, Clone, Copy, PartialEq, Eq, Structural)]
pub enum UnaryOperationType {
    ArithmeticNegate,
    LogicalNot,
    BitwiseNot,
}

/// A node of the abstract syntax tree.  Every node owns its children
/// outright: the tree is finite and nothing is shared.
///
/// A float literal keeps the decimal text of its lexeme; the bits of the
/// float it writes are obtained during evaluation through a
/// [`crate::expression::FloatRequest::Parse`] request, so that no
/// floating-point operation happens inside this crate.
#[derive(Debug)]
pub enum AstNode {
    BinaryOperation(BinaryOperationType, Box<AstNode>, Box<AstNode>),
    UnaryOperation(UnaryOperationType, Box<AstNode>),
    Integer(i64),
    Float(String),
    Boolean(bool),
}


/// Mathematical image of an [`AstNode`]: the same tree with the float
/// literal's text as a character sequence.
pub ghost enum AstNodeView {
    BinaryOperation(BinaryOperationType, Box<AstNodeView>, Box<AstNodeView>),
    UnaryOperation(UnaryOperationType, Box<AstNodeView>),
    Integer(i64),
    Float(Seq<char>),
    Boolean(bool),
}

/// The view of a syntax tree.
pub open spec fn ast_view(n: AstNode) -> AstNodeView
    decreases n,
{
    match n {
        AstNode::BinaryOperation(op, l, r) => AstNodeView::BinaryOperation(
            op,
            Box::new(ast_view(*l)),
            Box::new(ast_view(*r)),
        ),
        AstNode::UnaryOperation(op, operand) => AstNodeView::UnaryOperation(
            op,
            Box::new(ast_view(*operand)),
        ),
        AstNode::Integer(i) => AstNodeView::Integer(i),
        AstNode::Float(s) => AstNodeView::Float(s@),
        AstNode::Boolean(b) => AstNodeView::Boolean(b),
    }
}

// ---------------------------------------------------------------------
// The grammar as a mathematical function.
//
//   expression := term ( lowest-tier operator term )*
//   term       := factor ( ('*' | '/' | '%') factor )*
//   factor     := unary | literal | '(' expression ')'
//
// Binary operators of one tier fold to the left.  The boolean, equality
// and bitwise operators all sit on the lowest tier beside `+` and `-`.
// ---------------------------------------------------------------------

/// What parsing one production does: a tree and the position after it,
/// or the first error.
pub ghost enum ParseStep {
    Node(AstNodeView, int),
    Fail(ErrorView),
}

/// The tokens left from `pos` on; zero past the end.
pub open spec fn remaining(toks: Seq<TokenView>, pos: int) -> int {
    if pos <= toks.len() {
        toks.len() - pos
    } else {
        0
    }
}

/// `p`, but never below `lo`.
pub open spec fn at_least(p: int, lo: int) -> int {
    if p < lo {
        lo
    } else {
        p
    }
}

/// The error of a missing operand, at the offending token's column when
/// one is there, else at column zero.
pub open spec fn expected_operand_error(toks: Seq<TokenView>, pos: int) -> ErrorView {
    ErrorView {
        column: if 0 <= pos < toks.len() {
            toks[pos].column
        } else {
            0
        },
        message: "Expected an operand"@,
    }
}

/// The error of a missing closing parenthesis.
pub open spec fn expected_close_paren_error(toks: Seq<TokenView>, pos: int) -> ErrorView {
    ErrorView {
        column: if 0 <= pos < toks.len() {
            toks[pos].column
        } else {
            0
        },
        message: "Expected: ')'"@,
    }
}

/// The operators of the innermost binary tier.
pub open spec fn is_term_operator(t: TokenType) -> bool {
    t is Asterisk || t is Slash || t is Modulus
}

/// The operation a term-tier token stands for.
pub open spec fn term_operator(t: TokenType) -> BinaryOperationType {
    match t {
        TokenType::Asterisk => BinaryOperationType::Multiply,
        TokenType::Slash => BinaryOperationType::Divide,
        TokenType::Modulus => BinaryOperationType::Modulus,
        _ => arbitrary(),
    }
}

/// The operators of the lowest binary tier.
pub open spec fn is_expression_operator(t: TokenType) -> bool {
    ||| t is Plus
    ||| t is Minus
    ||| t is And
    ||| t is Or
    ||| t is If
    ||| t is BitwiseAnd
    ||| t is BitwiseOr
    ||| t is BitwiseXor
    ||| t is BitwiseLeftShift
    ||| t is BitwiseRightShift
}

/// The operation a lowest-tier token stands for.
pub open spec fn expression_operator(t: TokenType) -> BinaryOperationType {
    match t {
        TokenType::Plus => BinaryOperationType::Add,
        TokenType::Minus => BinaryOperationType::Subtract,
        TokenType::And => BinaryOperationType::And,
        TokenType::Or => BinaryOperationType::Or,
        TokenType::If => BinaryOperationType::If,
        TokenType::BitwiseAnd => BinaryOperationType::BitwiseAnd,
        TokenType::BitwiseOr => BinaryOperationType::BitwiseOr,
        TokenType::BitwiseXor => BinaryOperationType::BitwiseXor,
        TokenType::BitwiseLeftShift => BinaryOperationType::BitwiseLeftShift,
        TokenType::BitwiseRightShift => BinaryOperationType::BitwiseRightShift,
        _ => arbitrary(),
    }
}

/// Parsing a factor at `pos`: a unary operator applied to a factor, a
/// literal, or a parenthesized expression.  A missing or unexpected
/// token is the operand error.
pub open spec fn parse_factor_spec(toks: Seq<TokenView>, pos: int) -> ParseStep
    decreases remaining(toks, pos), 1int,
{
    if !(0 <= pos < toks.len()) {
        ParseStep::Fail(expected_operand_error(toks, pos))
    } else {
        let t = toks[pos];
        match t.type_ {
            TokenType::LeftParen => match parse_expression_spec(toks, pos + 1) {
                ParseStep::Node(n, p) => if 0 <= p < toks.len() && toks[p].type_ is RightParen {
                    ParseStep::Node(n, p + 1)
                } else {
                    ParseStep::Fail(expected_close_paren_error(toks, p))
                },
                ParseStep::Fail(e) => ParseStep::Fail(e),
            },
            TokenType::Minus => match parse_factor_spec(toks, pos + 1) {
                ParseStep::Node(n, p) => ParseStep::Node(
                    AstNodeView::UnaryOperation(
                        UnaryOperationType::ArithmeticNegate,
                        Box::new(n),
                    ),
                    p,
                ),
                ParseStep::Fail(e) => ParseStep::Fail(e),
            },
            TokenType::Not => match parse_factor_spec(toks, pos + 1) {
                ParseStep::Node(n, p) => ParseStep::Node(
                    AstNodeView::UnaryOperation(UnaryOperationType::LogicalNot, Box::new(n)),
                    p,
                ),
                ParseStep::Fail(e) => ParseStep::Fail(e),
            },
            TokenType::BitwiseNot => match parse_factor_spec(toks, pos + 1) {
                ParseStep::Node(n, p) => ParseStep::Node(
                    AstNodeView::UnaryOperation(UnaryOperationType::BitwiseNot, Box::new(n)),
                    p,
                ),
                ParseStep::Fail(e) => ParseStep::Fail(e),
            },
            TokenType::Boolean => match t.value {
                Some(TokenValueView::Boolean(b)) => ParseStep::Node(
                    AstNodeView::Boolean(b),
                    pos + 1,
                ),
                _ => ParseStep::Fail(
                    ErrorView { column: t.column, message: "Expected a boolean value"@ },
                ),
            },
            TokenType::Integer => match t.value {
                Some(TokenValueView::Integer(i)) => ParseStep::Node(
                    AstNodeView::Integer(i),
                    pos + 1,
                ),
                _ => ParseStep::Fail(
                    ErrorView { column: t.column, message: "Expected an integer value"@ },
                ),
            },
            TokenType::Float => match t.value {
                Some(TokenValueView::Float(text)) => ParseStep::Node(
                    AstNodeView::Float(text),
                    pos + 1,
                ),
                _ => ParseStep::Fail(
                    ErrorView { column: t.column, message: "Expected a float value"@ },
                ),
            },
            _ => ParseStep::Fail(expected_operand_error(toks, pos)),
        }
    }
}

/// Folding further factors onto `left` while term-tier operators follow.
pub open spec fn parse_term_loop_spec(toks: Seq<TokenView>, left: AstNodeView, pos: int) -> ParseStep
    decreases remaining(toks, pos), 0int,
{
    if 0 <= pos < toks.len() && is_term_operator(toks[pos].type_) {
        let op = term_operator(toks[pos].type_);
        match parse_factor_spec(toks, pos + 1) {
            ParseStep::Node(rhs, p2) => parse_term_loop_spec(
                toks,
                AstNodeView::BinaryOperation(op, Box::new(left), Box::new(rhs)),
                at_least(p2, pos + 2),
            ),
            ParseStep::Fail(e) => ParseStep::Fail(e),
        }
    } else {
        ParseStep::Node(left, pos)
    }
}

/// Parsing a term at `pos`: a factor, then left-folded `*`, `/`, `%`.
pub open spec fn parse_term_spec(toks: Seq<TokenView>, pos: int) -> ParseStep
    decreases remaining(toks, pos), 2int,
{
    match parse_factor_spec(toks, pos) {
        ParseStep::Node(first, p) => parse_term_loop_spec(toks, first, at_least(p, pos + 1)),
        ParseStep::Fail(e) => ParseStep::Fail(e),
    }
}

/// Folding further terms onto `left` while lowest-tier operators follow.
pub open spec fn parse_expression_loop_spec(
    toks: Seq<TokenView>,
    left: AstNodeView,
    pos: int,
) -> ParseStep
    decreases remaining(toks, pos), 0int,
{
    if 0 <= pos < toks.len() && is_expression_operator(toks[pos].type_) {
        let op = expression_operator(toks[pos].type_);
        match parse_term_spec(toks, pos + 1) {
            ParseStep::Node(rhs, p2) => parse_expression_loop_spec(
                toks,
                AstNodeView::BinaryOperation(op, Box::new(left), Box::new(rhs)),
                at_least(p2, pos + 2),
            ),
            ParseStep::Fail(e) => ParseStep::Fail(e),
        }
    } else {
        ParseStep::Node(left, pos)
    }
}

/// Parsing an expression at `pos`: a term, then left-folded lowest-tier
/// operators.
pub open spec fn parse_expression_spec(toks: Seq<TokenView>, pos: int) -> ParseStep
    decreases remaining(toks, pos), 3int,
{
    match parse_term_spec(toks, pos) {
        ParseStep::Node(first, p) => parse_expression_loop_spec(toks, first, at_least(p, pos + 1)),
        ParseStep::Fail(e) => ParseStep::Fail(e),
    }
}

/// Parsing the whole token list: the expression from the first token;
/// tokens after it (at least the end-of-input token) are left unread.
pub open spec fn parse_spec(toks: Seq<TokenView>) -> Result<AstNodeView, ErrorView> {
    match parse_expression_spec(toks, 0) {
        ParseStep::Node(n, p) => Ok(n),
        ParseStep::Fail(e) => Err(e),
    }
}

// ---------------------------------------------------------------------
// The executable parser.
// ---------------------------------------------------------------------

/// The recursive-descent parser: a cursor over a token list, building
/// the tree that [`parse_spec`] describes.
pub struct Parser {
    token_stream: Vec<Token>,
    current_position: usize,
}

/// Mathematical image of a [`Parser`]: the token views and the cursor.
pub ghost struct ParserView {
    pub tokens: Seq<TokenView>,
    pub position: int,
}

impl View for Parser {
    type V = ParserView;

    closed spec fn view(&self) -> ParserView {
        ParserView {
            tokens: token_views(self.token_stream@),
            position: self.current_position as int,
        }
    }
}

impl Parser {
    /// A fresh parser over a token list.
    pub fn new(token_stream: Vec<Token>) -> (r: Self)
        ensures
            r@.tokens == token_views(token_stream@),
            r@.position == 0,
    {
        Parser { token_stream, current_position: 0 }
    }

    /// Whether a token is left to read.
    fn has_next(&self) -> (r: bool)
        ensures
            r == (self@.position < self@.tokens.len()),
    {
        self.current_position < self.token_stream.len()
    }

    /// The type of the current token, if one is left.
    fn peek_type(&self) -> (r: Option<TokenType>)
        ensures
            match r {
                Some(t) => self@.position < self@.tokens.len() && t == self@.tokens[self@.position].type_,
                None => self@.position >= self@.tokens.len(),
            },
    {
        if self.current_position < self.token_stream.len() {
            Some(self.token_stream[self.current_position].type_)
        } else {
            None
        }
    }

    /// The column of the current token, or zero past the end.
    fn peek_column(&self) -> (r: u32)
        ensures
            r == (if self@.position < self@.tokens.len() {
                self@.tokens[self@.position].column
            } else {
                0u32
            }),
    {
        if self.current_position < self.token_stream.len() {
            self.token_stream[self.current_position].column
        } else {
            0
        }
    }

    /// Moves the cursor one token forward.
    fn bump(&mut self)
        requires
            old(self)@.position < old(self)@.tokens.len(),
        ensures
            final(self)@.tokens == old(self)@.tokens,
            final(self)@.position == old(self)@.position + 1,
    {
        let n = self.token_stream.len();
        proof {
            assert(old(self)@.tokens.len() == n as int);
        }
        self.current_position = self.current_position + 1;
    }

    /// Parses the inside of a parenthesized factor, the opening
    /// parenthesis already consumed, and requires the closing one.
    fn parse_parentheses(&mut self) -> (r: Result<Box<AstNode>, Error>)
        ensures
            final(self)@.tokens == old(self)@.tokens,
            ({
                let step = match parse_expression_spec(old(self)@.tokens, old(self)@.position) {
                    ParseStep::Node(n, p) => if 0 <= p < old(self)@.tokens.len() && old(self)@.tokens[p].type_ is RightParen {
                        ParseStep::Node(n, p + 1)
                    } else {
                        ParseStep::Fail(expected_close_paren_error(old(self)@.tokens, p))
                    },
                    ParseStep::Fail(e) => ParseStep::Fail(e),
                };
                match r {
                    Ok(n) => step matches ParseStep::Node(nv, p) && nv == ast_view(*n) && final(self)@.position == p && old(self)@.position < p <= old(self)@.tokens.len(),
                    Err(e) => step matches ParseStep::Fail(ev) && e@ == ev,
                }
            }),
        decreases remaining(self@.tokens, self@.position), 4int,
    {
        let factor = self.parse_expression();
        match factor {
            Err(e) => Err(e),
            Ok(n) => {
                match self.peek_type() {
                    Some(TokenType::RightParen) => {
                        self.bump();
                        Ok(n)
                    },
                    _ => {
                        let col = self.peek_column();
                        Err(Error::new(col, String::from_str("Expected: ')'")))
                    },
                }
            },
        }
    }

    /// Parses a unary operator's operand, the operator token already
    /// consumed.
    fn parse_unary_operation(&mut self, operator: UnaryOperationType) -> (r: Result<
        Box<AstNode>,
        Error,
    >)
        ensures
            final(self)@.tokens == old(self)@.tokens,
            match r {
                Ok(n) => parse_factor_spec(old(self)@.tokens, old(self)@.position)
                    matches ParseStep::Node(nv, p) && ast_view(*n)
                    == AstNodeView::UnaryOperation(operator, Box::new(nv)) && final(self)@.position == p && old(self)@.position < p <= old(self)@.tokens.len(),
                Err(e) => parse_factor_spec(old(self)@.tokens, old(self)@.position)
                    matches ParseStep::Fail(ev) && e@ == ev,
            },
        decreases remaining(self@.tokens, self@.position), 4int,
    {
        let operand = match self.parse_factor() {
            Ok(n) => n,
            Err(e) => {
                return Err(e);
            },
        };
        Ok(Box::new(AstNode::UnaryOperation(operator, operand)))
    }

    /// Parses a factor: a literal, a unary operation, or a parenthesized
    /// expression.
    fn parse_factor(&mut self) -> (r: Result<Box<AstNode>, Error>)
        ensures
            final(self)@.tokens == old(self)@.tokens,
            match r {
                Ok(n) => parse_factor_spec(old(self)@.tokens, old(self)@.position)
                    matches ParseStep::Node(nv, p) && nv == ast_view(*n) && final(self)@.position
                    == p && old(self)@.position < p <= old(self)@.tokens.len(),
                Err(e) => parse_factor_spec(old(self)@.tokens, old(self)@.position)
                    matches ParseStep::Fail(ev) && e@ == ev,
            },
        decreases remaining(self@.tokens, self@.position), 1int,
    {
        if !self.has_next() {
            return Err(Error::new(0, String::from_str("Expected an operand")));
        }
        let idx = self.current_position;
        proof {
            assert(old(self)@.tokens[idx as int] == self.token_stream@[idx as int]@);
        }
        let tt = self.token_stream[idx].type_;
        let col = self.token_stream[idx].column;
        self.bump();
        match tt {
            TokenType::LeftParen => self.parse_parentheses(),
            TokenType::Minus => self.parse_unary_operation(UnaryOperationType::ArithmeticNegate),
            TokenType::Not => self.parse_unary_operation(UnaryOperationType::LogicalNot),
            TokenType::BitwiseNot => self.parse_unary_operation(UnaryOperationType::BitwiseNot),
            TokenType::Boolean => {
                let bv = match &self.token_stream[idx].value {
                    Some(v) => v.as_boolean(),
                    None => None,
                };
                match bv {
                    Some(b) => Ok(Box::new(AstNode::Boolean(b))),
                    None => Err(Error::new(col, String::from_str("Expected a boolean value"))),
                }
            },
            TokenType::Integer => {
                let iv = match &self.token_stream[idx].value {
                    Some(v) => v.as_integer(),
                    None => None,
                };
                match iv {
                    Some(i) => Ok(Box::new(AstNode::Integer(i))),
                    None => Err(Error::new(col, String::from_str("Expected an integer value"))),
                }
            },
            TokenType::Float => {
                let fv = match &self.token_stream[idx].value {
                    Some(v) => v.as_float(),
                    None => None,
                };
                match fv {
                    Some(text) => Ok(Box::new(AstNode::Float(text))),
                    None => Err(Error::new(col, String::from_str("Expected a float value"))),
                }
            },
            _ => Err(Error::new(col, String::from_str("Expected an operand"))),
        }
    }

    /// Parses a term: a factor, then further factors folded to the left
    /// under `*`, `/` and `%`.
    fn parse_term(&mut self) -> (r: Result<Box<AstNode>, Error>)
        ensures
            final(self)@.tokens == old(self)@.tokens,
            match r {
                Ok(n) => parse_term_spec(old(self)@.tokens, old(self)@.position)
                    matches ParseStep::Node(nv, p) && nv == ast_view(*n) && final(self)@.position
                    == p && old(self)@.position < p <= old(self)@.tokens.len(),
                Err(e) => parse_term_spec(old(self)@.tokens, old(self)@.position)
                    matches ParseStep::Fail(ev) && e@ == ev,
            },
        decreases remaining(self@.tokens, self@.position), 2int,
    {
        let ghost toks = self@.tokens;
        let ghost pos0 = self@.position;
        let mut left_hand = match self.parse_factor() {
            Ok(n) => n,
            Err(e) => {
                return Err(e);
            },
        };
        loop
            invariant
                toks == old(self)@.tokens,
                pos0 == old(self)@.position,
                self@.tokens == toks,
                pos0 < self@.position <= toks.len(),
                parse_term_loop_spec(toks, ast_view(*left_hand), self@.position) == parse_term_spec(
                    toks,
                    pos0,
                ),
            ensures
                self@.tokens == toks,
                pos0 < self@.position <= toks.len(),
                parse_term_spec(toks, pos0) == ParseStep::Node(
                    ast_view(*left_hand),
                    self@.position,
                ),
            decreases toks.len() - self@.position,
        {
            let op = match self.peek_type() {
                Some(TokenType::Asterisk) => BinaryOperationType::Multiply,
                Some(TokenType::Slash) => BinaryOperationType::Divide,
                Some(TokenType::Modulus) => BinaryOperationType::Modulus,
                _ => {
                    break;
                },
            };
            self.bump();
            let right_hand = match self.parse_factor() {
                Ok(n) => n,
                Err(e) => {
                    return Err(e);
                },
            };
            left_hand = Box::new(AstNode::BinaryOperation(op, left_hand, right_hand));
        }
        Ok(left_hand)
    }

    /// Parses an expression: a term, then further terms folded to the
    /// left under the lowest-tier operators.
    fn parse_expression(&mut self) -> (r: Result<Box<AstNode>, Error>)
        ensures
            final(self)@.tokens == old(self)@.tokens,
            match r {
                Ok(n) => parse_expression_spec(old(self)@.tokens, old(self)@.position)
                    matches ParseStep::Node(nv, p) && nv == ast_view(*n) && final(self)@.position
                    == p && old(self)@.position < p <= old(self)@.tokens.len(),
                Err(e) => parse_expression_spec(old(self)@.tokens, old(self)@.position)
                    matches ParseStep::Fail(ev) && e@ == ev,
            },
        decreases remaining(self@.tokens, self@.position), 3int,
    {
        let ghost toks = self@.tokens;
        let ghost pos0 = self@.position;
        let mut left_hand = match self.parse_term() {
            Ok(n) => n,
            Err(e) => {
                return Err(e);
            },
        };
        loop
            invariant
                toks == old(self)@.tokens,
                pos0 == old(self)@.position,
                self@.tokens == toks,
                pos0 < self@.position <= toks.len(),
                parse_expression_loop_spec(toks, ast_view(*left_hand), self@.position)
                    == parse_expression_spec(toks, pos0),
            ensures
                self@.tokens == toks,
                pos0 < self@.position <= toks.len(),
                parse_expression_spec(toks, pos0) == ParseStep::Node(
                    ast_view(*left_hand),
                    self@.position,
                ),
            decreases toks.len() - self@.position,
        {
            let op = match self.peek_type() {
                Some(TokenType::Plus) => BinaryOperationType::Add,
                Some(TokenType::Minus) => BinaryOperationType::Subtract,
                Some(TokenType::And) => BinaryOperationType::And,
                Some(TokenType::Or) => BinaryOperationType::Or,
                Some(TokenType::If) => BinaryOperationType::If,
                Some(TokenType::BitwiseAnd) => BinaryOperationType::BitwiseAnd,
                Some(TokenType::BitwiseOr) => BinaryOperationType::BitwiseOr,
                Some(TokenType::BitwiseXor) => BinaryOperationType::BitwiseXor,
                Some(TokenType::BitwiseLeftShift) => BinaryOperationType::BitwiseLeftShift,
                Some(TokenType::BitwiseRightShift) => BinaryOperationType::BitwiseRightShift,
                _ => {
                    break;
                },
            };
            self.bump();
            let right_hand = match self.parse_term() {
                Ok(n) => n,
                Err(e) => {
                    return Err(e);
                },
            };
            left_hand = Box::new(AstNode::BinaryOperation(op, left_hand, right_hand));
        }
        Ok(left_hand)
    }

    /// Parses the syntax tree of the token list.  The outcome is exactly
    /// [`parse_spec`] of the tokens; whatever follows the parsed
    /// expression (at least the end-of-input token) is left unread.
    pub fn parse(&mut self) -> (r: Result<Box<AstNode>, Error>)
        requires
            old(self)@.position == 0,
        ensures
            match r {
                Ok(n) => parse_spec(old(self)@.tokens) matches Ok(nv) && nv == ast_view(*n),
                Err(e) => parse_spec(old(self)@.tokens) matches Err(ev) && e@ == ev,
            },
    {
        let root = self.parse_expression();
        match root {
            Ok(node) => Ok(node),
            Err(e) => Err(e),
        }
    }
}
} // verus!
