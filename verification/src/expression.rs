use vstd::prelude::*;

use crate::decimal::dec_text;
use crate::decimal::integer_text;
use crate::error::Error;
use crate::error::ErrorView;
use crate::parser::ast_view;
use crate::parser::AstNode;
use crate::parser::AstNodeView;
use crate::parser::BinaryOperationType;
use crate::parser::UnaryOperationType;

verus! {

/// A runtime value produced by the evaluator.  A float is carried as the
/// `u64` holding its IEEE 754 bit pattern; the crate never performs a
/// floating-point operation itself.
#[derive(Debug, Clone, Copy, PartialEq, Eq, Structural)]
pub enum Value {
    /// IEEE 754 bit pattern of a 64-bit float.
    Float(u64),
    Integer(i64),
    Boolean(bool),
}

/// One piece of floating-point work the evaluator asks its caller to
/// perform.  Every request is a pure function of its payload: the caller
/// computes it on real floats and feeds the reply back as a
/// [`FloatAnswer`].
#[derive(Debug)]
pub enum FloatRequest {
    /// The bits of the float written by this decimal literal text
    /// (digits, one optional dot, digits).
    Parse(String),
    /// The bits of the float nearest to this integer (`as f64` widening).
    Promote(i64),
    /// The bits of `left op right` computed on 64-bit floats, where the
    /// operator is one of `Add`, `Subtract`, `Multiply`, `Divide`,
    /// `Modulus` and the two payloads are float bit patterns.
    Arith(BinaryOperationType, u64, u64),
    /// The display text of the float with these bits, as `{}` prints it.
    Format(u64),
}

/// Mathematical image of a [`FloatRequest`].
pub ghost enum FloatRequestView {
    Parse(Seq<char>),
    Promote(i64),
    Arith(BinaryOperationType, u64, u64),
    Format(u64),
}

impl View for FloatRequest {
    type V = FloatRequestView;

    open spec fn view(&self) -> FloatRequestView {
        match self {
            FloatRequest::Parse(s) => FloatRequestView::Parse(s@),
            FloatRequest::Promote(i) => FloatRequestView::Promote(*i),
            FloatRequest::Arith(op, a, b) => FloatRequestView::Arith(*op, *a, *b),
            FloatRequest::Format(b) => FloatRequestView::Format(*b),
        }
    }
}

/// The caller's reply to one [`FloatRequest`], in request order.
/// `Parse`, `Promote` and `Arith` expect [`FloatAnswer::Bits`];
/// `Format` expects [`FloatAnswer::Text`].
#[derive(Debug)]
pub enum FloatAnswer {
    /// A float as its IEEE 754 bit pattern.
    Bits(u64),
    /// A display text.
    Text(String),
}

/// The bits carried by an answer; a mismatched reply is read as zero bits.
pub open spec fn answer_bits(a: FloatAnswer) -> u64 {
    match a {
        FloatAnswer::Bits(b) => b,
        FloatAnswer::Text(_) => 0,
    }
}

/// The text carried by an answer; a mismatched reply is read as empty.
pub open spec fn answer_text(a: FloatAnswer) -> Seq<char> {
    match a {
        FloatAnswer::Bits(_) => Seq::<char>::empty(),
        FloatAnswer::Text(s) => s@,
    }
}

/// What one evaluation attempt produced: a final value, a final error, or
/// a request for one piece of floating-point work.  In the last case the
/// caller computes the answer, appends it to the answer list and calls
/// again; evaluation is deterministic, so the attempt runs through the
/// same prefix and gets one step further
/// ([`crate::laws::lemma_request_only_at_end`] and
/// [`crate::laws::lemma_answer_extension`] prove this replay safe).
#[derive(Debug)]
pub enum Outcome {
    Value(Value),
    Error(Error),
    NeedsFloat(FloatRequest),
}

/// Mathematical image of an [`Outcome`].
pub ghost enum OutcomeView {
    Value(Value),
    Error(ErrorView),
    NeedsFloat(FloatRequestView),
}

impl View for Outcome {
    type V = OutcomeView;

    open spec fn view(&self) -> OutcomeView {
        match self {
            Outcome::Value(v) => OutcomeView::Value(*v),
            Outcome::Error(e) => OutcomeView::Error(e@),
            Outcome::NeedsFloat(r) => OutcomeView::NeedsFloat(r@),
        }
    }
}

// ---------------------------------------------------------------------
// Bit-level reading of IEEE 754 binary64 values.  These definitions are
// this crate's own: the sign is the top bit, the exponent the next 11
// bits, and a NaN has an all-ones exponent with a non-zero fraction.
// ---------------------------------------------------------------------

/// The sign bit of a 64-bit float.
pub const FLOAT_SIGN_BIT: u64 = 0x8000_0000_0000_0000;

/// True of the bit patterns of `0.0` and `-0.0`, the two floats equal to
/// zero; a NaN or a denormal is never one of them.
pub open spec fn is_zero_bits(b: u64) -> bool {
    b == 0 || b == FLOAT_SIGN_BIT
}

/// True of the bit patterns that encode a NaN: all-ones exponent and a
/// non-zero fraction.
pub open spec fn is_nan_bits(b: u64) -> bool {
    (b >> 52) & 0x7FF == 0x7FF && b & 0x000F_FFFF_FFFF_FFFF != 0
}

/// Negation of a 64-bit float is exactly a flip of its sign bit.
pub open spec fn negate_bits(b: u64) -> u64 {
    b ^ FLOAT_SIGN_BIT
}

/// IEEE 754 equality on bit patterns: a NaN equals nothing, the two
/// zeros equal each other, and otherwise two floats are equal exactly
/// when their bits are.
pub open spec fn float_eq_bits(a: u64, b: u64) -> bool {
    if is_nan_bits(a) || is_nan_bits(b) {
        false
    } else {
        a == b || (is_zero_bits(a) && is_zero_bits(b))
    }
}

/// Runtime check for [`is_zero_bits`].
fn check_zero_bits(b: u64) -> (r: bool)
    ensures
        r == is_zero_bits(b),
{
    b == 0 || b == FLOAT_SIGN_BIT
}

/// Runtime check for [`is_nan_bits`].
fn check_nan_bits(b: u64) -> (r: bool)
    ensures
        r == is_nan_bits(b),
{
    (b >> 52) & 0x7FF == 0x7FF && b & 0x000F_FFFF_FFFF_FFFF != 0
}

/// Runtime computation of [`float_eq_bits`].
fn check_float_eq_bits(a: u64, b: u64) -> (r: bool)
    ensures
        r == float_eq_bits(a, b),
{
    if check_nan_bits(a) || check_nan_bits(b) {
        false
    } else {
        a == b || (check_zero_bits(a) && check_zero_bits(b))
    }
}

/// Two's-complement bitwise not of a 64-bit integer, as arithmetic.
pub open spec fn bitwise_not_i64(x: i64) -> i64 {
    (-1 - x as int) as i64
}

// ---------------------------------------------------------------------
// Error messages.
// ---------------------------------------------------------------------

/// The operator symbol as it appears in source text and error messages.
pub open spec fn binary_symbol(op: BinaryOperationType) -> Seq<char> {
    match op {
        BinaryOperationType::Add => "+"@,
        BinaryOperationType::Subtract => "-"@,
        BinaryOperationType::Multiply => "*"@,
        BinaryOperationType::Divide => "/"@,
        BinaryOperationType::Modulus => "%"@,
        BinaryOperationType::And => "&&"@,
        BinaryOperationType::Or => "||"@,
        BinaryOperationType::If => "=>"@,
        BinaryOperationType::Equal => "=="@,
        BinaryOperationType::NotEqual => "!="@,
        BinaryOperationType::BitwiseAnd => "&"@,
        BinaryOperationType::BitwiseOr => "|"@,
        BinaryOperationType::BitwiseXor => "^"@,
        BinaryOperationType::BitwiseLeftShift => "<<"@,
        BinaryOperationType::BitwiseRightShift => ">>"@,
    }
}

/// The unary operator symbol.
pub open spec fn unary_symbol(op: UnaryOperationType) -> Seq<char> {
    match op {
        UnaryOperationType::ArithmeticNegate => "-"@,
        UnaryOperationType::LogicalNot => "!"@,
        UnaryOperationType::BitwiseNot => "~"@,
    }
}

/// Message of a type error on a unary operand, echoing the value.
pub open spec fn invalid_unary_message(op: Seq<char>, val: Seq<char>) -> Seq<char> {
    "Invalid operand for '"@ + op + "': "@ + val
}

/// Message of a type error on one side of a binary operator, echoing the
/// offending value.
pub open spec fn invalid_binary_message(side: Seq<char>, op: Seq<char>, val: Seq<char>) -> Seq<
    char,
> {
    "Invalid "@ + side + " operand for '"@ + op + "': "@ + val
}

/// Message of a division or modulus whose right operand is a float zero.
pub open spec fn division_by_zero_message() -> Seq<char> {
    "Division by 0"@
}

/// The exec symbol of a binary operator.
fn binary_symbol_str(op: BinaryOperationType) -> (r: &'static str)
    ensures
        r@ == binary_symbol(op),
{
    match op {
        BinaryOperationType::Add => "+",
        BinaryOperationType::Subtract => "-",
        BinaryOperationType::Multiply => "*",
        BinaryOperationType::Divide => "/",
        BinaryOperationType::Modulus => "%",
        BinaryOperationType::And => "&&",
        BinaryOperationType::Or => "||",
        BinaryOperationType::If => "=>",
        BinaryOperationType::Equal => "==",
        BinaryOperationType::NotEqual => "!=",
        BinaryOperationType::BitwiseAnd => "&",
        BinaryOperationType::BitwiseOr => "|",
        BinaryOperationType::BitwiseXor => "^",
        BinaryOperationType::BitwiseLeftShift => "<<",
        BinaryOperationType::BitwiseRightShift => ">>",
    }
}

/// The exec symbol of a unary operator.
fn unary_symbol_str(op: UnaryOperationType) -> (r: &'static str)
    ensures
        r@ == unary_symbol(op),
{
    match op {
        UnaryOperationType::ArithmeticNegate => "-",
        UnaryOperationType::LogicalNot => "!",
        UnaryOperationType::BitwiseNot => "~",
    }
}

/// Builds the text of [`invalid_unary_message`].
fn build_invalid_unary(op: &str, val: &String) -> (r: String)
    ensures
        r@ == invalid_unary_message(op@, val@),
{
    let mut out = String::from_str("Invalid operand for '");
    out.append(op);
    out.append("': ");
    out.append(val.as_str());
    assert(out@ =~= invalid_unary_message(op@, val@));
    out
}

/// Builds the text of [`invalid_binary_message`].
fn build_invalid_binary(side: &str, op: &str, val: &String) -> (r: String)
    ensures
        r@ == invalid_binary_message(side@, op@, val@),
{
    let mut out = String::from_str("Invalid ");
    out.append(side);
    out.append(" operand for '");
    out.append(op);
    out.append("': ");
    out.append(val.as_str());
    assert(out@ =~= invalid_binary_message(side@, op@, val@));
    out
}

// ---------------------------------------------------------------------
// Reading a value as one of the three kinds.
// ---------------------------------------------------------------------

/// The integer a value holds, if it is one.
pub open spec fn as_integer_spec(v: Value) -> Option<i64> {
    match v {
        Value::Integer(n) => Some(n),
        _ => None,
    }
}

/// The boolean a value holds, if it is one.
pub open spec fn as_boolean_spec(v: Value) -> Option<bool> {
    match v {
        Value::Boolean(b) => Some(b),
        _ => None,
    }
}

/// True of the values the arithmetic operators accept: floats and
/// integers, which promote to float.
pub open spec fn is_numeric(v: Value) -> bool {
    !(v is Boolean)
}

impl Value {
    /// The integer this value holds, if it is one.
    fn as_integer(&self) -> (r: Option<i64>)
        ensures
            r == as_integer_spec(*self),
    {
        match self {
            Value::Integer(n) => Some(*n),
            _ => None,
        }
    }

    /// The boolean this value holds, if it is one.
    fn as_boolean(&self) -> (r: Option<bool>)
        ensures
            r == as_boolean_spec(*self),
    {
        match self {
            Value::Boolean(b) => Some(*b),
            _ => None,
        }
    }
}

// ---------------------------------------------------------------------
// Steps that may consume one answer: promotion to float and display text.
// ---------------------------------------------------------------------

/// Result of reading a value as a float.
pub ghost enum PromotedSpec {
    /// The value's float bits.
    Bits(u64),
    /// An integer needs widening and no answer is left: the request to
    /// put to the caller.
    Pending(FloatRequestView),
    /// The value is a boolean, which no arithmetic operator accepts.
    Invalid,
}

/// Reading a value as a float: a float gives its own bits, an integer
/// consumes one answer (the bits of its `as f64` widening), a boolean is
/// invalid.
pub open spec fn promote_spec(v: Value, ans: Seq<FloatAnswer>, at: int) -> (PromotedSpec, int) {
    match v {
        Value::Float(b) => (PromotedSpec::Bits(b), at),
        Value::Integer(n) => if 0 <= at < ans.len() {
            (PromotedSpec::Bits(answer_bits(ans[at])), at + 1)
        } else {
            (PromotedSpec::Pending(FloatRequestView::Promote(n)), at)
        },
        Value::Boolean(_) => (PromotedSpec::Invalid, at),
    }
}

/// Exec image of [`PromotedSpec`].
enum Promoted {
    Bits(u64),
    Pending(FloatRequest),
    Invalid,
}

impl View for Promoted {
    type V = PromotedSpec;

    closed spec fn view(&self) -> PromotedSpec {
        match self {
            Promoted::Bits(b) => PromotedSpec::Bits(*b),
            Promoted::Pending(r) => PromotedSpec::Pending(r@),
            Promoted::Invalid => PromotedSpec::Invalid,
        }
    }
}

/// The bits an answer carries.
fn read_answer_bits(a: &FloatAnswer) -> (r: u64)
    ensures
        r == answer_bits(*a),
{
    match a {
        FloatAnswer::Bits(b) => *b,
        FloatAnswer::Text(_) => 0,
    }
}

impl Value {
    /// Reads this value as a float, widening an integer through one
    /// answer, as the original promotion rule does.
    fn as_float(&self, answers: &Vec<FloatAnswer>, at: &mut usize) -> (r: Promoted)
        ensures
            ({
                let (p, k) = promote_spec(*self, answers@, *old(at) as int);
                r@ == p && *final(at) as int == k
            }),
    {
        match self {
            Value::Float(b) => Promoted::Bits(*b),
            Value::Integer(n) => {
                if *at < answers.len() {
                    let b = read_answer_bits(&answers[*at]);
                    *at = *at + 1;
                    Promoted::Bits(b)
                } else {
                    Promoted::Pending(FloatRequest::Promote(*n))
                }
            },
            Value::Boolean(_) => Promoted::Invalid,
        }
    }
}

/// Result of producing a value's display text.
pub ghost enum TextSpec {
    Text(Seq<char>),
    Pending(FloatRequestView),
}

/// Display text of a value: integers and booleans are formed here, a
/// float's text consumes one answer.
pub open spec fn value_text_spec(v: Value, ans: Seq<FloatAnswer>, at: int) -> (TextSpec, int) {
    match v {
        Value::Integer(n) => (TextSpec::Text(dec_text(n as int)), at),
        Value::Boolean(b) => (
            TextSpec::Text(
                if b {
                    "true"@
                } else {
                    "false"@
                },
            ),
            at,
        ),
        Value::Float(bits) => if 0 <= at < ans.len() {
            (TextSpec::Text(answer_text(ans[at])), at + 1)
        } else {
            (TextSpec::Pending(FloatRequestView::Format(bits)), at)
        },
    }
}

/// Exec image of [`TextSpec`].
enum ValueText {
    Text(String),
    Pending(FloatRequest),
}

impl View for ValueText {
    type V = TextSpec;

    closed spec fn view(&self) -> TextSpec {
        match self {
            ValueText::Text(s) => TextSpec::Text(s@),
            ValueText::Pending(r) => TextSpec::Pending(r@),
        }
    }
}

/// The text an answer carries.
fn read_answer_text(a: &FloatAnswer) -> (r: String)
    ensures
        r@ == answer_text(*a),
{
    match a {
        FloatAnswer::Bits(_) => String::new(),
        FloatAnswer::Text(s) => s.clone(),
    }
}

/// Produces the display text of a value, echoed in type-error messages.
fn value_text(v: &Value, answers: &Vec<FloatAnswer>, at: &mut usize) -> (r: ValueText)
    ensures
        ({
            let (t, k) = value_text_spec(*v, answers@, *old(at) as int);
            r@ == t && *final(at) as int == k
        }),
{
    match v {
        Value::Integer(n) => ValueText::Text(integer_text(*n)),
        Value::Boolean(b) => {
            if *b {
                ValueText::Text(String::from_str("true"))
            } else {
                ValueText::Text(String::from_str("false"))
            }
        },
        Value::Float(bits) => {
            if *at < answers.len() {
                let t = read_answer_text(&answers[*at]);
                *at = *at + 1;
                ValueText::Text(t)
            } else {
                ValueText::Pending(FloatRequest::Format(*bits))
            }
        },
    }
}

// ---------------------------------------------------------------------
// Type-error outcomes.
// ---------------------------------------------------------------------

/// The outcome of a type error on one side of a binary operator: the
/// error, or first a `Format` request when the offending value is a
/// float whose text is not known yet.
pub open spec fn invalid_operand_spec(
    left_side: bool,
    op: BinaryOperationType,
    v: Value,
    ans: Seq<FloatAnswer>,
    at: int,
) -> (OutcomeView, int) {
    let (t, k) = value_text_spec(v, ans, at);
    match t {
        TextSpec::Text(txt) => (
            OutcomeView::Error(
                ErrorView {
                    column: 0,
                    message: invalid_binary_message(
                        if left_side {
                            "left"@
                        } else {
                            "right"@
                        },
                        binary_symbol(op),
                        txt,
                    ),
                },
            ),
            k,
        ),
        TextSpec::Pending(req) => (OutcomeView::NeedsFloat(req), k),
    }
}

/// Builds the outcome of [`invalid_operand_spec`].
fn invalid_operand(
    left_side: bool,
    op: BinaryOperationType,
    v: &Value,
    answers: &Vec<FloatAnswer>,
    at: &mut usize,
) -> (r: Outcome)
    ensures
        ({
            let (o, k) = invalid_operand_spec(left_side, op, *v, answers@, *old(at) as int);
            r@ == o && *final(at) as int == k
        }),
{
    match value_text(v, answers, at) {
        ValueText::Text(txt) => {
            let side = if left_side {
                "left"
            } else {
                "right"
            };
            Outcome::Error(Error::new(0, build_invalid_binary(side, binary_symbol_str(op), &txt)))
        },
        ValueText::Pending(req) => Outcome::NeedsFloat(req),
    }
}

/// The outcome of a type error on a unary operand.
pub open spec fn invalid_unary_operand_spec(
    op: UnaryOperationType,
    v: Value,
    ans: Seq<FloatAnswer>,
    at: int,
) -> (OutcomeView, int) {
    let (t, k) = value_text_spec(v, ans, at);
    match t {
        TextSpec::Text(txt) => (
            OutcomeView::Error(
                ErrorView { column: 0, message: invalid_unary_message(unary_symbol(op), txt) },
            ),
            k,
        ),
        TextSpec::Pending(req) => (OutcomeView::NeedsFloat(req), k),
    }
}

/// Builds the outcome of [`invalid_unary_operand_spec`].
fn invalid_unary_operand(
    op: UnaryOperationType,
    v: &Value,
    answers: &Vec<FloatAnswer>,
    at: &mut usize,
) -> (r: Outcome)
    ensures
        ({
            let (o, k) = invalid_unary_operand_spec(op, *v, answers@, *old(at) as int);
            r@ == o && *final(at) as int == k
        }),
{
    match value_text(v, answers, at) {
        ValueText::Text(txt) => {
            Outcome::Error(Error::new(0, build_invalid_unary(unary_symbol_str(op), &txt)))
        },
        ValueText::Pending(req) => Outcome::NeedsFloat(req),
    }
}


// ---------------------------------------------------------------------
// The operators.
// ---------------------------------------------------------------------

/// Outcome of the final step of an arithmetic operator once both operand
/// bit patterns are known: the answer's bits, or the request for them.
pub open spec fn arith_request_spec(
    op: BinaryOperationType,
    lb: u64,
    rb: u64,
    ans: Seq<FloatAnswer>,
    at: int,
) -> (OutcomeView, int) {
    if 0 <= at < ans.len() {
        (OutcomeView::Value(Value::Float(answer_bits(ans[at]))), at + 1)
    } else {
        (OutcomeView::NeedsFloat(FloatRequestView::Arith(op, lb, rb)), at)
    }
}

/// Outcome of an arithmetic operator on two evaluated values.  Both
/// operands must be numeric (floats, or integers widened through one
/// answer each); the result is always a float.  For division and modulus
/// the right operand is read first, and a right operand equal to a float
/// zero fails with the division-by-zero error no matter what stands on
/// the left.
pub open spec fn arith_spec(
    op: BinaryOperationType,
    l: Value,
    r: Value,
    ans: Seq<FloatAnswer>,
    at: int,
) -> (OutcomeView, int) {
    if op is Divide || op is Modulus {
        if is_numeric(r) {
            let (pr, k1) = promote_spec(r, ans, at);
            match pr {
                PromotedSpec::Bits(rb) => {
                    if is_zero_bits(rb) {
                        (
                            OutcomeView::Error(
                                ErrorView { column: 0, message: division_by_zero_message() },
                            ),
                            k1,
                        )
                    } else if !is_numeric(l) {
                        invalid_operand_spec(true, op, l, ans, k1)
                    } else {
                        let (pl, k2) = promote_spec(l, ans, k1);
                        match pl {
                            PromotedSpec::Bits(lb) => arith_request_spec(op, lb, rb, ans, k2),
                            PromotedSpec::Pending(req) => (OutcomeView::NeedsFloat(req), k2),
                            PromotedSpec::Invalid => arbitrary(),
                        }
                    }
                },
                PromotedSpec::Pending(req) => (OutcomeView::NeedsFloat(req), k1),
                PromotedSpec::Invalid => arbitrary(),
            }
        } else {
            invalid_operand_spec(false, op, r, ans, at)
        }
    } else {
        if !is_numeric(l) && is_numeric(r) {
            invalid_operand_spec(true, op, l, ans, at)
        } else if !is_numeric(r) {
            invalid_operand_spec(false, op, r, ans, at)
        } else {
            let (pl, k1) = promote_spec(l, ans, at);
            match pl {
                PromotedSpec::Bits(lb) => {
                    let (pr, k2) = promote_spec(r, ans, k1);
                    match pr {
                        PromotedSpec::Bits(rb) => arith_request_spec(op, lb, rb, ans, k2),
                        PromotedSpec::Pending(req) => (OutcomeView::NeedsFloat(req), k2),
                        PromotedSpec::Invalid => arbitrary(),
                    }
                },
                PromotedSpec::Pending(req) => (OutcomeView::NeedsFloat(req), k1),
                PromotedSpec::Invalid => arbitrary(),
            }
        }
    }
}

/// The boolean connectives: both operands must be booleans; there is no
/// short-circuiting, both sides were already evaluated.  `If` is material
/// implication.
pub open spec fn boolean_apply(op: BinaryOperationType, a: bool, b: bool) -> bool {
    match op {
        BinaryOperationType::And => a && b,
        BinaryOperationType::Or => a || b,
        BinaryOperationType::If => !a || b,
        _ => arbitrary(),
    }
}

/// Outcome of a boolean connective on two evaluated values.
pub open spec fn boolean_spec(
    op: BinaryOperationType,
    l: Value,
    r: Value,
    ans: Seq<FloatAnswer>,
    at: int,
) -> (OutcomeView, int) {
    match (as_boolean_spec(l), as_boolean_spec(r)) {
        (Some(a), Some(b)) => (OutcomeView::Value(Value::Boolean(boolean_apply(op, a, b))), at),
        (None, Some(_)) => invalid_operand_spec(true, op, l, ans, at),
        _ => invalid_operand_spec(false, op, r, ans, at),
    }
}

/// Outcome of `==` or `!=` on two evaluated values: operands of the same
/// kind compare (floats by IEEE 754 equality, so a NaN equals nothing and
/// the two zeros are equal); operands of different kinds are a type error
/// on the right side.
pub open spec fn equality_spec(
    op: BinaryOperationType,
    l: Value,
    r: Value,
    ans: Seq<FloatAnswer>,
    at: int,
) -> (OutcomeView, int) {
    match (l, r) {
        (Value::Integer(a), Value::Integer(b)) => (
            OutcomeView::Value(
                Value::Boolean(
                    if op is NotEqual {
                        a != b
                    } else {
                        a == b
                    },
                ),
            ),
            at,
        ),
        (Value::Boolean(a), Value::Boolean(b)) => (
            OutcomeView::Value(
                Value::Boolean(
                    if op is NotEqual {
                        a != b
                    } else {
                        a == b
                    },
                ),
            ),
            at,
        ),
        (Value::Float(a), Value::Float(b)) => (
            OutcomeView::Value(
                Value::Boolean(
                    if op is NotEqual {
                        !float_eq_bits(a, b)
                    } else {
                        float_eq_bits(a, b)
                    },
                ),
            ),
            at,
        ),
        _ => invalid_operand_spec(false, op, r, ans, at),
    }
}

/// Outcome of a binary bitwise operator on two evaluated values: both
/// operands must be integers; a shift distance outside `0..64` is a type
/// error on the right side.
pub open spec fn bitwise_spec(
    op: BinaryOperationType,
    l: Value,
    r: Value,
    ans: Seq<FloatAnswer>,
    at: int,
) -> (OutcomeView, int) {
    match (l, r) {
        (Value::Integer(a), Value::Integer(b)) => match op {
            BinaryOperationType::BitwiseAnd => (OutcomeView::Value(Value::Integer(a & b)), at),
            BinaryOperationType::BitwiseOr => (OutcomeView::Value(Value::Integer(a | b)), at),
            BinaryOperationType::BitwiseXor => (OutcomeView::Value(Value::Integer(a ^ b)), at),
            BinaryOperationType::BitwiseLeftShift => if 0 <= b < 64 {
                (OutcomeView::Value(Value::Integer(a << b)), at)
            } else {
                invalid_operand_spec(false, op, r, ans, at)
            },
            BinaryOperationType::BitwiseRightShift => if 0 <= b < 64 {
                (OutcomeView::Value(Value::Integer(a >> b)), at)
            } else {
                invalid_operand_spec(false, op, r, ans, at)
            },
            _ => arbitrary(),
        },
        (_, Value::Integer(_)) => invalid_operand_spec(true, op, l, ans, at),
        _ => invalid_operand_spec(false, op, r, ans, at),
    }
}

/// Outcome of any binary operator on two evaluated values.
pub open spec fn apply_binary_spec(
    op: BinaryOperationType,
    l: Value,
    r: Value,
    ans: Seq<FloatAnswer>,
    at: int,
) -> (OutcomeView, int) {
    match op {
        BinaryOperationType::Add
        | BinaryOperationType::Subtract
        | BinaryOperationType::Multiply
        | BinaryOperationType::Divide
        | BinaryOperationType::Modulus => arith_spec(op, l, r, ans, at),
        BinaryOperationType::And | BinaryOperationType::Or | BinaryOperationType::If => boolean_spec(
            op,
            l,
            r,
            ans,
            at,
        ),
        BinaryOperationType::Equal | BinaryOperationType::NotEqual => equality_spec(
            op,
            l,
            r,
            ans,
            at,
        ),
        BinaryOperationType::BitwiseAnd
        | BinaryOperationType::BitwiseOr
        | BinaryOperationType::BitwiseXor
        | BinaryOperationType::BitwiseLeftShift
        | BinaryOperationType::BitwiseRightShift => bitwise_spec(op, l, r, ans, at),
    }
}

/// Outcome of arithmetic negation: the operand is read as a float and its
/// sign bit is flipped, which is exactly IEEE 754 negation.
pub open spec fn arith_negation_spec(v: Value, ans: Seq<FloatAnswer>, at: int) -> (
    OutcomeView,
    int,
) {
    let (p, k) = promote_spec(v, ans, at);
    match p {
        PromotedSpec::Bits(b) => (OutcomeView::Value(Value::Float(negate_bits(b))), k),
        PromotedSpec::Pending(req) => (OutcomeView::NeedsFloat(req), k),
        PromotedSpec::Invalid => invalid_unary_operand_spec(
            UnaryOperationType::ArithmeticNegate,
            v,
            ans,
            at,
        ),
    }
}

/// Outcome of logical not: the operand must be a boolean.
pub open spec fn logical_not_spec(v: Value, ans: Seq<FloatAnswer>, at: int) -> (OutcomeView, int) {
    match as_boolean_spec(v) {
        Some(b) => (OutcomeView::Value(Value::Boolean(!b)), at),
        None => invalid_unary_operand_spec(UnaryOperationType::LogicalNot, v, ans, at),
    }
}

/// Outcome of bitwise not: the operand must be an integer; all 64 bits
/// flip.
pub open spec fn bitwise_not_spec(v: Value, ans: Seq<FloatAnswer>, at: int) -> (OutcomeView, int) {
    match as_integer_spec(v) {
        Some(x) => (OutcomeView::Value(Value::Integer(bitwise_not_i64(x))), at),
        None => invalid_unary_operand_spec(UnaryOperationType::BitwiseNot, v, ans, at),
    }
}

/// Outcome of any unary operator on an evaluated value.
pub open spec fn apply_unary_spec(op: UnaryOperationType, v: Value, ans: Seq<FloatAnswer>, at: int) -> (
    OutcomeView,
    int,
) {
    match op {
        UnaryOperationType::ArithmeticNegate => arith_negation_spec(v, ans, at),
        UnaryOperationType::LogicalNot => logical_not_spec(v, ans, at),
        UnaryOperationType::BitwiseNot => bitwise_not_spec(v, ans, at),
    }
}

/// Exec check for [`is_numeric`].
fn is_numeric_value(v: &Value) -> (r: bool)
    ensures
        r == is_numeric(*v),
{
    match v {
        Value::Boolean(_) => false,
        _ => true,
    }
}

/// Final step of an arithmetic operator: consume the answer's bits or ask
/// for them.
fn arith_request(
    op: BinaryOperationType,
    lb: u64,
    rb: u64,
    answers: &Vec<FloatAnswer>,
    at: &mut usize,
) -> (r: Outcome)
    ensures
        ({
            let (o, k) = arith_request_spec(op, lb, rb, answers@, *old(at) as int);
            r@ == o && *final(at) as int == k
        }),
{
    if *at < answers.len() {
        let b = read_answer_bits(&answers[*at]);
        *at = *at + 1;
        Outcome::Value(Value::Float(b))
    } else {
        Outcome::NeedsFloat(FloatRequest::Arith(op, lb, rb))
    }
}

/// Shared body of the five arithmetic operators.
fn compute_arithmetic(
    op: BinaryOperationType,
    left_side: &Value,
    right_side: &Value,
    answers: &Vec<FloatAnswer>,
    at: &mut usize,
) -> (r: Outcome)
    ensures
        ({
            let (o, k) = arith_spec(op, *left_side, *right_side, answers@, *old(at) as int);
            r@ == o && *final(at) as int == k
        }),
{
    let div_like = match op {
        BinaryOperationType::Divide | BinaryOperationType::Modulus => true,
        _ => false,
    };
    if div_like {
        if is_numeric_value(right_side) {
            match right_side.as_float(answers, at) {
                Promoted::Bits(rb) => {
                    if check_zero_bits(rb) {
                        Outcome::Error(Error::new(0, String::from_str("Division by 0")))
                    } else if !is_numeric_value(left_side) {
                        invalid_operand(true, op, left_side, answers, at)
                    } else {
                        match left_side.as_float(answers, at) {
                            Promoted::Bits(lb) => arith_request(op, lb, rb, answers, at),
                            Promoted::Pending(req) => Outcome::NeedsFloat(req),
                            Promoted::Invalid => {
                                proof {
                                    assert(false);
                                }
                                Outcome::Value(Value::Boolean(false))
                            },
                        }
                    }
                },
                Promoted::Pending(req) => Outcome::NeedsFloat(req),
                Promoted::Invalid => {
                    proof {
                        assert(false);
                    }
                    Outcome::Value(Value::Boolean(false))
                },
            }
        } else {
            invalid_operand(false, op, right_side, answers, at)
        }
    } else {
        if !is_numeric_value(left_side) && is_numeric_value(right_side) {
            invalid_operand(true, op, left_side, answers, at)
        } else if !is_numeric_value(right_side) {
            invalid_operand(false, op, right_side, answers, at)
        } else {
            match left_side.as_float(answers, at) {
                Promoted::Bits(lb) => {
                    match right_side.as_float(answers, at) {
                        Promoted::Bits(rb) => arith_request(op, lb, rb, answers, at),
                        Promoted::Pending(req) => Outcome::NeedsFloat(req),
                        Promoted::Invalid => {
                            proof {
                                assert(false);
                            }
                            Outcome::Value(Value::Boolean(false))
                        },
                    }
                },
                Promoted::Pending(req) => Outcome::NeedsFloat(req),
                Promoted::Invalid => {
                    proof {
                        assert(false);
                    }
                    Outcome::Value(Value::Boolean(false))
                },
            }
        }
    }
}

/// `+` on two values, both widened to floats.
fn compute_addition(
    left_side: &Value,
    right_side: &Value,
    answers: &Vec<FloatAnswer>,
    at: &mut usize,
) -> (r: Outcome)
    ensures
        ({
            let (o, k) = arith_spec(
                BinaryOperationType::Add,
                *left_side,
                *right_side,
                answers@,
                *old(at) as int,
            );
            r@ == o && *final(at) as int == k
        }),
{
    compute_arithmetic(BinaryOperationType::Add, left_side, right_side, answers, at)
}

/// `-` on two values, both widened to floats.
fn compute_subtraction(
    left_side: &Value,
    right_side: &Value,
    answers: &Vec<FloatAnswer>,
    at: &mut usize,
) -> (r: Outcome)
    ensures
        ({
            let (o, k) = arith_spec(
                BinaryOperationType::Subtract,
                *left_side,
                *right_side,
                answers@,
                *old(at) as int,
            );
            r@ == o && *final(at) as int == k
        }),
{
    compute_arithmetic(BinaryOperationType::Subtract, left_side, right_side, answers, at)
}

/// `*` on two values, both widened to floats.
fn compute_multiplication(
    left_side: &Value,
    right_side: &Value,
    answers: &Vec<FloatAnswer>,
    at: &mut usize,
) -> (r: Outcome)
    ensures
        ({
            let (o, k) = arith_spec(
                BinaryOperationType::Multiply,
                *left_side,
                *right_side,
                answers@,
                *old(at) as int,
            );
            r@ == o && *final(at) as int == k
        }),
{
    compute_arithmetic(BinaryOperationType::Multiply, left_side, right_side, answers, at)
}

/// `/` on two values; a right operand equal to a float zero fails first.
fn compute_division(
    left_side: &Value,
    right_side: &Value,
    answers: &Vec<FloatAnswer>,
    at: &mut usize,
) -> (r: Outcome)
    ensures
        ({
            let (o, k) = arith_spec(
                BinaryOperationType::Divide,
                *left_side,
                *right_side,
                answers@,
                *old(at) as int,
            );
            r@ == o && *final(at) as int == k
        }),
{
    compute_arithmetic(BinaryOperationType::Divide, left_side, right_side, answers, at)
}

/// `%` on two values; a right operand equal to a float zero fails first.
fn compute_modulus(
    left_side: &Value,
    right_side: &Value,
    answers: &Vec<FloatAnswer>,
    at: &mut usize,
) -> (r: Outcome)
    ensures
        ({
            let (o, k) = arith_spec(
                BinaryOperationType::Modulus,
                *left_side,
                *right_side,
                answers@,
                *old(at) as int,
            );
            r@ == o && *final(at) as int == k
        }),
{
    compute_arithmetic(BinaryOperationType::Modulus, left_side, right_side, answers, at)
}

/// `&&` on two boolean values; both sides were already evaluated.
fn compute_conjunction(
    left_side: &Value,
    right_side: &Value,
    answers: &Vec<FloatAnswer>,
    at: &mut usize,
) -> (r: Outcome)
    ensures
        ({
            let (o, k) = boolean_spec(
                BinaryOperationType::And,
                *left_side,
                *right_side,
                answers@,
                *old(at) as int,
            );
            r@ == o && *final(at) as int == k
        }),
{
    match (left_side.as_boolean(), right_side.as_boolean()) {
        (Some(a), Some(b)) => Outcome::Value(Value::Boolean(a && b)),
        (None, Some(_)) => invalid_operand(true, BinaryOperationType::And, left_side, answers, at),
        _ => invalid_operand(false, BinaryOperationType::And, right_side, answers, at),
    }
}

/// `||` on two boolean values.
fn compute_disjunction(
    left_side: &Value,
    right_side: &Value,
    answers: &Vec<FloatAnswer>,
    at: &mut usize,
) -> (r: Outcome)
    ensures
        ({
            let (o, k) = boolean_spec(
                BinaryOperationType::Or,
                *left_side,
                *right_side,
                answers@,
                *old(at) as int,
            );
            r@ == o && *final(at) as int == k
        }),
{
    match (left_side.as_boolean(), right_side.as_boolean()) {
        (Some(a), Some(b)) => Outcome::Value(Value::Boolean(a || b)),
        (None, Some(_)) => invalid_operand(true, BinaryOperationType::Or, left_side, answers, at),
        _ => invalid_operand(false, BinaryOperationType::Or, right_side, answers, at),
    }
}

/// `=>` on two boolean values: material implication, `!left || right`.
fn compute_implication(
    left_side: &Value,
    right_side: &Value,
    answers: &Vec<FloatAnswer>,
    at: &mut usize,
) -> (r: Outcome)
    ensures
        ({
            let (o, k) = boolean_spec(
                BinaryOperationType::If,
                *left_side,
                *right_side,
                answers@,
                *old(at) as int,
            );
            r@ == o && *final(at) as int == k
        }),
{
    match (left_side.as_boolean(), right_side.as_boolean()) {
        (Some(a), Some(b)) => Outcome::Value(Value::Boolean(!a || b)),
        (None, Some(_)) => invalid_operand(true, BinaryOperationType::If, left_side, answers, at),
        _ => invalid_operand(false, BinaryOperationType::If, right_side, answers, at),
    }
}

/// `==` and `!=` on two values of the same kind.
fn compute_equality(
    op: BinaryOperationType,
    left_side: &Value,
    right_side: &Value,
    answers: &Vec<FloatAnswer>,
    at: &mut usize,
) -> (r: Outcome)
    requires
        op is Equal || op is NotEqual,
    ensures
        ({
            let (o, k) = equality_spec(op, *left_side, *right_side, answers@, *old(at) as int);
            r@ == o && *final(at) as int == k
        }),
{
    let negated = match op {
        BinaryOperationType::NotEqual => true,
        _ => false,
    };
    match (left_side, right_side) {
        (Value::Integer(a), Value::Integer(b)) => {
            let e = *a == *b;
            Outcome::Value(Value::Boolean(if negated { !e } else { e }))
        },
        (Value::Boolean(a), Value::Boolean(b)) => {
            let e = *a == *b;
            Outcome::Value(Value::Boolean(if negated { !e } else { e }))
        },
        (Value::Float(a), Value::Float(b)) => {
            let e = check_float_eq_bits(*a, *b);
            Outcome::Value(Value::Boolean(if negated { !e } else { e }))
        },
        _ => invalid_operand(false, op, right_side, answers, at),
    }
}

/// The binary bitwise operators on two integer values.
fn compute_bitwise(
    op: BinaryOperationType,
    left_side: &Value,
    right_side: &Value,
    answers: &Vec<FloatAnswer>,
    at: &mut usize,
) -> (r: Outcome)
    requires
        op is BitwiseAnd || op is BitwiseOr || op is BitwiseXor || op is BitwiseLeftShift
            || op is BitwiseRightShift,
    ensures
        ({
            let (o, k) = bitwise_spec(op, *left_side, *right_side, answers@, *old(at) as int);
            r@ == o && *final(at) as int == k
        }),
{
    match (left_side, right_side) {
        (Value::Integer(a), Value::Integer(b)) => match op {
            BinaryOperationType::BitwiseAnd => Outcome::Value(Value::Integer(*a & *b)),
            BinaryOperationType::BitwiseOr => Outcome::Value(Value::Integer(*a | *b)),
            BinaryOperationType::BitwiseXor => Outcome::Value(Value::Integer(*a ^ *b)),
            BinaryOperationType::BitwiseLeftShift => {
                if 0 <= *b && *b < 64 {
                    Outcome::Value(Value::Integer(*a << *b))
                } else {
                    invalid_operand(false, op, right_side, answers, at)
                }
            },
            BinaryOperationType::BitwiseRightShift => {
                if 0 <= *b && *b < 64 {
                    Outcome::Value(Value::Integer(*a >> *b))
                } else {
                    invalid_operand(false, op, right_side, answers, at)
                }
            },
            _ => {
                proof {
                    assert(false);
                }
                Outcome::Value(Value::Boolean(false))
            },
        },
        (_, Value::Integer(_)) => invalid_operand(true, op, left_side, answers, at),
        _ => invalid_operand(false, op, right_side, answers, at),
    }
}

/// Applies a binary operator to its two evaluated operands.
fn compute_binary(
    operation_type: BinaryOperationType,
    left_side: &Value,
    right_side: &Value,
    answers: &Vec<FloatAnswer>,
    at: &mut usize,
) -> (r: Outcome)
    ensures
        ({
            let (o, k) = apply_binary_spec(
                operation_type,
                *left_side,
                *right_side,
                answers@,
                *old(at) as int,
            );
            r@ == o && *final(at) as int == k
        }),
{
    match operation_type {
        BinaryOperationType::Add => compute_addition(left_side, right_side, answers, at),
        BinaryOperationType::Subtract => compute_subtraction(left_side, right_side, answers, at),
        BinaryOperationType::Multiply => compute_multiplication(left_side, right_side, answers, at),
        BinaryOperationType::Divide => compute_division(left_side, right_side, answers, at),
        BinaryOperationType::Modulus => compute_modulus(left_side, right_side, answers, at),
        BinaryOperationType::And => compute_conjunction(left_side, right_side, answers, at),
        BinaryOperationType::Or => compute_disjunction(left_side, right_side, answers, at),
        BinaryOperationType::If => compute_implication(left_side, right_side, answers, at),
        BinaryOperationType::Equal | BinaryOperationType::NotEqual => compute_equality(
            operation_type,
            left_side,
            right_side,
            answers,
            at,
        ),
        BinaryOperationType::BitwiseAnd
        | BinaryOperationType::BitwiseOr
        | BinaryOperationType::BitwiseXor
        | BinaryOperationType::BitwiseLeftShift
        | BinaryOperationType::BitwiseRightShift => compute_bitwise(
            operation_type,
            left_side,
            right_side,
            answers,
            at,
        ),
    }
}

/// Arithmetic negation of an evaluated value.
fn compute_arithmetic_negation(
    operand: &Value,
    answers: &Vec<FloatAnswer>,
    at: &mut usize,
) -> (r: Outcome)
    ensures
        ({
            let (o, k) = arith_negation_spec(*operand, answers@, *old(at) as int);
            r@ == o && *final(at) as int == k
        }),
{
    match operand.as_float(answers, at) {
        Promoted::Bits(b) => Outcome::Value(Value::Float(b ^ FLOAT_SIGN_BIT)),
        Promoted::Pending(req) => Outcome::NeedsFloat(req),
        Promoted::Invalid => invalid_unary_operand(
            UnaryOperationType::ArithmeticNegate,
            operand,
            answers,
            at,
        ),
    }
}

/// Logical negation of an evaluated boolean value.
fn compute_logical_not(operand: &Value, answers: &Vec<FloatAnswer>, at: &mut usize) -> (r: Outcome)
    ensures
        ({
            let (o, k) = logical_not_spec(*operand, answers@, *old(at) as int);
            r@ == o && *final(at) as int == k
        }),
{
    match operand.as_boolean() {
        Some(b) => Outcome::Value(Value::Boolean(!b)),
        None => invalid_unary_operand(UnaryOperationType::LogicalNot, operand, answers, at),
    }
}

/// Bitwise negation of an evaluated integer value.
fn compute_bitwise_not(operand: &Value, answers: &Vec<FloatAnswer>, at: &mut usize) -> (r: Outcome)
    ensures
        ({
            let (o, k) = bitwise_not_spec(*operand, answers@, *old(at) as int);
            r@ == o && *final(at) as int == k
        }),
{
    match operand.as_integer() {
        Some(x) => Outcome::Value(Value::Integer(-1 - x)),
        None => invalid_unary_operand(UnaryOperationType::BitwiseNot, operand, answers, at),
    }
}

/// Applies a unary operator to its evaluated operand.
fn compute_unary(
    operation_type: UnaryOperationType,
    operand: &Value,
    answers: &Vec<FloatAnswer>,
    at: &mut usize,
) -> (r: Outcome)
    ensures
        ({
            let (o, k) = apply_unary_spec(operation_type, *operand, answers@, *old(at) as int);
            r@ == o && *final(at) as int == k
        }),
{
    match operation_type {
        UnaryOperationType::ArithmeticNegate => compute_arithmetic_negation(operand, answers, at),
        UnaryOperationType::LogicalNot => compute_logical_not(operand, answers, at),
        UnaryOperationType::BitwiseNot => compute_bitwise_not(operand, answers, at),
    }
}

// ---------------------------------------------------------------------
// Walking the tree.
// ---------------------------------------------------------------------

/// The whole evaluation as a function of the tree and the answer list:
/// a strict post-order walk, left operand first, that either finishes
/// with a value or an error, or stops at the first piece of float work
/// whose answer is not in `ans` yet.  The second component is the index
/// just past the answers consumed.
pub open spec fn eval_node_spec(n: AstNodeView, ans: Seq<FloatAnswer>, at: int) -> (OutcomeView, int)
    decreases n,
{
    match n {
        AstNodeView::Integer(x) => (OutcomeView::Value(Value::Integer(x)), at),
        AstNodeView::Boolean(x) => (OutcomeView::Value(Value::Boolean(x)), at),
        AstNodeView::Float(text) => if 0 <= at < ans.len() {
            (OutcomeView::Value(Value::Float(answer_bits(ans[at]))), at + 1)
        } else {
            (OutcomeView::NeedsFloat(FloatRequestView::Parse(text)), at)
        },
        AstNodeView::UnaryOperation(op, operand) => {
            let (o, k) = eval_node_spec(*operand, ans, at);
            match o {
                OutcomeView::Value(v) => apply_unary_spec(op, v, ans, k),
                _ => (o, k),
            }
        },
        AstNodeView::BinaryOperation(op, l, r) => {
            let (lo, k1) = eval_node_spec(*l, ans, at);
            match lo {
                OutcomeView::Value(lv) => {
                    let (ro, k2) = eval_node_spec(*r, ans, k1);
                    match ro {
                        OutcomeView::Value(rv) => apply_binary_spec(op, lv, rv, ans, k2),
                        _ => (ro, k2),
                    }
                },
                _ => (lo, k1),
            }
        },
    }
}

/// The outcome of evaluating a tree against an answer list.
pub open spec fn eval_spec(n: AstNodeView, ans: Seq<FloatAnswer>) -> OutcomeView {
    eval_node_spec(n, ans, 0).0
}

/// Recursive evaluator mirroring [`eval_node_spec`].
fn eval_rec(node: &AstNode, answers: &Vec<FloatAnswer>, at: &mut usize) -> (r: Outcome)
    ensures
        ({
            let (o, k) = eval_node_spec(ast_view(*node), answers@, *old(at) as int);
            r@ == o && *final(at) as int == k
        }),
    decreases node,
{
    match node {
        AstNode::Integer(x) => Outcome::Value(Value::Integer(*x)),
        AstNode::Boolean(x) => Outcome::Value(Value::Boolean(*x)),
        AstNode::Float(text) => {
            if *at < answers.len() {
                let b = read_answer_bits(&answers[*at]);
                *at = *at + 1;
                Outcome::Value(Value::Float(b))
            } else {
                Outcome::NeedsFloat(FloatRequest::Parse(text.clone()))
            }
        },
        AstNode::UnaryOperation(op, operand) => {
            let o = eval_rec(&**operand, answers, at);
            match o {
                Outcome::Value(v) => compute_unary(*op, &v, answers, at),
                _ => o,
            }
        },
        AstNode::BinaryOperation(op, l, r) => {
            let lo = eval_rec(&**l, answers, at);
            match lo {
                Outcome::Value(lv) => {
                    let ro = eval_rec(&**r, answers, at);
                    match ro {
                        Outcome::Value(rv) => compute_binary(*op, &lv, &rv, answers, at),
                        _ => ro,
                    }
                },
                _ => lo,
            }
        },
    }
}

/// Evaluates a syntax tree against the answers gathered so far.
///
/// The outcome is exactly [`eval_spec`] of the tree and the answer list:
/// a value, an error, or the first float request whose answer is missing.
/// A caller with a float unit loops: on [`Outcome::NeedsFloat`] it
/// computes the request, pushes the reply onto `answers` and calls again.
pub fn execute(expression: &AstNode, answers: &Vec<FloatAnswer>) -> (r: Outcome)
    ensures
        r@ == eval_spec(ast_view(*expression), answers@),
{
    let mut at: usize = 0;
    eval_rec(expression, answers, &mut at)
}

} // verus!
