//! A small expression language: arithmetic, boolean logic and (partly)
//! bitwise operators over 64-bit floats, 64-bit integers and booleans.
//!
//! The pipeline has three stages: a scanner turning text into tokens, a
//! recursive-descent parser turning tokens into a syntax tree, and a
//! tree-walking evaluator.  Each stage returns the first error it meets as
//! an [`error::Error`] carrying a source column and a message.
//!
//! Floating-point values never appear in this crate: a float is carried as
//! its IEEE 754 bit pattern in a `u64`, and every operation that only the
//! hardware float unit can decide (parsing a decimal literal, widening an
//! integer, the five arithmetic operators, display formatting) is handed to
//! the caller as an explicit [`expression::FloatRequest`], whose reply comes
//! back as an [`expression::FloatAnswer`].  Everything else — scanning,
//! parsing, every type check, every error message, the bitwise and boolean
//! operators, comparisons and sign negation — is decided and verified here.
//!
//! The contracts pin each stage to a mathematical model: [`lexer::scan_spec`]
//! for the scanner, [`parser::parse_spec`] for the parser,
//! [`expression::eval_spec`] for the evaluator and [`compute_spec`] for the
//! whole pipeline; [`laws`] proves the properties that relate them.

use vstd::prelude::*;

pub mod decimal;
pub mod error;
pub mod expression;
pub mod laws;
pub mod lexer;
pub mod parser;

pub use error::Error;
pub use expression::execute;
pub use expression::FloatAnswer;
pub use expression::FloatRequest;
pub use expression::Outcome;
pub use expression::Value;
pub use lexer::Lexer;
pub use parser::AstNode;
pub use parser::Parser;

use crate::expression::eval_spec;
use crate::expression::OutcomeView;
use crate::lexer::scan_spec;
use crate::parser::parse_spec;

verus! {

/// The whole pipeline as a function of the input text and the float
/// answers gathered so far: scan, then parse, then evaluate, stopping at
/// the first error.
pub open spec fn compute_spec(src: Seq<char>, ans: Seq<FloatAnswer>) -> OutcomeView {
    match scan_spec(src) {
        Err(e) => OutcomeView::Error(e),
        Ok(toks) => match parse_spec(toks) {
            Err(e) => OutcomeView::Error(e),
            Ok(node) => eval_spec(node, ans),
        },
    }
}

/// Runs the pipeline on a raw expression: scanner, parser, evaluator,
/// short-circuiting on the first error, which reaches the caller
/// unchanged.
///
/// The outcome is exactly [`compute_spec`] of the input characters and
/// the answer list.  A caller with a float unit loops: on
/// [`Outcome::NeedsFloat`] it computes the request, pushes the reply
/// onto `answers` and calls again; evaluation is deterministic, so the
/// next attempt runs through the same prefix and gets one step further.
pub fn compute_expression(raw_expression: &str, answers: &Vec<FloatAnswer>) -> (r: Outcome)
    requires
        raw_expression@.len() <= u32::MAX,
    ensures
        r@ == compute_spec(raw_expression@, answers@),
{
    let mut tokenizer = Lexer::new(raw_expression);
    let tokens = match tokenizer.tokenize() {
        Ok(t) => t,
        Err(e) => {
            return Outcome::Error(e);
        },
    };
    let mut parser = Parser::new(tokens);
    let ast = match parser.parse() {
        Ok(n) => n,
        Err(e) => {
            return Outcome::Error(e);
        },
    };
    execute(&ast, answers)
}

} // verus!
