use vstd::prelude::*;

use crate::compute_spec;
use crate::error::ErrorView;
use crate::expression::arith_negation_spec;
use crate::expression::boolean_spec;
use crate::expression::division_by_zero_message;
use crate::expression::eval_node_spec;
use crate::expression::eval_spec;
use crate::expression::invalid_operand_spec;
use crate::expression::is_zero_bits;
use crate::expression::negate_bits;
use crate::expression::promote_spec;
use crate::expression::FloatAnswer;
use crate::expression::OutcomeView;
use crate::expression::PromotedSpec;
use crate::expression::Value;
use crate::expression::FLOAT_SIGN_BIT;
use crate::lexer::scan_spec;
use crate::lexer::TokenValueView;
use crate::lexer::TokenView;
use crate::parser::parse_spec;
use crate::parser::AstNodeView;
use crate::parser::BinaryOperationType;
use crate::parser::ParseStep;
use crate::parser::UnaryOperationType;

verus! {

/// Evaluation has no hidden state: the outcome of a run is pinned to
/// [`eval_spec`] of the tree and the answer list alone, so two runs
/// over the same tree with the same answers finish bit-identically.
/// Every executable evaluation is held to this by the contract of
/// [`crate::execute`].
pub proof fn lemma_evaluation_deterministic(
    n: AstNodeView,
    ans: Seq<FloatAnswer>,
    r1: OutcomeView,
    r2: OutcomeView,
)
    requires
        r1 == eval_spec(n, ans),
        r2 == eval_spec(n, ans),
    ensures
        r1 == r2,
{
}

/// Division and modulus by a right operand that evaluates to a float
/// zero always fail with the division-by-zero error, whatever stands on
/// the left — a boolean left operand included.  The witnesses `lv`,
/// `rv`, `b` and the answer indices are the intermediate results of the
/// strict left-to-right evaluation.
pub proof fn lemma_division_by_zero(
    op: BinaryOperationType,
    l: AstNodeView,
    r: AstNodeView,
    ans: Seq<FloatAnswer>,
    at: int,
    lv: Value,
    k1: int,
    rv: Value,
    k2: int,
    b: u64,
    k3: int,
)
    requires
        op is Divide || op is Modulus,
        eval_node_spec(l, ans, at) == (OutcomeView::Value(lv), k1),
        eval_node_spec(r, ans, k1) == (OutcomeView::Value(rv), k2),
        promote_spec(rv, ans, k2) == (PromotedSpec::Bits(b), k3),
        is_zero_bits(b),
    ensures
        eval_node_spec(AstNodeView::BinaryOperation(op, Box::new(l), Box::new(r)), ans, at) == (
            OutcomeView::Error(ErrorView { column: 0, message: division_by_zero_message() }),
            k3,
        ),
{
    assert(!(rv is Boolean));
}

/// The boolean connectives require boolean operands: with a boolean on
/// the right, a non-boolean left operand yields exactly the
/// invalid-left-operand outcome, which names the left side and echoes
/// the offending value.
pub proof fn lemma_boolean_needs_boolean_left(
    op: BinaryOperationType,
    l: Value,
    r: Value,
    ans: Seq<FloatAnswer>,
    at: int,
)
    requires
        op is And || op is Or || op is If,
        !(l is Boolean),
        r is Boolean,
    ensures
        boolean_spec(op, l, r, ans, at) == invalid_operand_spec(true, op, l, ans, at),
{
}

/// The mirror image on the right: a non-boolean right operand yields
/// exactly the invalid-right-operand outcome.
pub proof fn lemma_boolean_needs_boolean_right(
    op: BinaryOperationType,
    l: Value,
    r: Value,
    ans: Seq<FloatAnswer>,
    at: int,
)
    requires
        op is And || op is Or || op is If,
        !(r is Boolean),
    ensures
        boolean_spec(op, l, r, ans, at) == invalid_operand_spec(false, op, r, ans, at),
{
}

/// Arithmetic negation composes: negating twice gives back the float
/// reading of the operand, because each negation is exactly a sign-bit
/// flip.  `v` is the operand's value, `b` the bits of its float reading.
pub proof fn lemma_double_negation(
    n: AstNodeView,
    ans: Seq<FloatAnswer>,
    at: int,
    v: Value,
    k: int,
    b: u64,
    kp: int,
)
    requires
        eval_node_spec(n, ans, at) == (OutcomeView::Value(v), k),
        promote_spec(v, ans, k) == (PromotedSpec::Bits(b), kp),
    ensures
        eval_node_spec(
            AstNodeView::UnaryOperation(
                UnaryOperationType::ArithmeticNegate,
                Box::new(
                    AstNodeView::UnaryOperation(UnaryOperationType::ArithmeticNegate, Box::new(n)),
                ),
            ),
            ans,
            at,
        ) == (OutcomeView::Value(Value::Float(b)), kp),
{
    assert(arith_negation_spec(v, ans, k) == (
        OutcomeView::Value(Value::Float(negate_bits(b))),
        kp,
    ));
    let inner = AstNodeView::UnaryOperation(UnaryOperationType::ArithmeticNegate, Box::new(n));
    assert(eval_node_spec(inner, ans, at) == (
        OutcomeView::Value(Value::Float(negate_bits(b))),
        kp,
    ));
    assert(negate_bits(negate_bits(b)) == b) by {
        assert((b ^ FLOAT_SIGN_BIT) ^ FLOAT_SIGN_BIT == b) by (bit_vector);
    }
    assert(eval_node_spec(
        AstNodeView::UnaryOperation(UnaryOperationType::ArithmeticNegate, Box::new(inner)),
        ans,
        at,
    ) == (OutcomeView::Value(Value::Float(b)), kp));
}

/// A scan error surfaces unchanged from the whole pipeline: parsing and
/// evaluation are never reached.
pub proof fn lemma_scan_error_first(src: Seq<char>, ans: Seq<FloatAnswer>, e: ErrorView)
    requires
        scan_spec(src) == Err::<Seq<TokenView>, ErrorView>(e),
    ensures
        compute_spec(src, ans) == OutcomeView::Error(e),
{
}

/// Multiplication binds tighter than addition: for any integer literal
/// tokens `a + b * c`, the parse is `a + (b * c)`, whatever the lexemes
/// and columns of the tokens.
pub proof fn lemma_multiplication_binds_tighter(toks: Seq<TokenView>, a: i64, b: i64, c: i64)
    requires
        toks.len() == 6,
        toks[0].type_ is Integer && toks[0].value == Some(TokenValueView::Integer(a)),
        toks[1].type_ is Plus,
        toks[2].type_ is Integer && toks[2].value == Some(TokenValueView::Integer(b)),
        toks[3].type_ is Asterisk,
        toks[4].type_ is Integer && toks[4].value == Some(TokenValueView::Integer(c)),
        toks[5].type_ is EOF,
    ensures
        parse_spec(toks) == Ok::<AstNodeView, ErrorView>(
            AstNodeView::BinaryOperation(
                BinaryOperationType::Add,
                Box::new(AstNodeView::Integer(a)),
                Box::new(
                    AstNodeView::BinaryOperation(
                        BinaryOperationType::Multiply,
                        Box::new(AstNodeView::Integer(b)),
                        Box::new(AstNodeView::Integer(c)),
                    ),
                ),
            ),
        ),
{
    let na = AstNodeView::Integer(a);
    let nb = AstNodeView::Integer(b);
    let nc = AstNodeView::Integer(c);
    let nbc = AstNodeView::BinaryOperation(
        BinaryOperationType::Multiply,
        Box::new(nb),
        Box::new(nc),
    );
    let nabc = AstNodeView::BinaryOperation(BinaryOperationType::Add, Box::new(na), Box::new(nbc));
    assert(crate::parser::parse_factor_spec(toks, 0) == ParseStep::Node(na, 1));
    assert(crate::parser::parse_term_loop_spec(toks, na, 1) == ParseStep::Node(na, 1));
    assert(crate::parser::parse_term_spec(toks, 0) == ParseStep::Node(na, 1));
    assert(crate::parser::parse_factor_spec(toks, 2) == ParseStep::Node(nb, 3));
    assert(crate::parser::parse_factor_spec(toks, 4) == ParseStep::Node(nc, 5));
    assert(crate::parser::parse_term_loop_spec(toks, nbc, 5) == ParseStep::Node(nbc, 5));
    assert(crate::parser::parse_term_loop_spec(toks, nb, 3) == ParseStep::Node(nbc, 5));
    assert(crate::parser::parse_term_spec(toks, 2) == ParseStep::Node(nbc, 5));
    assert(crate::parser::parse_expression_loop_spec(toks, nabc, 5) == ParseStep::Node(nabc, 5));
    assert(crate::parser::parse_expression_loop_spec(toks, na, 1) == ParseStep::Node(nabc, 5));
    assert(crate::parser::parse_expression_spec(toks, 0) == ParseStep::Node(nabc, 5));
}

/// Operators of one tier fold to the left: for any integer literal
/// tokens `a - b - c`, the parse is `(a - b) - c`.
pub proof fn lemma_left_associativity(toks: Seq<TokenView>, a: i64, b: i64, c: i64)
    requires
        toks.len() == 6,
        toks[0].type_ is Integer && toks[0].value == Some(TokenValueView::Integer(a)),
        toks[1].type_ is Minus,
        toks[2].type_ is Integer && toks[2].value == Some(TokenValueView::Integer(b)),
        toks[3].type_ is Minus,
        toks[4].type_ is Integer && toks[4].value == Some(TokenValueView::Integer(c)),
        toks[5].type_ is EOF,
    ensures
        parse_spec(toks) == Ok::<AstNodeView, ErrorView>(
            AstNodeView::BinaryOperation(
                BinaryOperationType::Subtract,
                Box::new(
                    AstNodeView::BinaryOperation(
                        BinaryOperationType::Subtract,
                        Box::new(AstNodeView::Integer(a)),
                        Box::new(AstNodeView::Integer(b)),
                    ),
                ),
                Box::new(AstNodeView::Integer(c)),
            ),
        ),
{
    let na = AstNodeView::Integer(a);
    let nb = AstNodeView::Integer(b);
    let nc = AstNodeView::Integer(c);
    let nab = AstNodeView::BinaryOperation(
        BinaryOperationType::Subtract,
        Box::new(na),
        Box::new(nb),
    );
    let nabc = AstNodeView::BinaryOperation(
        BinaryOperationType::Subtract,
        Box::new(nab),
        Box::new(nc),
    );
    assert(crate::parser::parse_factor_spec(toks, 0) == ParseStep::Node(na, 1));
    assert(crate::parser::parse_term_loop_spec(toks, na, 1) == ParseStep::Node(na, 1));
    assert(crate::parser::parse_term_spec(toks, 0) == ParseStep::Node(na, 1));
    assert(crate::parser::parse_factor_spec(toks, 2) == ParseStep::Node(nb, 3));
    assert(crate::parser::parse_term_loop_spec(toks, nb, 3) == ParseStep::Node(nb, 3));
    assert(crate::parser::parse_term_spec(toks, 2) == ParseStep::Node(nb, 3));
    assert(crate::parser::parse_factor_spec(toks, 4) == ParseStep::Node(nc, 5));
    assert(crate::parser::parse_term_loop_spec(toks, nc, 5) == ParseStep::Node(nc, 5));
    assert(crate::parser::parse_term_spec(toks, 4) == ParseStep::Node(nc, 5));
    assert(crate::parser::parse_expression_loop_spec(toks, nabc, 5) == ParseStep::Node(nabc, 5));
    assert(crate::parser::parse_expression_loop_spec(toks, nab, 3) == ParseStep::Node(nabc, 5));
    assert(crate::parser::parse_expression_loop_spec(toks, na, 1) == ParseStep::Node(nabc, 5));
    assert(crate::parser::parse_expression_spec(toks, 0) == ParseStep::Node(nabc, 5));
}


/// Answers are consumed left to right, and a float request is issued
/// only once every answer has been consumed: evaluation starting inside
/// the answer list ends inside it, and stops exactly at its end when it
/// stops at all.
pub proof fn lemma_request_only_at_end(n: AstNodeView, ans: Seq<FloatAnswer>, at: int)
    requires
        0 <= at <= ans.len(),
    ensures
        ({
            let (o, k) = eval_node_spec(n, ans, at);
            at <= k <= ans.len() && (o is NeedsFloat ==> k == ans.len())
        }),
    decreases n,
{
    match n {
        AstNodeView::UnaryOperation(op, operand) => {
            lemma_request_only_at_end(*operand, ans, at);
        },
        AstNodeView::BinaryOperation(op, l, r) => {
            lemma_request_only_at_end(*l, ans, at);
            let (lo, k1) = eval_node_spec(*l, ans, at);
            if lo is Value {
                lemma_request_only_at_end(*r, ans, k1);
            }
        },
        _ => {},
    }
}

/// Answers already given keep their effect: extending the answer list
/// never changes a finished outcome, nor how many answers it consumed.
/// Together with [`lemma_request_only_at_end`] this is why a caller may
/// answer one request at a time and re-run: the longer list replays the
/// same finished prefix and gets one step further.
pub proof fn lemma_answer_extension(
    n: AstNodeView,
    ans: Seq<FloatAnswer>,
    ans2: Seq<FloatAnswer>,
    at: int,
)
    requires
        0 <= at <= ans.len(),
        ans.len() <= ans2.len(),
        ans2.subrange(0, ans.len() as int) == ans,
    ensures
        ({
            let (o, k) = eval_node_spec(n, ans, at);
            let (o2, k2) = eval_node_spec(n, ans2, at);
            (o is Value || o is Error) ==> (o2 == o && k2 == k)
        }),
    decreases n,
{
    assert forall|i: int| 0 <= i < ans.len() implies ans2[i] == ans[i] by {
        assert(ans2.subrange(0, ans.len() as int)[i] == ans2[i]);
    }
    match n {
        AstNodeView::UnaryOperation(op, operand) => {
            lemma_request_only_at_end(*operand, ans, at);
            lemma_answer_extension(*operand, ans, ans2, at);
        },
        AstNodeView::BinaryOperation(op, l, r) => {
            lemma_request_only_at_end(*l, ans, at);
            lemma_answer_extension(*l, ans, ans2, at);
            let (lo, k1) = eval_node_spec(*l, ans, at);
            if lo is Value {
                lemma_request_only_at_end(*r, ans, k1);
                lemma_answer_extension(*r, ans, ans2, k1);
            }
        },
        _ => {},
    }
}

/// The pipeline-level corollary: scanning and parsing consume no
/// answers, so a finished pipeline outcome survives any extension of
/// the answer list unchanged.
pub proof fn lemma_compute_extension(src: Seq<char>, ans: Seq<FloatAnswer>, ans2: Seq<FloatAnswer>)
    requires
        ans.len() <= ans2.len(),
        ans2.subrange(0, ans.len() as int) == ans,
    ensures
        !(compute_spec(src, ans) is NeedsFloat) ==> compute_spec(src, ans2) == compute_spec(
            src,
            ans,
        ),
{
    match scan_spec(src) {
        Err(_) => {},
        Ok(toks) => {
            match parse_spec(toks) {
                Err(_) => {},
                Ok(node) => {
                    lemma_answer_extension(node, ans, ans2, 0);
                },
            }
        },
    }
}
} // verus!
