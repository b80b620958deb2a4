use pxpr::compute_expression;
use pxpr::execute;
use pxpr::parser::BinaryOperationType;
use pxpr::AstNode;
use pxpr::Error;
use pxpr::FloatAnswer;
use pxpr::FloatRequest;
use pxpr::Outcome;
use pxpr::Value;

/// Computes one float request on real 64-bit floats.
fn answer(req: FloatRequest) -> FloatAnswer {
    match req {
        FloatRequest::Parse(s) => FloatAnswer::Bits(s.parse::<f64>().unwrap().to_bits()),
        FloatRequest::Promote(i) => FloatAnswer::Bits((i as f64).to_bits()),
        FloatRequest::Arith(op, a, b) => {
            let x = f64::from_bits(a);
            let y = f64::from_bits(b);
            let z = match op {
                BinaryOperationType::Add => x + y,
                BinaryOperationType::Subtract => x - y,
                BinaryOperationType::Multiply => x * y,
                BinaryOperationType::Divide => x / y,
                BinaryOperationType::Modulus => x % y,
                _ => panic!("arithmetic request with a non-arithmetic operator"),
            };
            FloatAnswer::Bits(z.to_bits())
        }
        FloatRequest::Format(b) => FloatAnswer::Text(format!("{}", f64::from_bits(b))),
    }
}

/// Runs the pipeline to completion, feeding float answers as requested.
fn run(src: &str) -> Result<Value, Error> {
    let mut answers: Vec<FloatAnswer> = Vec::new();
    loop {
        match compute_expression(src, &answers) {
            Outcome::Value(v) => return Ok(v),
            Outcome::Error(e) => return Err(e),
            Outcome::NeedsFloat(req) => answers.push(answer(req)),
        }
    }
}

fn expect_float(src: &str, expected: f64) {
    match run(src) {
        Ok(Value::Float(bits)) => {
            assert_eq!(
                bits,
                expected.to_bits(),
                "{:?}: got {}, expected {}",
                src,
                f64::from_bits(bits),
                expected
            );
        }
        other => panic!("{:?}: expected Float({}), got {:?}", src, expected, other),
    }
}

fn expect_integer(src: &str, expected: i64) {
    match run(src) {
        Ok(Value::Integer(i)) => assert_eq!(i, expected, "{:?}", src),
        other => panic!("{:?}: expected Integer({}), got {:?}", src, expected, other),
    }
}

fn expect_boolean(src: &str, expected: bool) {
    match run(src) {
        Ok(Value::Boolean(b)) => assert_eq!(b, expected, "{:?}", src),
        other => panic!("{:?}: expected Boolean({}), got {:?}", src, expected, other),
    }
}

/// Evaluates a hand-built tree to completion, feeding float answers.
fn run_tree(tree: &AstNode) -> Result<Value, Error> {
    let mut answers: Vec<FloatAnswer> = Vec::new();
    loop {
        match execute(tree, &answers) {
            Outcome::Value(v) => return Ok(v),
            Outcome::Error(e) => return Err(e),
            Outcome::NeedsFloat(req) => answers.push(answer(req)),
        }
    }
}

fn equality_tree(op: BinaryOperationType, l: AstNode, r: AstNode) -> AstNode {
    AstNode::BinaryOperation(op, Box::new(l), Box::new(r))
}

fn expect_error(src: &str, message: &str) -> u32 {
    match run(src) {
        Err(e) => {
            assert_eq!(e.message, message, "{:?}", src);
            e.column
        }
        other => panic!("{:?}: expected error {:?}, got {:?}", src, message, other),
    }
}

#[test]
fn addition_of_integers_promotes_to_float() {
    expect_float("1 + 2", 3.0);
}

#[test]
fn subtraction_of_integers() {
    expect_float("7 - 2", 5.0);
}

#[test]
fn multiplication_of_integers() {
    expect_float("3 * 4", 12.0);
}

#[test]
fn division_of_integers() {
    expect_float("8 / 2", 4.0);
}

#[test]
fn modulus_of_integers() {
    expect_float("15 % 10", 5.0);
}

#[test]
fn float_literals_evaluate() {
    expect_float("1.5", 1.5);
    expect_float("3.14 + 0.0", 3.14);
    expect_float("1. + 0", 1.0);
}

#[test]
fn integer_promotes_beside_float() {
    expect_float("1 + 2.5", 3.5);
}

#[test]
fn evaluation_is_deterministic() {
    let a = run("2 + 3 * 4 - 1.5").unwrap();
    let b = run("2 + 3 * 4 - 1.5").unwrap();
    match (a, b) {
        (Value::Float(x), Value::Float(y)) => assert_eq!(x, y),
        other => panic!("expected floats, got {:?}", other),
    }
}

#[test]
fn multiplication_binds_tighter_than_addition() {
    expect_float("2 + 3 * 4", 14.0);
}

#[test]
fn parentheses_override_precedence() {
    expect_float("(2 + 3) * 4", 20.0);
}

#[test]
fn subtraction_is_left_associative() {
    expect_float("10 - 3 - 2", 5.0);
}

#[test]
fn division_by_integer_zero_fails() {
    expect_error("1 / 0", "Division by 0");
}

#[test]
fn modulus_by_float_zero_fails() {
    expect_error("1 % 0.0", "Division by 0");
}

#[test]
fn division_by_zero_wins_over_invalid_left_operand() {
    expect_error("true / 0", "Division by 0");
}

#[test]
fn division_by_negative_zero_fails() {
    expect_error("1 / - 0.0", "Division by 0");
}

#[test]
fn division_by_nonzero_float_succeeds() {
    expect_float("1 / 0.5", 2.0);
}

#[test]
fn unary_negation_of_integer() {
    expect_float("- 3", -3.0);
}

#[test]
fn double_negation_composes() {
    expect_float("- - 3", 3.0);
}

#[test]
fn negation_of_boolean_fails() {
    expect_error("- true", "Invalid operand for '-': true");
}

#[test]
fn conjunction_of_booleans() {
    expect_boolean("true && false", false);
    expect_boolean("true && true", true);
}

#[test]
fn disjunction_of_booleans() {
    expect_boolean("false || true", true);
    expect_boolean("false || false", false);
}

#[test]
fn implication_of_booleans() {
    expect_boolean("false => true", true);
    expect_boolean("true => false", false);
    expect_boolean("false => false", true);
}

#[test]
fn conjunction_requires_boolean_left_operand() {
    let col = expect_error("1 && true", "Invalid left operand for '&&': 1");
    assert_eq!(col, 0);
}

#[test]
fn conjunction_requires_boolean_right_operand() {
    expect_error("true && 2", "Invalid right operand for '&&': 2");
}

#[test]
fn boolean_error_echoes_float_display() {
    expect_error("1.5 && true", "Invalid left operand for '&&': 1.5");
}

#[test]
fn logical_not_of_boolean() {
    expect_boolean("!true", false);
    expect_boolean("!false", true);
}

#[test]
fn logical_not_of_integer_fails() {
    expect_error("!1", "Invalid operand for '!': 1");
}

#[test]
fn bitwise_not_flips_all_bits() {
    expect_integer("~5", -6);
    expect_integer("~0", -1);
}

#[test]
fn bitwise_not_of_boolean_fails() {
    expect_error("~true", "Invalid operand for '~': true");
}

#[test]
fn bitwise_binary_operators_on_integers() {
    expect_integer("6 & 3", 2);
    expect_integer("6 | 3", 7);
    expect_integer("6 ^ 3", 5);
    expect_integer("1 << 3", 8);
    expect_integer("16 >> 2", 4);
}

#[test]
fn shift_distance_out_of_range_fails() {
    expect_error("1 << 64", "Invalid right operand for '<<': 64");
}

#[test]
fn bitwise_operand_must_be_integer() {
    expect_error("2.0 & 3", "Invalid left operand for '&': 2");
}

#[test]
fn equality_tokens_are_scanned_but_not_grammar_operators() {
    // `==` and `!=` are tokenized, but no grammar production uses them:
    // parsing stops after the first term and ignores the rest.
    expect_integer("1 == 1", 1);
    expect_integer("1 != 2", 1);
}

#[test]
fn equality_on_matching_kinds() {
    let t = equality_tree(
        BinaryOperationType::Equal,
        AstNode::Integer(1),
        AstNode::Integer(1),
    );
    assert!(matches!(run_tree(&t), Ok(Value::Boolean(true))));
    let t = equality_tree(
        BinaryOperationType::NotEqual,
        AstNode::Integer(1),
        AstNode::Integer(2),
    );
    assert!(matches!(run_tree(&t), Ok(Value::Boolean(true))));
    let t = equality_tree(
        BinaryOperationType::Equal,
        AstNode::Boolean(true),
        AstNode::Boolean(true),
    );
    assert!(matches!(run_tree(&t), Ok(Value::Boolean(true))));
    let t = equality_tree(
        BinaryOperationType::Equal,
        AstNode::Float(String::from("1.5")),
        AstNode::Float(String::from("1.5")),
    );
    assert!(matches!(run_tree(&t), Ok(Value::Boolean(true))));
}

#[test]
fn equality_of_the_two_float_zeros() {
    let t = equality_tree(
        BinaryOperationType::Equal,
        AstNode::Float(String::from("0.0")),
        AstNode::UnaryOperation(
            pxpr::parser::UnaryOperationType::ArithmeticNegate,
            Box::new(AstNode::Float(String::from("0.0"))),
        ),
    );
    assert!(matches!(run_tree(&t), Ok(Value::Boolean(true))));
}

#[test]
fn equality_across_kinds_fails() {
    let t = equality_tree(
        BinaryOperationType::Equal,
        AstNode::Integer(1),
        AstNode::Boolean(true),
    );
    match run_tree(&t) {
        Err(e) => assert_eq!(e.message, "Invalid right operand for '==': true"),
        other => panic!("expected an error, got {:?}", other),
    }
}

#[test]
fn unrecognized_character_fails_scanning() {
    let col = expect_error("@", "Unrecognized token: '@'");
    assert_eq!(col, 1);
}

#[test]
fn scan_error_surfaces_before_parse_error() {
    expect_error("1 + @", "Unrecognized token: '@'");
}

#[test]
fn lone_equal_sign_is_unrecognized() {
    expect_error("=", "Unrecognized token: '='");
}

#[test]
fn lone_angle_brackets_are_unrecognized() {
    expect_error(">", "Unrecognized token: '>'");
    expect_error("<", "Unrecognized token: '<'");
}

#[test]
fn alphabetic_run_must_be_a_boolean_keyword() {
    expect_error("tru", "Unrecognized token: tru");
    expect_error("truex", "Unrecognized token: truex");
}

#[test]
fn oversized_integer_literal_fails_scanning() {
    expect_error(
        "99999999999999999999",
        "Malformed literal: 99999999999999999999",
    );
}

#[test]
fn largest_integer_literal_scans() {
    expect_integer(
        "9223372036854775807 & 9223372036854775807",
        9223372036854775807,
    );
}

#[test]
fn unmatched_parenthesis_fails_parsing() {
    expect_error("(1 + 2", "Expected: ')'");
}

#[test]
fn empty_input_fails_with_operand_error() {
    let col = expect_error("", "Expected an operand");
    assert_eq!(col, 0);
}

#[test]
fn trailing_operator_fails_with_operand_error() {
    let col = expect_error("1 +", "Expected an operand");
    assert_eq!(col, 3);
}

#[test]
fn tokens_after_the_expression_are_ignored() {
    expect_integer("1 2 & 0", 1);
}
