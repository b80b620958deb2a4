use pxpr::decimal::integer_text;
use pxpr::execute;
use pxpr::lexer::Token;
use pxpr::lexer::TokenType;
use pxpr::lexer::TokenValue;
use pxpr::parser::UnaryOperationType;
use pxpr::AstNode;
use pxpr::FloatAnswer;
use pxpr::Lexer;
use pxpr::Outcome;
use pxpr::Parser;
use pxpr::Value;

#[test]
fn tokenize_classifies_and_positions_tokens() {
    let mut lexer = Lexer::new("1 + 23");
    let tokens = lexer.tokenize().unwrap();
    assert_eq!(tokens.len(), 4);
    assert!(matches!(tokens[0].type_, TokenType::Integer));
    assert_eq!(tokens[0].lexeme, "1");
    assert_eq!(tokens[0].column, 1);
    assert!(matches!(
        tokens[0].value,
        Some(TokenValue::Integer(1))
    ));
    assert!(matches!(tokens[1].type_, TokenType::Plus));
    assert_eq!(tokens[1].lexeme, "+");
    assert_eq!(tokens[1].column, 3);
    assert!(matches!(tokens[2].type_, TokenType::Integer));
    assert_eq!(tokens[2].lexeme, "23");
    assert_eq!(tokens[2].column, 6);
    assert!(matches!(tokens[3].type_, TokenType::EOF));
    assert_eq!(tokens[3].lexeme, "");
    assert_eq!(tokens[3].column, 6);
}

#[test]
fn tokenize_matches_two_character_operators_greedily() {
    let mut lexer = Lexer::new("&& & || | == != ! => << >>");
    let tokens = lexer.tokenize().unwrap();
    let expected = [
        TokenType::And,
        TokenType::BitwiseAnd,
        TokenType::Or,
        TokenType::BitwiseOr,
        TokenType::Equal,
        TokenType::NotEqual,
        TokenType::Not,
        TokenType::If,
        TokenType::BitwiseLeftShift,
        TokenType::BitwiseRightShift,
        TokenType::EOF,
    ];
    assert_eq!(tokens.len(), expected.len());
    for (tok, want) in tokens.iter().zip(expected.iter()) {
        assert_eq!(
            std::mem::discriminant(&tok.type_),
            std::mem::discriminant(want)
        );
    }
}

#[test]
fn tokenize_keeps_float_literal_text() {
    let mut lexer = Lexer::new("2.75");
    let tokens = lexer.tokenize().unwrap();
    assert!(matches!(tokens[0].type_, TokenType::Float));
    match &tokens[0].value {
        Some(v) => {
            assert_eq!(v.as_float().unwrap(), "2.75");
            assert!(v.as_integer().is_none());
            assert!(v.as_boolean().is_none());
        }
        None => panic!("float token without a value"),
    }
}

#[test]
fn tokenize_recognizes_boolean_keywords() {
    let mut lexer = Lexer::new("true false");
    let tokens = lexer.tokenize().unwrap();
    assert!(matches!(
        tokens[0].value,
        Some(TokenValue::Boolean(true))
    ));
    assert!(matches!(
        tokens[1].value,
        Some(TokenValue::Boolean(false))
    ));
}

#[test]
fn token_value_accessors_pick_their_own_kind() {
    let v = TokenValue::Integer(42);
    assert_eq!(v.as_integer(), Some(42));
    assert!(v.as_float().is_none());
    assert!(v.as_boolean().is_none());
    let b = TokenValue::Boolean(true);
    assert_eq!(b.as_boolean(), Some(true));
    assert!(b.as_integer().is_none());
}

#[test]
fn parser_builds_a_unary_chain() {
    let tokens = vec![
        Token {
            type_: TokenType::Minus,
            lexeme: String::from("-"),
            value: None,
            column: 1,
        },
        Token {
            type_: TokenType::Integer,
            lexeme: String::from("3"),
            value: Some(TokenValue::Integer(3)),
            column: 2,
        },
        Token {
            type_: TokenType::EOF,
            lexeme: String::new(),
            value: None,
            column: 2,
        },
    ];
    let mut parser = Parser::new(tokens);
    let ast = parser.parse().unwrap();
    match *ast {
        AstNode::UnaryOperation(UnaryOperationType::ArithmeticNegate, ref inner) => {
            assert!(matches!(**inner, AstNode::Integer(3)));
        }
        ref other => panic!("unexpected tree: {:?}", other),
    }
}

#[test]
fn parser_reports_missing_operand_on_lone_operator() {
    let tokens = vec![
        Token {
            type_: TokenType::Plus,
            lexeme: String::from("+"),
            value: None,
            column: 1,
        },
        Token {
            type_: TokenType::EOF,
            lexeme: String::new(),
            value: None,
            column: 1,
        },
    ];
    let mut parser = Parser::new(tokens);
    let err = parser.parse().unwrap_err();
    assert_eq!(err.message, "Expected an operand");
    assert_eq!(err.column, 1);
}

#[test]
fn parser_reports_literal_token_without_value() {
    let tokens = vec![
        Token {
            type_: TokenType::Integer,
            lexeme: String::from("1"),
            value: None,
            column: 1,
        },
        Token {
            type_: TokenType::EOF,
            lexeme: String::new(),
            value: None,
            column: 1,
        },
    ];
    let mut parser = Parser::new(tokens);
    let err = parser.parse().unwrap_err();
    assert_eq!(err.message, "Expected an integer value");
    assert_eq!(err.column, 1);
}

#[test]
fn parser_reports_boolean_token_with_wrong_value() {
    let tokens = vec![
        Token {
            type_: TokenType::Boolean,
            lexeme: String::from("true"),
            value: Some(TokenValue::Integer(1)),
            column: 4,
        },
        Token {
            type_: TokenType::EOF,
            lexeme: String::new(),
            value: None,
            column: 4,
        },
    ];
    let mut parser = Parser::new(tokens);
    let err = parser.parse().unwrap_err();
    assert_eq!(err.message, "Expected a boolean value");
    assert_eq!(err.column, 4);
}

#[test]
fn parser_reports_float_token_without_value() {
    let tokens = vec![
        Token {
            type_: TokenType::Float,
            lexeme: String::from("1.5"),
            value: None,
            column: 3,
        },
        Token {
            type_: TokenType::EOF,
            lexeme: String::new(),
            value: None,
            column: 3,
        },
    ];
    let mut parser = Parser::new(tokens);
    let err = parser.parse().unwrap_err();
    assert_eq!(err.message, "Expected a float value");
    assert_eq!(err.column, 3);
}

#[test]
fn execute_evaluates_pure_trees_without_answers() {
    let answers: Vec<FloatAnswer> = Vec::new();
    let tree = AstNode::BinaryOperation(
        pxpr::parser::BinaryOperationType::And,
        Box::new(AstNode::Boolean(true)),
        Box::new(AstNode::Boolean(false)),
    );
    match execute(&tree, &answers) {
        Outcome::Value(Value::Boolean(false)) => {}
        other => panic!("unexpected outcome: {:?}", other),
    }
}

#[test]
fn execute_requests_a_parse_for_a_float_literal() {
    let answers: Vec<FloatAnswer> = Vec::new();
    let tree = AstNode::Float(String::from("2.5"));
    match execute(&tree, &answers) {
        Outcome::NeedsFloat(pxpr::FloatRequest::Parse(s)) => assert_eq!(s, "2.5"),
        other => panic!("unexpected outcome: {:?}", other),
    }
}

#[test]
fn integer_text_formats_like_display() {
    assert_eq!(integer_text(0), "0");
    assert_eq!(integer_text(907), "907");
    assert_eq!(integer_text(-45), "-45");
    assert_eq!(integer_text(i64::MAX), format!("{}", i64::MAX));
    assert_eq!(integer_text(i64::MIN), format!("{}", i64::MIN));
}
