use eclipse_syntax::grammar::{Expected, Feature, SyntaxError};
use eclipse_syntax::node::{Expression, Node, Type};
use eclipse_syntax::parser::{parse, ParseError};
use eclipse_syntax::token::{Token, TokenInfo};

fn ident(name: &str) -> Token {
    Token::Identifier(name.to_string())
}

/// Lays the tokens out on one line, separated by single spaces, and ends
/// them with the end-of-file sentinel.
fn line(tokens: Vec<Token>) -> Vec<TokenInfo> {
    let mut out = Vec::new();
    let mut column = 1;
    for token in tokens {
        column += token.len();
        out.push(TokenInfo::new(token, 1, column));
        column += 1;
    }
    out.push(TokenInfo::new(Token::EndOfFile, 1, column));
    out
}

fn parse_line(tokens: Vec<Token>) -> Result<Vec<Node>, ParseError<String>> {
    parse::<String>(Ok(line(tokens)))
}

fn syntax_error(tokens: Vec<Token>) -> SyntaxError {
    match parse_line(tokens) {
        Err(ParseError::Syntax(e)) => e,
        other => panic!("expected a syntax error, got {:?}", other),
    }
}

fn call(name: &str, arguments: Vec<Expression>) -> Node {
    Node::Call(name.to_string(), arguments)
}

#[test]
fn function_with_two_parameters() {
    let tree = parse_line(vec![
        Token::Function, ident("foo"), Token::OpenParen,
        ident("a"), Token::Colon, ident("i64"), Token::Comma,
        ident("b"), Token::Colon, ident("i64"), Token::CloseParen,
        Token::StartScope, Token::EndScope,
    ]).unwrap();
    assert_eq!(tree, vec![Node::Function {
        name: "foo".to_string(),
        parameters: vec![("a".to_string(), Type::I64), ("b".to_string(), Type::I64)],
        return_types: None,
        body: vec![],
    }]);
}

#[test]
fn variable_declaration_with_value() {
    let tree = parse_line(vec![
        Token::Variable, ident("x"), Token::Colon, ident("i64"), Token::Equals, Token::Integer(5),
    ]).unwrap();
    assert_eq!(tree, vec![Node::DefineVariable {
        name: "x".to_string(),
        mutable: false,
        var_type: Type::I64,
        expression: Some(Expression::Value(5)),
    }]);
}

#[test]
fn mutable_variable_without_value() {
    let tree = parse_line(vec![Token::Variable, Token::Mutable, ident("y"), Token::Colon, ident("i64")]).unwrap();
    assert_eq!(tree, vec![Node::DefineVariable {
        name: "y".to_string(),
        mutable: true,
        var_type: Type::I64,
        expression: None,
    }]);
}

#[test]
fn conditional_with_else() {
    let tree = parse_line(vec![
        Token::If, Token::OpenParen, ident("a"), Token::Compare, Token::Integer(1), Token::CloseParen,
        Token::StartScope, ident("foo"), Token::OpenParen, Token::CloseParen, Token::EndScope,
        Token::Else,
        Token::StartScope, ident("bar"), Token::OpenParen, Token::CloseParen, Token::EndScope,
    ]).unwrap();
    assert_eq!(tree, vec![Node::Conditional(
        (Expression::GetVariable("a".to_string()), Expression::Value(1)),
        vec![call("foo", vec![])],
        Some(vec![call("bar", vec![])]),
    )]);
}

#[test]
fn conditional_without_else() {
    let tree = parse_line(vec![
        Token::If, Token::OpenParen, Token::Integer(2), Token::Compare, ident("b"), Token::CloseParen,
        Token::StartScope, Token::EndScope,
    ]).unwrap();
    assert_eq!(tree, vec![Node::Conditional(
        (Expression::Value(2), Expression::GetVariable("b".to_string())),
        vec![],
        None,
    )]);
}

#[test]
fn call_arguments_keep_their_order() {
    let tree = parse_line(vec![
        ident("foo"), Token::OpenParen, Token::Integer(1), Token::Comma, ident("x"), Token::Comma,
        Token::Integer(2), Token::CloseParen,
    ]).unwrap();
    assert_eq!(tree, vec![call("foo", vec![
        Expression::Value(1),
        Expression::GetVariable("x".to_string()),
        Expression::Value(2),
    ])]);
}

#[test]
fn trailing_comma_is_accepted() {
    let tree = parse_line(vec![ident("f"), Token::OpenParen, Token::Integer(7), Token::Comma, Token::CloseParen]).unwrap();
    assert_eq!(tree, vec![call("f", vec![Expression::Value(7)])]);
    let tree = parse_line(vec![
        Token::Function, ident("g"), Token::OpenParen, ident("a"), Token::Colon, ident("i64"), Token::Comma,
        Token::CloseParen, Token::StartScope, Token::EndScope,
    ]).unwrap();
    assert_eq!(tree, vec![Node::Function {
        name: "g".to_string(),
        parameters: vec![("a".to_string(), Type::I64)],
        return_types: None,
        body: vec![],
    }]);
}

#[test]
fn nested_scopes_and_statement_sequence() {
    let tree = parse_line(vec![
        Token::StartScope, Token::StartScope, ident("a"), Token::OpenParen, Token::CloseParen, Token::EndScope,
        Token::EndScope,
        Token::Function, ident("main"), Token::OpenParen, Token::CloseParen, Token::StartScope,
        Token::Variable, ident("z"), Token::Colon, ident("i64"), Token::Equals, ident("w"),
        ident("b"), Token::OpenParen, ident("z"), Token::CloseParen,
        Token::EndScope,
    ]).unwrap();
    assert_eq!(tree, vec![
        Node::Scope(vec![Node::Scope(vec![call("a", vec![])])]),
        Node::Function {
            name: "main".to_string(),
            parameters: vec![],
            return_types: None,
            body: vec![
                Node::DefineVariable {
                    name: "z".to_string(),
                    mutable: false,
                    var_type: Type::I64,
                    expression: Some(Expression::GetVariable("w".to_string())),
                },
                call("b", vec![Expression::GetVariable("z".to_string())]),
            ],
        },
    ]);
}

#[test]
fn empty_program() {
    assert_eq!(parse_line(vec![]).unwrap(), vec![]);
}

#[test]
fn tokenizer_error_is_handed_on() {
    let r = parse::<String>(Err("bad lexeme".to_string()));
    assert_eq!(r, Err(ParseError::Build("bad lexeme".to_string())));
}

#[test]
fn unknown_variable_type_is_unimplemented() {
    let tokens = line(vec![Token::Variable, ident("x"), Token::Colon, ident("u32"), Token::Equals, Token::Integer(1)]);
    let type_token = tokens[3].clone();
    let r = parse::<String>(Ok(tokens));
    assert_eq!(r, Err(ParseError::Syntax(SyntaxError::Unimplemented { feature: Feature::TypeName, at: type_token })));
}

#[test]
fn unknown_parameter_type_is_unimplemented() {
    let tokens = line(vec![
        Token::Function, ident("f"), Token::OpenParen, ident("a"), Token::Colon, ident("bool"), Token::CloseParen,
        Token::StartScope, Token::EndScope,
    ]);
    let type_token = tokens[5].clone();
    assert_eq!(type_token.token, ident("bool"));
    let r = parse::<String>(Ok(tokens));
    assert_eq!(r, Err(ParseError::Syntax(SyntaxError::Unimplemented { feature: Feature::TypeName, at: type_token })));
}

#[test]
fn variable_without_type_is_unimplemented() {
    let tokens = line(vec![Token::Variable, ident("x"), Token::Equals, Token::Integer(5)]);
    let name_token = tokens[1].clone();
    let r = parse::<String>(Ok(tokens));
    assert_eq!(r, Err(ParseError::Syntax(SyntaxError::Unimplemented { feature: Feature::TypeInference, at: name_token })));
}

#[test]
fn argument_list_missing_comma() {
    let tokens = line(vec![ident("foo"), Token::OpenParen, Token::Integer(1), Token::Integer(2), Token::CloseParen]);
    let found = tokens[3].clone();
    assert_eq!(found.column, 9);
    let r = parse::<String>(Ok(tokens));
    assert_eq!(r, Err(ParseError::Syntax(SyntaxError::Unexpected { expected: Expected::CommaOrCloseParen, found })));
}

#[test]
fn argument_list_missing_close_paren() {
    let tokens = line(vec![ident("foo"), Token::OpenParen, Token::Integer(1)]);
    let found = tokens[3].clone();
    assert_eq!(found.token, Token::EndOfFile);
    let r = parse::<String>(Ok(tokens));
    assert_eq!(r, Err(ParseError::Syntax(SyntaxError::Unexpected { expected: Expected::CommaOrCloseParen, found })));
}

#[test]
fn parameter_list_missing_comma() {
    let tokens = line(vec![
        Token::Function, ident("f"), Token::OpenParen, ident("a"), Token::Colon, ident("i64"), ident("b"),
    ]);
    let found = tokens[6].clone();
    let r = parse::<String>(Ok(tokens));
    assert_eq!(r, Err(ParseError::Syntax(SyntaxError::Unexpected { expected: Expected::CommaOrCloseParen, found })));
}

#[test]
fn condition_needs_comparison() {
    let e = syntax_error(vec![
        Token::If, Token::OpenParen, ident("a"), Token::Equals, Token::Integer(1), Token::CloseParen,
        Token::StartScope, Token::EndScope,
    ]);
    assert!(matches!(e, SyntaxError::Unexpected { expected: Expected::Comparison, found } if found.token == Token::Equals));
}

#[test]
fn statement_cannot_start_with_operator() {
    let e = syntax_error(vec![Token::Plus]);
    assert!(matches!(e, SyntaxError::Unexpected { expected: Expected::Statement, found } if found.token == Token::Plus));
}

#[test]
fn call_needs_open_paren() {
    let e = syntax_error(vec![ident("foo"), Token::Integer(1)]);
    assert!(matches!(e, SyntaxError::Unexpected { expected: Expected::OpenParen, found } if found.token == Token::Integer(1)));
}

#[test]
fn expression_must_be_literal_or_name() {
    let e = syntax_error(vec![ident("foo"), Token::OpenParen, Token::Boolean(true), Token::CloseParen]);
    assert!(matches!(e, SyntaxError::Unexpected { expected: Expected::Expression, found } if found.token == Token::Boolean(true)));
}

#[test]
fn function_needs_name_and_body() {
    let e = syntax_error(vec![Token::Function, Token::OpenParen]);
    assert!(matches!(e, SyntaxError::Unexpected { expected: Expected::Identifier, .. }));
    let e = syntax_error(vec![Token::Function, ident("f"), Token::OpenParen, Token::CloseParen, Token::Integer(3)]);
    assert!(matches!(e, SyntaxError::Unexpected { expected: Expected::StartScope, .. }));
    let e = syntax_error(vec![Token::Function, ident("f"), Token::OpenParen, Token::Integer(3)]);
    assert!(matches!(e, SyntaxError::Unexpected { expected: Expected::Parameter, .. }));
    let e = syntax_error(vec![Token::Function, ident("f"), Token::OpenParen, ident("a"), ident("i64")]);
    assert!(matches!(e, SyntaxError::Unexpected { expected: Expected::Colon, .. }));
}

#[test]
fn unclosed_scope_reports_missing_brace() {
    let e = syntax_error(vec![Token::StartScope, ident("a"), Token::OpenParen, Token::CloseParen]);
    assert_eq!(e, SyntaxError::EndOfInput { expected: Expected::EndScope });
}

#[test]
fn stray_close_brace_is_rejected() {
    let e = syntax_error(vec![Token::EndScope]);
    assert!(matches!(e, SyntaxError::Unexpected { expected: Expected::EndOfFile, found } if found.token == Token::EndScope));
}

#[test]
fn missing_sentinel_is_end_of_input() {
    let tokens = vec![TokenInfo::new(ident("foo"), 1, 4)];
    let r = parse::<String>(Ok(tokens));
    assert_eq!(r, Err(ParseError::Syntax(SyntaxError::EndOfInput { expected: Expected::OpenParen })));
    let r = parse::<String>(Ok(vec![]));
    assert_eq!(r, Err(ParseError::Syntax(SyntaxError::EndOfInput { expected: Expected::Statement })));
}

#[test]
fn end_of_file_ends_the_program() {
    let tokens = vec![
        TokenInfo::new(Token::StartScope, 1, 2),
        TokenInfo::new(ident("f"), 1, 4),
        TokenInfo::new(Token::OpenParen, 1, 5),
        TokenInfo::new(Token::CloseParen, 1, 6),
        TokenInfo::new(Token::EndScope, 1, 8),
        TokenInfo::new(Token::EndOfFile, 1, 8),
        TokenInfo::new(Token::EndScope, 2, 2),
    ];
    let tree = parse::<String>(Ok(tokens)).unwrap();
    assert_eq!(tree, vec![Node::Scope(vec![call("f", vec![])])]);
}

#[test]
fn stray_close_brace_after_statements_is_rejected() {
    let e = syntax_error(vec![ident("f"), Token::OpenParen, Token::CloseParen, Token::EndScope]);
    assert!(matches!(e, SyntaxError::Unexpected { expected: Expected::EndOfFile, found } if found.token == Token::EndScope && found.column == 7));
}
