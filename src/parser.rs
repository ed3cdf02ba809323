use vstd::prelude::*;
use crate::token::{Token, TokenInfo};
use crate::tokens::Tokens;
use crate::node::{Type, Expression, Node, expressions_view, parameters_view, nodes_view, lemma_nodes_view_push};
use crate::grammar::{
    Expected, Feature, SyntaxError, Parsed, token_at, i64_name, expect_token, advance, spec_type,
    spec_expression, spec_list_separator, spec_arguments, spec_parameters, spec_variable, spec_call,
    spec_statement, spec_statements, spec_scope, spec_function, spec_conditional, spec_program,
};

verus! {

/// Why `parse` failed: the tokenizer's own error, handed on unchanged, or a
/// syntax error in the token sequence it produced.
#[derive(Debug, PartialEq, Eq)]
pub enum ParseError<E> {
    Build(E),
    Syntax(SyntaxError),
}

/// `r` is what `spec` describes: on success the value, seen through `view`,
/// and the number of tokens consumed between `before` and `after`.
pub open spec fn outcome<V, T>(
    spec: Parsed<V>,
    r: Result<T, SyntaxError>,
    view: spec_fn(T) -> V,
    before: nat,
    after: nat,
) -> bool {
    match spec {
        Ok((v, k)) => match r {
            Ok(x) => view(x) == v && after == before + k,
            Err(_) => false,
        },
        Err(e) => match r {
            Ok(_) => false,
            Err(x) => x == e,
        },
    }
}

/// A token without content: neither a literal nor a name.
pub open spec fn is_plain(t: Token) -> bool {
    !(t is Boolean || t is String || t is Integer || t is Identifier)
}

fn same_plain(a: &Token, b: &Token) -> (r: bool)
    requires
        is_plain(*b),
    ensures
        r == (*a == *b),
{
    match b {
        Token::Uninitialized => matches!(a, Token::Uninitialized),
        Token::EndOfFile => matches!(a, Token::EndOfFile),
        Token::Function => matches!(a, Token::Function),
        Token::StartScope => matches!(a, Token::StartScope),
        Token::EndScope => matches!(a, Token::EndScope),
        Token::OpenParen => matches!(a, Token::OpenParen),
        Token::CloseParen => matches!(a, Token::CloseParen),
        Token::OpenBracket => matches!(a, Token::OpenBracket),
        Token::CloseBracket => matches!(a, Token::CloseBracket),
        Token::Pub => matches!(a, Token::Pub),
        Token::Import => matches!(a, Token::Import),
        Token::Use => matches!(a, Token::Use),
        Token::DoubleColon => matches!(a, Token::DoubleColon),
        Token::Enum => matches!(a, Token::Enum),
        Token::Struct => matches!(a, Token::Struct),
        Token::Unsafe => matches!(a, Token::Unsafe),
        Token::Reference => matches!(a, Token::Reference),
        Token::SemiColon => matches!(a, Token::SemiColon),
        Token::Return => matches!(a, Token::Return),
        Token::Dot => matches!(a, Token::Dot),
        Token::Underscore => matches!(a, Token::Underscore),
        Token::Colon => matches!(a, Token::Colon),
        Token::Equals => matches!(a, Token::Equals),
        Token::Compare => matches!(a, Token::Compare),
        Token::Comma => matches!(a, Token::Comma),
        Token::Mutable => matches!(a, Token::Mutable),
        Token::Variable => matches!(a, Token::Variable),
        Token::Give => matches!(a, Token::Give),
        Token::If => matches!(a, Token::If),
        Token::Else => matches!(a, Token::Else),
        Token::Plus => matches!(a, Token::Plus),
        Token::Minus => matches!(a, Token::Minus),
        Token::Slash => matches!(a, Token::Slash),
        Token::Asterisk => matches!(a, Token::Asterisk),
        Token::Loop => matches!(a, Token::Loop),
        Token::While => matches!(a, Token::While),
        _ => false,
    }
}

fn is_i64(name: &String) -> (r: bool)
    ensures
        r == (name@ == i64_name()),
{
    if name.unicode_len() != 3 {
        return false;
    }
    let a = name.get_char(0);
    let b = name.get_char(1);
    let c = name.get_char(2);
    if a == 'i' && b == '6' && c == '4' {
        assert(name@ =~= i64_name());
        true
    } else {
        false
    }
}

fn expect(tokens: &mut Tokens, want: Token, expected: Expected) -> (r: Result<(), SyntaxError>)
    requires
        old(tokens).wf(),
        is_plain(want),
    ensures
        final(tokens).wf(),
        final(tokens).items() == old(tokens).items(),
        outcome(
            match expect_token(old(tokens).items(), old(tokens).position() as int, want, expected) {
                Ok(u) => Ok((u, 1nat)),
                Err(e) => Err(e),
            },
            r,
            |u: ()| u,
            old(tokens).position(),
            final(tokens).position(),
        ),
{
    match tokens.next_token() {
        None => Err(SyntaxError::EndOfInput { expected }),
        Some(info) => if same_plain(&info.token, &want) {
            Ok(())
        } else {
            Err(SyntaxError::Unexpected { expected, found: info })
        },
    }
}

fn parse_type(tokens: &mut Tokens) -> (r: Result<Type, SyntaxError>)
    requires
        old(tokens).wf(),
    ensures
        final(tokens).wf(),
        final(tokens).items() == old(tokens).items(),
        outcome(spec_type(old(tokens).items(), old(tokens).position() as int), r, |t: Type| t,
            old(tokens).position(), final(tokens).position()),
{
    match tokens.next_token() {
        None => Err(SyntaxError::EndOfInput { expected: Expected::TypeName }),
        Some(info) => {
            let known = match &info.token {
                Token::Identifier(name) => Some(is_i64(name)),
                _ => None,
            };
            match known {
                Some(true) => Ok(Type::I64),
                Some(false) => Err(SyntaxError::Unimplemented { feature: Feature::TypeName, at: info }),
                None => Err(SyntaxError::Unexpected { expected: Expected::TypeName, found: info }),
            }
        },
    }
}

fn result(tokens: &mut Tokens) -> (r: Result<Expression, SyntaxError>)
    requires
        old(tokens).wf(),
    ensures
        final(tokens).wf(),
        final(tokens).items() == old(tokens).items(),
        outcome(spec_expression(old(tokens).items(), old(tokens).position() as int), r,
            |e: Expression| e@, old(tokens).position(), final(tokens).position()),
{
    match tokens.next_token() {
        None => Err(SyntaxError::EndOfInput { expected: Expected::Expression }),
        Some(info) => match &info.token {
            Token::Integer(n) => Ok(Expression::Value(*n)),
            Token::Identifier(name) => Ok(Expression::GetVariable(name.clone())),
            _ => Err(SyntaxError::Unexpected { expected: Expected::Expression, found: info }),
        },
    }
}

fn separator(tokens: &mut Tokens) -> (r: Result<bool, SyntaxError>)
    requires
        old(tokens).wf(),
    ensures
        final(tokens).wf(),
        final(tokens).items() == old(tokens).items(),
        outcome(
            match spec_list_separator(old(tokens).items(), old(tokens).position() as int) {
                Ok(more) => Ok((more, 1nat)),
                Err(e) => Err(e),
            },
            r,
            |b: bool| b,
            old(tokens).position(),
            final(tokens).position(),
        ),
{
    match tokens.next_token() {
        None => Err(SyntaxError::EndOfInput { expected: Expected::CommaOrCloseParen }),
        Some(info) => match &info.token {
            Token::Comma => Ok(true),
            Token::CloseParen => Ok(false),
            _ => Err(SyntaxError::Unexpected { expected: Expected::CommaOrCloseParen, found: info }),
        },
    }
}

fn call_function(tokens: &mut Tokens) -> (r: Result<Vec<Expression>, SyntaxError>)
    requires
        old(tokens).wf(),
    ensures
        final(tokens).wf(),
        final(tokens).items() == old(tokens).items(),
        outcome(spec_arguments(old(tokens).items(), old(tokens).position() as int, Seq::empty()), r,
            |v: Vec<Expression>| expressions_view(v@), old(tokens).position(), final(tokens).position()),
{
    let ghost toks = tokens.items();
    let ghost start = tokens.position() as int;
    let mut arguments: Vec<Expression> = Vec::new();
    assert(expressions_view(arguments@) =~= Seq::empty());
    loop
        invariant
            tokens.wf(),
            tokens.items() == toks,
            toks == old(tokens).items(),
            start == old(tokens).position(),
            start <= tokens.position(),
            spec_arguments(toks, start, Seq::empty()) == advance(
                spec_arguments(toks, tokens.position() as int, expressions_view(arguments@)),
                (tokens.position() - start) as nat,
            ),
        decreases toks.len() - tokens.position(),
    {
        let ghost acc = expressions_view(arguments@);
        match tokens.peek() {
            None => return Err(SyntaxError::EndOfInput { expected: Expected::Argument }),
            Some(info) => if same_plain(&info.token, &Token::CloseParen) {
                tokens.next_token();
                return Ok(arguments);
            },
        }
        let argument = match result(tokens) {
            Ok(e) => e,
            Err(e) => return Err(e),
        };
        let more = match separator(tokens) {
            Ok(b) => b,
            Err(e) => return Err(e),
        };
        assert(expressions_view(arguments@.push(argument)) =~= acc.push(argument@));
        arguments.push(argument);
        if !more {
            return Ok(arguments);
        }
    }
}

fn parameters(tokens: &mut Tokens) -> (r: Result<Vec<(String, Type)>, SyntaxError>)
    requires
        old(tokens).wf(),
    ensures
        final(tokens).wf(),
        final(tokens).items() == old(tokens).items(),
        outcome(spec_parameters(old(tokens).items(), old(tokens).position() as int, Seq::empty()), r,
            |v: Vec<(String, Type)>| parameters_view(v@), old(tokens).position(), final(tokens).position()),
{
    let ghost toks = tokens.items();
    let ghost start = tokens.position() as int;
    let mut parameters: Vec<(String, Type)> = Vec::new();
    assert(parameters_view(parameters@) =~= Seq::empty());
    loop
        invariant
            tokens.wf(),
            tokens.items() == toks,
            toks == old(tokens).items(),
            start == old(tokens).position(),
            start <= tokens.position(),
            spec_parameters(toks, start, Seq::empty()) == advance(
                spec_parameters(toks, tokens.position() as int, parameters_view(parameters@)),
                (tokens.position() - start) as nat,
            ),
        decreases toks.len() - tokens.position(),
    {
        let ghost acc = parameters_view(parameters@);
        let name = match tokens.next_token() {
            None => return Err(SyntaxError::EndOfInput { expected: Expected::Parameter }),
            Some(info) => match &info.token {
                Token::CloseParen => return Ok(parameters),
                Token::Identifier(name) => name.clone(),
                _ => return Err(SyntaxError::Unexpected { expected: Expected::Parameter, found: info }),
            },
        };
        match expect(tokens, Token::Colon, Expected::Colon) {
            Ok(_) => {},
            Err(e) => return Err(e),
        }
        let var_type = match parse_type(tokens) {
            Ok(t) => t,
            Err(e) => return Err(e),
        };
        let more = match separator(tokens) {
            Ok(b) => b,
            Err(e) => return Err(e),
        };
        assert(parameters_view(parameters@.push((name, var_type))) =~= acc.push((name@, var_type)));
        parameters.push((name, var_type));
        if !more {
            return Ok(parameters);
        }
    }
}

fn variable(tokens: &mut Tokens) -> (r: Result<Node, SyntaxError>)
    requires
        old(tokens).wf(),
    ensures
        final(tokens).wf(),
        final(tokens).items() == old(tokens).items(),
        outcome(spec_variable(old(tokens).items(), old(tokens).position() as int), r,
            |n: Node| n@, old(tokens).position(), final(tokens).position()),
{
    let mutable = match tokens.peek() {
        Some(info) => same_plain(&info.token, &Token::Mutable),
        None => false,
    };
    if mutable {
        tokens.next_token();
    }
    let (name, name_token) = match tokens.next_token() {
        None => return Err(SyntaxError::EndOfInput { expected: Expected::Identifier }),
        Some(info) => match &info.token {
            Token::Identifier(name) => (name.clone(), info),
            _ => return Err(SyntaxError::Unexpected { expected: Expected::Identifier, found: info }),
        },
    };
    let typed = match tokens.peek() {
        Some(info) => same_plain(&info.token, &Token::Colon),
        None => false,
    };
    let var_type = if typed {
        tokens.next_token();
        match parse_type(tokens) {
            Ok(t) => Some(t),
            Err(e) => return Err(e),
        }
    } else {
        None
    };
    let assigned = match tokens.peek() {
        Some(info) => same_plain(&info.token, &Token::Equals),
        None => false,
    };
    let expression = if assigned {
        tokens.next_token();
        match result(tokens) {
            Ok(e) => Some(e),
            Err(e) => return Err(e),
        }
    } else {
        None
    };
    match var_type {
        None => Err(SyntaxError::Unimplemented { feature: Feature::TypeInference, at: name_token }),
        Some(var_type) => Ok(Node::DefineVariable { name, mutable, var_type, expression }),
    }
}

fn statement(tokens: &mut Tokens) -> (r: Result<Node, SyntaxError>)
    requires
        old(tokens).wf(),
    ensures
        final(tokens).wf(),
        final(tokens).items() == old(tokens).items(),
        outcome(spec_statement(old(tokens).items(), old(tokens).position() as int), r,
            |n: Node| n@, old(tokens).position(), final(tokens).position()),
    decreases old(tokens).items().len() - old(tokens).position(), 0int,
{
    let info = match tokens.next_token() {
        None => return Err(SyntaxError::EndOfInput { expected: Expected::Statement }),
        Some(info) => info,
    };
    match &info.token {
        Token::StartScope => match scope(tokens) {
            Ok(body) => Ok(Node::Scope(body)),
            Err(e) => Err(e),
        },
        Token::Function => function(tokens),
        Token::Variable => variable(tokens),
        Token::If => conditional(tokens),
        Token::Identifier(name) => {
            match expect(tokens, Token::OpenParen, Expected::OpenParen) {
                Ok(_) => {},
                Err(e) => return Err(e),
            }
            match call_function(tokens) {
                Ok(arguments) => Ok(Node::Call(name.clone(), arguments)),
                Err(e) => Err(e),
            }
        },
        _ => Err(SyntaxError::Unexpected { expected: Expected::Statement, found: info }),
    }
}

fn parse_tokens(tokens: &mut Tokens) -> (r: Result<Vec<Node>, SyntaxError>)
    requires
        old(tokens).wf(),
    ensures
        final(tokens).wf(),
        final(tokens).items() == old(tokens).items(),
        outcome(spec_statements(old(tokens).items(), old(tokens).position() as int, Seq::empty()), r,
            |v: Vec<Node>| nodes_view(v@), old(tokens).position(), final(tokens).position()),
    decreases old(tokens).items().len() - old(tokens).position(), 1int,
{
    let ghost toks = tokens.items();
    let ghost start = tokens.position() as int;
    let mut tree: Vec<Node> = Vec::new();
    assert(nodes_view(tree@) =~= Seq::empty());
    loop
        invariant
            tokens.wf(),
            tokens.items() == toks,
            toks == old(tokens).items(),
            start == old(tokens).position(),
            start <= tokens.position(),
            spec_statements(toks, start, Seq::empty()) == advance(
                spec_statements(toks, tokens.position() as int, nodes_view(tree@)),
                (tokens.position() - start) as nat,
            ),
        decreases toks.len() - tokens.position(),
    {
        match tokens.peek() {
            None => return Err(SyntaxError::EndOfInput { expected: Expected::Statement }),
            Some(info) => if same_plain(&info.token, &Token::EndOfFile) {
                tokens.next_token();
                return Ok(tree);
            } else if same_plain(&info.token, &Token::EndScope) {
                return Ok(tree);
            },
        }
        let node = match statement(tokens) {
            Ok(n) => n,
            Err(e) => return Err(e),
        };
        proof {
            lemma_nodes_view_push(tree@, node);
        }
        tree.push(node);
    }
}

fn scope(tokens: &mut Tokens) -> (r: Result<Vec<Node>, SyntaxError>)
    requires
        old(tokens).wf(),
    ensures
        final(tokens).wf(),
        final(tokens).items() == old(tokens).items(),
        outcome(spec_scope(old(tokens).items(), old(tokens).position() as int), r,
            |v: Vec<Node>| nodes_view(v@), old(tokens).position(), final(tokens).position()),
    decreases old(tokens).items().len() - old(tokens).position(), 2int,
{
    let nodes = match parse_tokens(tokens) {
        Ok(nodes) => nodes,
        Err(e) => return Err(e),
    };
    match expect(tokens, Token::EndScope, Expected::EndScope) {
        Ok(_) => Ok(nodes),
        Err(e) => Err(e),
    }
}

fn function(tokens: &mut Tokens) -> (r: Result<Node, SyntaxError>)
    requires
        old(tokens).wf(),
    ensures
        final(tokens).wf(),
        final(tokens).items() == old(tokens).items(),
        outcome(spec_function(old(tokens).items(), old(tokens).position() as int), r,
            |n: Node| n@, old(tokens).position(), final(tokens).position()),
    decreases old(tokens).items().len() - old(tokens).position(), 0int,
{
    let name = match tokens.next_token() {
        None => return Err(SyntaxError::EndOfInput { expected: Expected::Identifier }),
        Some(info) => match &info.token {
            Token::Identifier(name) => name.clone(),
            _ => return Err(SyntaxError::Unexpected { expected: Expected::Identifier, found: info }),
        },
    };
    match expect(tokens, Token::OpenParen, Expected::OpenParen) {
        Ok(_) => {},
        Err(e) => return Err(e),
    }
    let parameters = match parameters(tokens) {
        Ok(p) => p,
        Err(e) => return Err(e),
    };
    match expect(tokens, Token::StartScope, Expected::StartScope) {
        Ok(_) => {},
        Err(e) => return Err(e),
    }
    let body = match scope(tokens) {
        Ok(b) => b,
        Err(e) => return Err(e),
    };
    Ok(Node::Function { name, parameters, return_types: None, body })
}

fn conditional(tokens: &mut Tokens) -> (r: Result<Node, SyntaxError>)
    requires
        old(tokens).wf(),
    ensures
        final(tokens).wf(),
        final(tokens).items() == old(tokens).items(),
        outcome(spec_conditional(old(tokens).items(), old(tokens).position() as int), r,
            |n: Node| n@, old(tokens).position(), final(tokens).position()),
    decreases old(tokens).items().len() - old(tokens).position(), 0int,
{
    match expect(tokens, Token::OpenParen, Expected::OpenParen) {
        Ok(_) => {},
        Err(e) => return Err(e),
    }
    let a = match result(tokens) {
        Ok(e) => e,
        Err(e) => return Err(e),
    };
    match expect(tokens, Token::Compare, Expected::Comparison) {
        Ok(_) => {},
        Err(e) => return Err(e),
    }
    let b = match result(tokens) {
        Ok(e) => e,
        Err(e) => return Err(e),
    };
    match expect(tokens, Token::CloseParen, Expected::CloseParen) {
        Ok(_) => {},
        Err(e) => return Err(e),
    }
    match expect(tokens, Token::StartScope, Expected::StartScope) {
        Ok(_) => {},
        Err(e) => return Err(e),
    }
    let body = match scope(tokens) {
        Ok(b) => b,
        Err(e) => return Err(e),
    };
    let has_else = match tokens.peek() {
        Some(info) => same_plain(&info.token, &Token::Else),
        None => false,
    };
    let else_body = if has_else {
        tokens.next_token();
        match expect(tokens, Token::StartScope, Expected::StartScope) {
            Ok(_) => {},
            Err(e) => return Err(e),
        }
        match scope(tokens) {
            Ok(b) => Some(b),
            Err(e) => return Err(e),
        }
    } else {
        None
    };
    Ok(Node::Conditional((a, b), body, else_body))
}

/// Parses the output of the tokenizer into the top-level statements of a
/// program. A tokenizer error is handed on unchanged; a token sequence that is
/// not a program gives the first syntax error met.
pub fn parse<E>(tokenized: Result<Vec<TokenInfo>, E>) -> (r: Result<Vec<Node>, ParseError<E>>)
    ensures
        match tokenized {
            Err(e) => r matches Err(ParseError::Build(x)) && x == e,
            Ok(toks) => match spec_program(toks@) {
                Ok(nodes) => r matches Ok(tree) && nodes_view(tree@) == nodes,
                Err(e) => r matches Err(ParseError::Syntax(x)) && x == e,
            },
        },
{
    let toks = match tokenized {
        Ok(toks) => toks,
        Err(error) => return Err(ParseError::Build(error)),
    };
    let mut tokens = Tokens::new(toks);
    let tree = match parse_tokens(&mut tokens) {
        Ok(tree) => tree,
        Err(e) => return Err(ParseError::Syntax(e)),
    };
    let ended = match tokens.previous() {
        Some(info) => same_plain(&info.token, &Token::EndOfFile),
        None => false,
    };
    if ended {
        return Ok(tree);
    }
    match tokens.peek() {
        Some(info) => Err(ParseError::Syntax(SyntaxError::Unexpected { expected: Expected::EndOfFile, found: info })),
        None => Err(ParseError::Syntax(SyntaxError::EndOfInput { expected: Expected::EndOfFile })),
    }
}

} // verus!
