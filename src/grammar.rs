use vstd::prelude::*;
use crate::token::{Token, TokenInfo};
use crate::node::{Type, ExpressionView, NodeView};

verus! {

/// The construct that the parser was looking for when it failed.
#[derive(Debug, Clone, Copy, PartialEq, Eq)]
pub enum Expected {
    Identifier,
    TypeName,
    Parameter,
    Argument,
    Expression,
    Statement,
    Colon,
    CommaOrCloseParen,
    OpenParen,
    CloseParen,
    Comparison,
    StartScope,
    EndScope,
    EndOfFile,
}

/// A construct that the grammar recognises but does not support yet.
#[derive(Debug, Clone, Copy, PartialEq, Eq)]
pub enum Feature {
    /// A type name other than `i64`.
    TypeName,
    /// A variable declared without a type annotation.
    TypeInference,
}

/// Why a token sequence is not a program.
#[derive(Debug, Clone, PartialEq, Eq)]
pub enum SyntaxError {
    /// The grammar required `expected`, and `found` came instead.
    Unexpected { expected: Expected, found: TokenInfo },
    /// The grammar required `expected`, and the token sequence had ended.
    EndOfInput { expected: Expected },
    /// The construct that starts at `at` is not supported yet.
    Unimplemented { feature: Feature, at: TokenInfo },
}

/// A parse result: the value read and the number of tokens consumed.
pub type Parsed<V> = Result<(V, nat), SyntaxError>;

/// The token at index `pos`, if there is one.
pub open spec fn token_at(toks: Seq<TokenInfo>, pos: int) -> Option<TokenInfo> {
    if 0 <= pos < toks.len() {
        Some(toks[pos])
    } else {
        None
    }
}

/// The characters of the one type name that is supported.
pub open spec fn i64_name() -> Seq<char> {
    seq!['i', '6', '4']
}

/// Consumes the token at `pos`, which must be `want`.
pub open spec fn expect_token(toks: Seq<TokenInfo>, pos: int, want: Token, expected: Expected) -> Result<(), SyntaxError> {
    match token_at(toks, pos) {
        None => Err(SyntaxError::EndOfInput { expected }),
        Some(t) => if t.token == want {
            Ok(())
        } else {
            Err(SyntaxError::Unexpected { expected, found: t })
        },
    }
}

/// Adds `n` consumed tokens to a successful result.
pub open spec fn advance<V>(r: Parsed<V>, n: nat) -> Parsed<V> {
    match r {
        Ok((v, k)) => Ok((v, k + n)),
        Err(e) => Err(e),
    }
}

/// `type := identifier`, with `i64` the only name supported.
pub open spec fn spec_type(toks: Seq<TokenInfo>, pos: int) -> Parsed<Type> {
    match token_at(toks, pos) {
        None => Err(SyntaxError::EndOfInput { expected: Expected::TypeName }),
        Some(t) => match t.token {
            Token::Identifier(name) => if name@ == i64_name() {
                Ok((Type::I64, 1))
            } else {
                Err(SyntaxError::Unimplemented { feature: Feature::TypeName, at: t })
            },
            _ => Err(SyntaxError::Unexpected { expected: Expected::TypeName, found: t }),
        },
    }
}

/// `expr := integer-literal | identifier`
pub open spec fn spec_expression(toks: Seq<TokenInfo>, pos: int) -> Parsed<ExpressionView> {
    match token_at(toks, pos) {
        None => Err(SyntaxError::EndOfInput { expected: Expected::Expression }),
        Some(t) => match t.token {
            Token::Integer(n) => Ok((ExpressionView::Value(n as nat), 1)),
            Token::Identifier(name) => Ok((ExpressionView::GetVariable(name@), 1)),
            _ => Err(SyntaxError::Unexpected { expected: Expected::Expression, found: t }),
        },
    }
}

/// After an element of a list at `pos`: a `,` continues the list, a `)`
/// ends it. Gives whether the list goes on.
pub open spec fn spec_list_separator(toks: Seq<TokenInfo>, pos: int) -> Result<bool, SyntaxError> {
    match token_at(toks, pos) {
        None => Err(SyntaxError::EndOfInput { expected: Expected::CommaOrCloseParen }),
        Some(t) => match t.token {
            Token::Comma => Ok(true),
            Token::CloseParen => Ok(false),
            _ => Err(SyntaxError::Unexpected { expected: Expected::CommaOrCloseParen, found: t }),
        },
    }
}

/// The rest of an argument list after `(`, with `acc` the arguments read so
/// far; the closing `)` is consumed.
pub open spec fn spec_arguments(toks: Seq<TokenInfo>, pos: int, acc: Seq<ExpressionView>) -> Parsed<Seq<ExpressionView>>
    decreases toks.len() - pos,
{
    match token_at(toks, pos) {
        None => Err(SyntaxError::EndOfInput { expected: Expected::Argument }),
        Some(t) => if t.token is CloseParen {
            Ok((acc, 1))
        } else {
            match spec_expression(toks, pos) {
                Err(e) => Err(e),
                Ok((e, k)) => match spec_list_separator(toks, pos + k) {
                    Err(err) => Err(err),
                    Ok(more) => if more {
                        advance(spec_arguments(toks, pos + k + 1, acc.push(e)), k + 1)
                    } else {
                        Ok((acc.push(e), k + 1))
                    },
                },
            }
        },
    }
}

/// The rest of a parameter list after `(`, with `acc` the parameters read so
/// far; the closing `)` is consumed.
pub open spec fn spec_parameters(toks: Seq<TokenInfo>, pos: int, acc: Seq<(Seq<char>, Type)>) -> Parsed<Seq<(Seq<char>, Type)>>
    decreases toks.len() - pos,
{
    match token_at(toks, pos) {
        None => Err(SyntaxError::EndOfInput { expected: Expected::Parameter }),
        Some(t) => match t.token {
            Token::CloseParen => Ok((acc, 1)),
            Token::Identifier(name) => match expect_token(toks, pos + 1, Token::Colon, Expected::Colon) {
                Err(e) => Err(e),
                Ok(_) => match spec_type(toks, pos + 2) {
                    Err(e) => Err(e),
                    Ok((ty, k)) => match spec_list_separator(toks, pos + 2 + k) {
                        Err(e) => Err(e),
                        Ok(more) => if more {
                            advance(spec_parameters(toks, pos + 3 + k, acc.push((name@, ty))), k + 3)
                        } else {
                            Ok((acc.push((name@, ty)), k + 3))
                        },
                    },
                },
            },
            _ => Err(SyntaxError::Unexpected { expected: Expected::Parameter, found: t }),
        },
    }
}

/// `variable := 'let' 'mut'? identifier (':' type)? ('=' expr)?`, from the
/// token after `let`. A declaration without a type is not supported.
pub open spec fn spec_variable(toks: Seq<TokenInfo>, pos: int) -> Parsed<NodeView> {
    let mutable = match token_at(toks, pos) {
        Some(t) => t.token is Mutable,
        None => false,
    };
    let p = if mutable { pos + 1 } else { pos };
    match token_at(toks, p) {
        None => Err(SyntaxError::EndOfInput { expected: Expected::Identifier }),
        Some(name_token) => match name_token.token {
            Token::Identifier(name) => {
                let typed = match token_at(toks, p + 1) {
                    Some(t) => t.token is Colon,
                    None => false,
                };
                // Without an annotation the type stays unread; the declaration
                // is refused below, once its value has been read.
                let ty = if typed { spec_type(toks, p + 2) } else { Ok((Type::I64, 0)) };
                match ty {
                    Err(e) => Err(e),
                    Ok((var_type, k)) => {
                        let q = if typed { p + 2 + k } else { p + 1 };
                        let assigned = match token_at(toks, q) {
                            Some(t) => t.token is Equals,
                            None => false,
                        };
                        let value = if assigned { spec_expression(toks, q + 1) } else {
                            Ok((ExpressionView::Value(0), 0))
                        };
                        match value {
                            Err(e) => Err(e),
                            Ok((e, m)) => if !typed {
                                Err(SyntaxError::Unimplemented { feature: Feature::TypeInference, at: name_token })
                            } else {
                                let end = if assigned { q + 1 + m } else { q };
                                Ok((NodeView::DefineVariable {
                                    name: name@,
                                    mutable,
                                    var_type,
                                    expression: if assigned { Some(e) } else { None },
                                }, (end - pos) as nat))
                            },
                        }
                    },
                }
            },
            _ => Err(SyntaxError::Unexpected { expected: Expected::Identifier, found: name_token }),
        },
    }
}

/// `call-statement := identifier '(' arg-list ')'`, from the token after the
/// name.
pub open spec fn spec_call(toks: Seq<TokenInfo>, pos: int, name: Seq<char>) -> Parsed<NodeView> {
    match expect_token(toks, pos, Token::OpenParen, Expected::OpenParen) {
        Err(e) => Err(e),
        Ok(_) => match spec_arguments(toks, pos + 1, Seq::empty()) {
            Err(e) => Err(e),
            Ok((arguments, k)) => Ok((NodeView::Call(name, arguments), k + 1)),
        },
    }
}

/// `statement := scope | function | variable | conditional | call-statement`,
/// from its first token, which is consumed.
pub open spec fn spec_statement(toks: Seq<TokenInfo>, pos: int) -> Parsed<NodeView>
    decreases toks.len() - pos, 0int,
{
    match token_at(toks, pos) {
        None => Err(SyntaxError::EndOfInput { expected: Expected::Statement }),
        Some(t) => advance(
            match t.token {
                Token::StartScope => match spec_scope(toks, pos + 1) {
                    Err(e) => Err(e),
                    Ok((body, k)) => Ok((NodeView::Scope(body), k)),
                },
                Token::Function => spec_function(toks, pos + 1),
                Token::Variable => spec_variable(toks, pos + 1),
                Token::If => spec_conditional(toks, pos + 1),
                Token::Identifier(name) => spec_call(toks, pos + 1, name@),
                _ => Err(SyntaxError::Unexpected { expected: Expected::Statement, found: t }),
            },
            1,
        ),
    }
}

/// `statement*`, up to a `}`, which is left for the enclosing scope, or up to
/// the end of file, which is consumed; `acc` holds the statements read so far.
pub open spec fn spec_statements(toks: Seq<TokenInfo>, pos: int, acc: Seq<NodeView>) -> Parsed<Seq<NodeView>>
    decreases toks.len() - pos, 1int,
{
    match token_at(toks, pos) {
        None => Err(SyntaxError::EndOfInput { expected: Expected::Statement }),
        Some(t) => if t.token is EndOfFile {
            Ok((acc, 1))
        } else if t.token is EndScope {
            Ok((acc, 0))
        } else {
            match spec_statement(toks, pos) {
                Err(e) => Err(e),
                // A statement consumes at least one token and no more than
                // remain; the test states it so that the recursion visibly ends.
                Ok((n, k)) => if 0 < k && pos + k <= toks.len() {
                    advance(spec_statements(toks, pos + k, acc.push(n)), k)
                } else {
                    Err(SyntaxError::EndOfInput { expected: Expected::Statement })
                },
            }
        },
    }
}

/// `scope := statement* '}'`, from the token after `{`.
pub open spec fn spec_scope(toks: Seq<TokenInfo>, pos: int) -> Parsed<Seq<NodeView>>
    decreases toks.len() - pos, 2int,
{
    match spec_statements(toks, pos, Seq::empty()) {
        Err(e) => Err(e),
        Ok((nodes, k)) => match expect_token(toks, pos + k, Token::EndScope, Expected::EndScope) {
            Err(e) => Err(e),
            Ok(_) => Ok((nodes, k + 1)),
        },
    }
}

/// `function := 'fn' identifier '(' param-list ')' scope`, from the token
/// after `fn`.
pub open spec fn spec_function(toks: Seq<TokenInfo>, pos: int) -> Parsed<NodeView>
    decreases toks.len() - pos, 0int,
{
    match token_at(toks, pos) {
        None => Err(SyntaxError::EndOfInput { expected: Expected::Identifier }),
        Some(t) => match t.token {
            Token::Identifier(name) => match expect_token(toks, pos + 1, Token::OpenParen, Expected::OpenParen) {
                Err(e) => Err(e),
                Ok(_) => match spec_parameters(toks, pos + 2, Seq::empty()) {
                    Err(e) => Err(e),
                    Ok((parameters, k)) => match expect_token(toks, pos + 2 + k, Token::StartScope, Expected::StartScope) {
                        Err(e) => Err(e),
                        Ok(_) => match spec_scope(toks, pos + 3 + k) {
                            Err(e) => Err(e),
                            Ok((body, m)) => Ok((NodeView::Function {
                                name: name@,
                                parameters,
                                return_types: None,
                                body,
                            }, k + m + 3)),
                        },
                    },
                },
            },
            _ => Err(SyntaxError::Unexpected { expected: Expected::Identifier, found: t }),
        },
    }
}

/// `conditional := 'if' '(' expr '==' expr ')' '{' statement* '}'
/// ('else' '{' statement* '}')?`, from the token after `if`.
pub open spec fn spec_conditional(toks: Seq<TokenInfo>, pos: int) -> Parsed<NodeView>
    decreases toks.len() - pos, 0int,
{
    match expect_token(toks, pos, Token::OpenParen, Expected::OpenParen) {
        Err(e) => Err(e),
        Ok(_) => match spec_expression(toks, pos + 1) {
            Err(e) => Err(e),
            Ok((lhs, a)) => match expect_token(toks, pos + 1 + a, Token::Compare, Expected::Comparison) {
                Err(e) => Err(e),
                Ok(_) => match spec_expression(toks, pos + 2 + a) {
                    Err(e) => Err(e),
                    Ok((rhs, b)) => {
                        let p = pos + 2 + a + b;
                        match expect_token(toks, p, Token::CloseParen, Expected::CloseParen) {
                            Err(e) => Err(e),
                            Ok(_) => match expect_token(toks, p + 1, Token::StartScope, Expected::StartScope) {
                                Err(e) => Err(e),
                                Ok(_) => match spec_scope(toks, p + 2) {
                                    Err(e) => Err(e),
                                    Ok((then_body, k)) => {
                                        let q = p + 2 + k;
                                        let has_else = match token_at(toks, q) {
                                            Some(t) => t.token is Else,
                                            None => false,
                                        };
                                        if has_else {
                                            match expect_token(toks, q + 1, Token::StartScope, Expected::StartScope) {
                                                Err(e) => Err(e),
                                                Ok(_) => match spec_scope(toks, q + 2) {
                                                    Err(e) => Err(e),
                                                    Ok((else_body, m)) => Ok((
                                                        NodeView::Conditional(lhs, rhs, then_body, Some(else_body)),
                                                        (q + 2 + m - pos) as nat,
                                                    )),
                                                },
                                            }
                                        } else {
                                            Ok((NodeView::Conditional(lhs, rhs, then_body, None), (q - pos) as nat))
                                        }
                                    },
                                },
                            },
                        }
                    },
                },
            },
        },
    }
}

/// `program := statement*`, ended by the end of file; a `}` that closes no
/// scope is refused.
pub open spec fn spec_program(toks: Seq<TokenInfo>) -> Result<Seq<NodeView>, SyntaxError> {
    match spec_statements(toks, 0, Seq::empty()) {
        Err(e) => Err(e),
        Ok((nodes, k)) => {
            let ended = match token_at(toks, k - 1) {
                Some(t) => t.token is EndOfFile,
                None => false,
            };
            if ended {
                Ok(nodes)
            } else {
                match token_at(toks, k as int) {
                    Some(t) => Err(SyntaxError::Unexpected { expected: Expected::EndOfFile, found: t }),
                    None => Err(SyntaxError::EndOfInput { expected: Expected::EndOfFile }),
                }
            }
        },
    }
}

/// A type name other than `i64`, whether it annotates a variable or a
/// parameter, is reported as an unsupported feature at the type name's token;
/// no type is ever assumed in its place.
pub proof fn lemma_unknown_type_is_unimplemented(toks: Seq<TokenInfo>, pos: int, acc: Seq<(Seq<char>, Type)>)
    requires
        0 <= pos,
        pos + 2 < toks.len(),
        toks[pos].token is Identifier,
        toks[pos + 1].token == Token::Colon,
        toks[pos + 2].token is Identifier,
        toks[pos + 2].token->Identifier_0@ != i64_name(),
    ensures
        spec_type(toks, pos + 2) == Err::<(Type, nat), SyntaxError>(
            SyntaxError::Unimplemented { feature: Feature::TypeName, at: toks[pos + 2] }),
        spec_parameters(toks, pos, acc) == Err::<(Seq<(Seq<char>, Type)>, nat), SyntaxError>(
            SyntaxError::Unimplemented { feature: Feature::TypeName, at: toks[pos + 2] }),
        !(toks[pos].token is Mutable) ==> spec_variable(toks, pos) == Err::<(NodeView, nat), SyntaxError>(
            SyntaxError::Unimplemented { feature: Feature::TypeName, at: toks[pos + 2] }),
{
}

/// In an argument list, an argument followed by anything but `,` or `)` is
/// reported as malformed, naming the separator expected and the token found;
/// an argument list cut short by the end of input is reported too.
pub proof fn lemma_malformed_arguments(toks: Seq<TokenInfo>, pos: int, acc: Seq<ExpressionView>)
    requires
        0 <= pos < toks.len(),
        toks[pos].token is Integer || toks[pos].token is Identifier,
    ensures
        pos + 1 < toks.len() && !(toks[pos + 1].token is Comma) && !(toks[pos + 1].token is CloseParen)
            ==> spec_arguments(toks, pos, acc) == Err::<(Seq<ExpressionView>, nat), SyntaxError>(
                SyntaxError::Unexpected { expected: Expected::CommaOrCloseParen, found: toks[pos + 1] }),
        pos + 1 == toks.len() ==> spec_arguments(toks, pos, acc) == Err::<(Seq<ExpressionView>, nat), SyntaxError>(
            SyntaxError::EndOfInput { expected: Expected::CommaOrCloseParen }),
{
}

/// In a parameter list, a parameter followed by anything but `,` or `)` is
/// reported as malformed, naming the separator expected and the token found.
pub proof fn lemma_malformed_parameters(toks: Seq<TokenInfo>, pos: int, acc: Seq<(Seq<char>, Type)>)
    requires
        0 <= pos,
        pos + 3 < toks.len(),
        toks[pos].token is Identifier,
        toks[pos + 1].token == Token::Colon,
        toks[pos + 2].token is Identifier,
        toks[pos + 2].token->Identifier_0@ == i64_name(),
        !(toks[pos + 3].token is Comma),
        !(toks[pos + 3].token is CloseParen),
    ensures
        spec_parameters(toks, pos, acc) == Err::<(Seq<(Seq<char>, Type)>, nat), SyntaxError>(
            SyntaxError::Unexpected { expected: Expected::CommaOrCloseParen, found: toks[pos + 3] }),
{
}

} // verus!
