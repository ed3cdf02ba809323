use vstd::prelude::*;

verus! {

/// One lexical unit of the language.
#[derive(Debug, PartialEq, Eq, Clone)]
pub enum Token {
    Uninitialized,
    EndOfFile,
    Function,
    StartScope,
    EndScope,
    OpenParen,
    CloseParen,
    OpenBracket,
    CloseBracket,
    Pub,
    Import,
    Use,
    DoubleColon,
    Enum,
    Struct,
    Unsafe,
    Reference,
    SemiColon,
    Return,
    Dot,
    Underscore,
    Colon,
    Equals,
    Compare,
    Comma,
    Mutable,
    Variable,
    Give,
    If,
    Else,
    Plus,
    Minus,
    Slash,
    Asterisk,
    Loop,
    While,
    Boolean(bool),
    String(String),
    Integer(usize),
    Identifier(String),
}

/// Number of decimal digits used to write `n` (zero is written with one digit).
pub open spec fn decimal_digits(n: nat) -> nat
    decreases n,
{
    if n < 10 {
        1
    } else {
        1 + decimal_digits(n / 10)
    }
}

/// Number of source characters that a token occupies.
pub open spec fn token_len(t: Token) -> nat {
    match t {
        Token::Uninitialized => 0,
        Token::EndOfFile => 0,
        Token::Function => 2,
        Token::StartScope => 1,
        Token::EndScope => 1,
        Token::OpenParen => 1,
        Token::CloseParen => 1,
        Token::OpenBracket => 1,
        Token::CloseBracket => 1,
        Token::Pub => 3,
        Token::Import => 6,
        Token::Use => 3,
        Token::DoubleColon => 2,
        Token::Enum => 4,
        Token::Struct => 6,
        Token::Unsafe => 6,
        Token::Reference => 1,
        Token::SemiColon => 1,
        Token::Return => 6,
        Token::Dot => 1,
        Token::Underscore => 1,
        Token::Colon => 1,
        Token::Equals => 1,
        Token::Compare => 2,
        Token::Comma => 1,
        Token::Mutable => 3,
        Token::Variable => 3,
        Token::Give => 4,
        Token::If => 2,
        Token::Else => 4,
        Token::Plus => 1,
        Token::Minus => 1,
        Token::Slash => 1,
        Token::Asterisk => 1,
        Token::Loop => 4,
        Token::While => 5,
        Token::Boolean(b) => if b { 4 } else { 5 },
        Token::String(s) => s@.len() + 2,
        Token::Integer(n) => decimal_digits(n as nat),
        Token::Identifier(s) => s@.len(),
    }
}

proof fn lemma_digits_bounded(n: nat)
    requires
        n >= 1,
    ensures
        decimal_digits(n) <= n,
    decreases n,
{
    if n >= 10 {
        lemma_digits_bounded(n / 10);
    }
}

fn count_digits(n: usize) -> (r: usize)
    ensures
        r as nat == decimal_digits(n as nat),
{
    if n > 0 {
        proof { lemma_digits_bounded(n as nat); }
    }
    let mut rest: usize = n;
    let mut count: usize = 1;
    while rest >= 10
        invariant
            count as nat + decimal_digits(rest as nat) == decimal_digits(n as nat) + 1,
            rest <= n,
            n >= 1 ==> decimal_digits(n as nat) <= n,
        decreases rest,
    {
        assert(decimal_digits(rest as nat) >= 2) by {
            reveal_with_fuel(decimal_digits, 2);
        }
        rest = rest / 10;
        count = count + 1;
    }
    count
}

impl Token {
    /// Number of source characters that this token occupies.
    pub fn len(&self) -> (r: usize)
        requires
            self is String ==> self->String_0@.len() + 2 <= usize::MAX,
        ensures
            r as nat == token_len(*self),
    {
        match self {
            Token::Uninitialized => 0,
            Token::EndOfFile => 0,
            Token::Function => 2,
            Token::StartScope => 1,
            Token::EndScope => 1,
            Token::OpenParen => 1,
            Token::CloseParen => 1,
            Token::OpenBracket => 1,
            Token::CloseBracket => 1,
            Token::Pub => 3,
            Token::Import => 6,
            Token::Use => 3,
            Token::DoubleColon => 2,
            Token::Enum => 4,
            Token::Struct => 6,
            Token::Unsafe => 6,
            Token::Reference => 1,
            Token::SemiColon => 1,
            Token::Return => 6,
            Token::Dot => 1,
            Token::Underscore => 1,
            Token::Colon => 1,
            Token::Equals => 1,
            Token::Compare => 2,
            Token::Comma => 1,
            Token::Mutable => 3,
            Token::Variable => 3,
            Token::Give => 4,
            Token::If => 2,
            Token::Else => 4,
            Token::Plus => 1,
            Token::Minus => 1,
            Token::Slash => 1,
            Token::Asterisk => 1,
            Token::Loop => 4,
            Token::While => 5,
            Token::Boolean(b) => if *b { 4 } else { 5 },
            Token::String(s) => s.unicode_len() + 2,
            Token::Integer(n) => count_digits(*n),
            Token::Identifier(s) => s.unicode_len(),
        }
    }

    /// A copy of this token.
    pub fn duplicate(&self) -> (r: Token)
        ensures
            r == *self,
    {
        match self {
            Token::Uninitialized => Token::Uninitialized,
            Token::EndOfFile => Token::EndOfFile,
            Token::Function => Token::Function,
            Token::StartScope => Token::StartScope,
            Token::EndScope => Token::EndScope,
            Token::OpenParen => Token::OpenParen,
            Token::CloseParen => Token::CloseParen,
            Token::OpenBracket => Token::OpenBracket,
            Token::CloseBracket => Token::CloseBracket,
            Token::Pub => Token::Pub,
            Token::Import => Token::Import,
            Token::Use => Token::Use,
            Token::DoubleColon => Token::DoubleColon,
            Token::Enum => Token::Enum,
            Token::Struct => Token::Struct,
            Token::Unsafe => Token::Unsafe,
            Token::Reference => Token::Reference,
            Token::SemiColon => Token::SemiColon,
            Token::Return => Token::Return,
            Token::Dot => Token::Dot,
            Token::Underscore => Token::Underscore,
            Token::Colon => Token::Colon,
            Token::Equals => Token::Equals,
            Token::Compare => Token::Compare,
            Token::Comma => Token::Comma,
            Token::Mutable => Token::Mutable,
            Token::Variable => Token::Variable,
            Token::Give => Token::Give,
            Token::If => Token::If,
            Token::Else => Token::Else,
            Token::Plus => Token::Plus,
            Token::Minus => Token::Minus,
            Token::Slash => Token::Slash,
            Token::Asterisk => Token::Asterisk,
            Token::Loop => Token::Loop,
            Token::While => Token::While,
            Token::Boolean(b) => Token::Boolean(*b),
            Token::String(s) => Token::String(s.clone()),
            Token::Integer(n) => Token::Integer(*n),
            Token::Identifier(s) => Token::Identifier(s.clone()),
        }
    }
}

/// A token together with the line and the column at which it starts.
#[derive(Debug, Clone, PartialEq, Eq)]
pub struct TokenInfo {
    pub token: Token,
    pub line: usize,
    pub column: usize,
}

impl TokenInfo {
    /// Positions `token`, given the column just past its last character.
    pub fn new(token: Token, line: usize, column: usize) -> (r: TokenInfo)
        requires
            token_len(token) <= column,
        ensures
            r.token == token,
            r.line == line,
            r.column + token_len(token) == column,
    {
        let length = token.len();
        TokenInfo { column: column - length, token, line }
    }

    /// The placeholder value: no token, at line and column zero.
    pub fn default() -> (r: TokenInfo)
        ensures
            r.token == Token::Uninitialized,
            r.line == 0,
            r.column == 0,
    {
        TokenInfo { token: Token::Uninitialized, line: 0, column: 0 }
    }

    /// A copy of this positioned token.
    pub fn duplicate(&self) -> (r: TokenInfo)
        ensures
            r == *self,
    {
        TokenInfo { token: self.token.duplicate(), line: self.line, column: self.column }
    }
}

} // verus!
