use vstd::prelude::*;
use crate::token::{Token, TokenInfo};

verus! {

/// A forward-only cursor with one token of lookahead over a token sequence.
#[derive(Debug)]
pub struct Tokens {
    tokens: Vec<TokenInfo>,
    position: usize,
}

impl Tokens {
    /// The whole sequence the cursor reads.
    pub closed spec fn items(&self) -> Seq<TokenInfo> {
        self.tokens@
    }

    /// Index of the next token to be handed out.
    pub closed spec fn position(&self) -> nat {
        self.position as nat
    }

    /// The position lies within the sequence or just past its end.
    pub open spec fn wf(&self) -> bool {
        self.position() <= self.items().len()
    }

    /// A cursor at the start of `tokens`.
    pub fn new(tokens: Vec<TokenInfo>) -> (r: Tokens)
        ensures
            r.items() == tokens@,
            r.position() == 0,
            r.wf(),
    {
        Tokens { tokens, position: 0 }
    }

    /// A copy of the next token, without moving past it.
    pub fn peek(&self) -> (r: Option<TokenInfo>)
        ensures
            self.position() < self.items().len() ==> r == Some(self.items()[self.position() as int]),
            self.position() >= self.items().len() ==> r is None,
    {
        if self.position < self.tokens.len() {
            Some(self.tokens[self.position].duplicate())
        } else {
            None
        }
    }

    /// A copy of the token handed out last, if any.
    pub fn previous(&self) -> (r: Option<TokenInfo>)
        requires
            self.wf(),
        ensures
            self.position() > 0 ==> r == Some(self.items()[self.position() - 1]),
            self.position() == 0 ==> r is None,
    {
        if self.position > 0 {
            Some(self.tokens[self.position - 1].duplicate())
        } else {
            None
        }
    }

    /// A copy of the next token, moving past it.
    pub fn next_token(&mut self) -> (r: Option<TokenInfo>)
        ensures
            final(self).items() == old(self).items(),
            old(self).wf() ==> final(self).wf(),
            old(self).position() < old(self).items().len() ==> {
                &&& r == Some(old(self).items()[old(self).position() as int])
                &&& final(self).position() == old(self).position() + 1
            },
            old(self).position() >= old(self).items().len() ==> {
                &&& r is None
                &&& final(self).position() == old(self).position()
            },
    {
        if self.position < self.tokens.len() {
            let info = self.tokens[self.position].duplicate();
            self.position = self.position + 1;
            Some(info)
        } else {
            None
        }
    }
}

/// A cursor whose sequence ends with the end-of-file sentinel and which has
/// not yet handed out any end-of-file token still has a token to hand out, so
/// `peek` and `next_token` return `Some` until the sentinel has been taken.
pub proof fn lemma_sentinel_before_exhaustion(cursor: Tokens)
    requires
        cursor.position() <= cursor.items().len(),
        cursor.items().len() > 0,
        cursor.items().last().token == Token::EndOfFile,
        forall|i: int| 0 <= i < cursor.position() ==> cursor.items()[i].token != Token::EndOfFile,
    ensures
        cursor.position() < cursor.items().len(),
{
    if cursor.position() == cursor.items().len() {
        let last = cursor.items().len() - 1;
        assert(cursor.items()[last].token != Token::EndOfFile);
    }
}

} // verus!
