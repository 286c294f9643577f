use crate::ast::{lemma_stmts_view_empty, lemma_stmts_view_push, stmts_view, Expr, Stmt, StmtView};
use crate::grammar;
use crate::grammar::{kind_at, remaining, text_at, token_at, ArgumentView, Parse};
use crate::lexer::tokenize;
use crate::lexicon;
use crate::token::{lemma_token_views_index, token_views, Token, TokenKind, TokenView};
use vstd::prelude::*;

mod arguments;
mod bindings;
mod blocks;
mod calls;
mod conditional;
mod control;
mod functions;
mod imports;
mod lists;
mod operators;
mod primary;
mod switch;
mod types;

verus! {

/// A recursive-descent parser over a token sequence that ends in an
/// end-of-input token.
pub struct Parser {
    tokens: Vec<Token>,
    current: usize,
}

/// What a reader hands back, seen through views: the view of what it read, or
/// the message of what it missed.
pub open spec fn seen<T, V>(r: Result<T, String>, view: spec_fn(T) -> V) -> Result<V, Seq<char>> {
    match r {
        Ok(value) => Ok(view(value)),
        Err(message) => Err(message@),
    }
}

/// `r` is what the grammar expects of a reader that moved `used` tokens on:
/// the same value over as many tokens, or the same message.
pub open spec fn reads<V>(r: Result<V, Seq<char>>, expected: Parse<V>, used: int) -> bool {
    match (r, expected) {
        (Ok(value), Ok((view, span))) => value == view && used == span,
        (Err(message), Err(text)) => message == text,
        _ => false,
    }
}

/// One argument of a call.
pub enum Argument {
    Named(String, Expr),
    Positional(Expr),
}

impl View for Argument {
    type V = ArgumentView;

    open spec fn view(&self) -> ArgumentView {
        match self {
            Argument::Named(name, value) => ArgumentView::Named(name@, value@),
            Argument::Positional(value) => ArgumentView::Positional(value@),
        }
    }
}

impl Parser {
    #[verifier::type_invariant]
    spec fn well_formed(&self) -> bool {
        &&& self.tokens.len() > 0
        &&& self.tokens[self.tokens.len() - 1]@.kind == TokenKind::EOF
        &&& self.current < self.tokens.len()
    }

    /// The tokens this parser reads.
    pub closed spec fn token_views(&self) -> Seq<TokenView> {
        token_views(self.tokens@)
    }

    /// The index of the next token to read.
    pub closed spec fn position(&self) -> nat {
        self.current as nat
    }

    /// A parser at the start of the tokens of `input`.
    pub fn new(input: &str) -> (parser: Parser)
        ensures
            parser.token_views() == lexicon::tokens(input@),
            parser.position() == 0,
    {
        Parser { tokens: tokenize(input), current: 0 }
    }

    /// The tag of the token `offset` places ahead.
    fn kind_ahead(&self, offset: usize) -> (kind: TokenKind)
        ensures
            kind == kind_at(self.token_views(), self.position() + offset as nat),
    {
        proof {
            use_type_invariant(self);
            lemma_token_views_index(self.tokens@);
        }
        if offset < self.tokens.len() - self.current {
            self.tokens[self.current + offset].kind()
        } else {
            TokenKind::EOF
        }
    }

    /// The tag of the next token.
    fn kind(&self) -> (kind: TokenKind)
        ensures
            kind == kind_at(self.token_views(), self.position()),
    {
        self.kind_ahead(0)
    }

    /// The text of the token `offset` places ahead.
    fn text_ahead(&self, offset: usize) -> (text: String)
        ensures
            text@ == text_at(self.token_views(), self.position() + offset as nat),
    {
        proof {
            use_type_invariant(self);
            lemma_token_views_index(self.tokens@);
        }
        if offset < self.tokens.len() - self.current {
            self.tokens[self.current + offset].text().to_owned()
        } else {
            String::new()
        }
    }

    /// The text of the next token.
    fn text(&self) -> (text: String)
        ensures
            text@ == text_at(self.token_views(), self.position()),
    {
        self.text_ahead(0)
    }

    /// A copy of the next token.
    fn token(&self) -> (token: Token)
        ensures
            token@ == token_at(self.token_views(), self.position()),
    {
        proof {
            use_type_invariant(self);
            lemma_token_views_index(self.tokens@);
        }
        self.tokens[self.current].clone()
    }

    /// Moves `count` tokens on. The last token passed is not the end of the
    /// input.
    fn advance(&mut self, count: usize)
        requires
            count > 0 ==> kind_at(
                old(self).token_views(),
                (old(self).position() + count - 1) as nat,
            ) != TokenKind::EOF,
        ensures
            final(self).token_views() == old(self).token_views(),
            final(self).position() == old(self).position() + count,
            final(self).position() < final(self).token_views().len(),
    {
        proof {
            use_type_invariant(&*self);
            lemma_token_views_index(self.tokens@);
        }
        if count > 0 {
            assert(self.current + count - 1 < self.tokens.len());
            assert(self.tokens[self.current + count - 1]@.kind != TokenKind::EOF);
            self.current = self.current + count;
        }
    }

    /// Reads a type tag.
    fn type_tag(&mut self, after_prefix: &str, missing: &str) -> (r: Result<String, String>)
        ensures
            final(self).token_views() == old(self).token_views(),
            reads(
                seen(r, |v: String| v@),
                grammar::type_tag(
                    old(self).token_views(),
                    old(self).position(),
                    after_prefix@,
                    missing@,
                ),
                final(self).position() - old(self).position(),
            ),
    {
        proof {
            reveal(grammar::type_tag);
        }
        let kind = self.kind();
        if kind == TokenKind::TypePrefix {
            if self.kind_ahead(1) == TokenKind::Identifier {
                let tag = self.text_ahead(1);
                self.advance(2);
                Ok(tag)
            } else {
                Err(after_prefix.to_owned())
            }
        } else if kind == TokenKind::NumberType || kind == TokenKind::TextType || kind
            == TokenKind::DecisionType || kind == TokenKind::NothingType || kind
            == TokenKind::BlissType || kind == TokenKind::AnyType {
            self.advance(1);
            Ok(kind.name().to_owned())
        } else {
            Err(missing.to_owned())
        }
    }

    /// Parses the tokens from the current position to the end of the input as
    /// a program: a list of declarations. It yields the statements in order,
    /// or the message of the first construct that does not fit the grammar.
    /// After a program the parser stands at the end of the input.
    pub fn parse(&mut self) -> (r: Result<Vec<Stmt>, String>)
        ensures
            final(self).token_views() == old(self).token_views(),
            match r {
                Ok(statements) => grammar::program(
                    old(self).token_views(),
                    old(self).position(),
                    Seq::empty(),
                ) == Ok::<Seq<StmtView>, Seq<char>>(stmts_view(statements@)),
                Err(message) => grammar::program(
                    old(self).token_views(),
                    old(self).position(),
                    Seq::empty(),
                ) == Err::<Seq<StmtView>, Seq<char>>(message@),
            },
            r is Ok ==> kind_at(final(self).token_views(), final(self).position())
                == TokenKind::EOF,
    {
        let mut statements: Vec<Stmt> = Vec::new();
        let ghost tokens = self.token_views();
        let ghost start = self.position();
        proof {
            lemma_stmts_view_empty();
        }
        loop
            invariant
                tokens == old(self).token_views(),
                start == old(self).position(),
                self.token_views() == tokens,
                grammar::program(tokens, self.position(), stmts_view(statements@))
                    == grammar::program(tokens, start, Seq::empty()),
            decreases remaining(tokens, self.position()),
        {
            if self.kind() == TokenKind::EOF {
                return Ok(statements);
            }
            let statement = match self.declaration() {
                Ok(statement) => statement,
                Err(message) => {
                    return Err(message);
                },
            };
            proof {
                lemma_stmts_view_push(statements@, statement);
            }
            statements.push(statement);
        }
    }
}

} // verus!
