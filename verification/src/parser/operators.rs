//! Prefix and binary operators, assignment.
use super::{reads, seen, Parser};
use crate::ast::{lemma_expr_view, Expr};
use crate::grammar;
use crate::grammar::{lemma_shift_twice, remaining, shift, Level};
use crate::token::{Token, TokenKind};
use vstd::prelude::*;

verus! {

/// Whether a token of tag `kind` is a binary operator of `level`.
fn is_operator_of(level: Level, kind: TokenKind) -> (r: bool)
    ensures
        r == level.has_operator(kind),
{
    match level {
        Level::Or => kind == TokenKind::Pipe,
        Level::And => kind == TokenKind::Ampersand,
        Level::Equality => kind == TokenKind::EqualEqual || kind == TokenKind::NotEqual || kind
            == TokenKind::Is,
        Level::Comparison => kind == TokenKind::Less || kind == TokenKind::LessEqual || kind
            == TokenKind::Greater || kind == TokenKind::GreaterEqual,
        Level::Term => kind == TokenKind::Plus || kind == TokenKind::Minus || kind
            == TokenKind::Ampersand,
        Level::Factor => kind == TokenKind::Star || kind == TokenKind::Slash || kind
            == TokenKind::IntegerDivide || kind == TokenKind::Modulo || kind == TokenKind::Power,
    }
}

impl Parser {
    /// Reads any number of prefix operators, then a call.
    pub(super) fn unary(&mut self) -> (r: Result<Expr, String>)
        ensures
            final(self).token_views() == old(self).token_views(),
            reads(
                seen(r, |v: Expr| v@),
                grammar::unary(old(self).token_views(), old(self).position()),
                final(self).position() - old(self).position(),
            ),
            r is Ok ==> final(self).position() > old(self).position(),
        decreases remaining(old(self).token_views(), old(self).position()), 3nat,
    {
        proof {
            reveal_with_fuel(grammar::unary, 1);
            reveal_with_fuel(grammar::call, 1);
        }
        let kind = self.kind();
        if kind == TokenKind::Minus || kind == TokenKind::ExclamationMark {
            let operator = self.token();
            self.advance(1);
            match self.unary() {
                Ok(right) => {
                    let node = Expr::Unary { operator, right: Box::new(right) };
                    proof {
                        lemma_expr_view(node);
                    }
                    Ok(node)
                },
                Err(message) => Err(message),
            }
        } else {
            self.call()
        }
    }

    /// Reads an operand of the binary operators of `level`.
    pub(super) fn operand(&mut self, level: Level) -> (r: Result<Expr, String>)
        ensures
            final(self).token_views() == old(self).token_views(),
            reads(
                seen(r, |v: Expr| v@),
                grammar::operand(old(self).token_views(), old(self).position(), level),
                final(self).position() - old(self).position(),
            ),
            r is Ok ==> final(self).position() > old(self).position(),
        decreases
            remaining(old(self).token_views(), old(self).position()),
            (level.rank() - 1) as nat,
    {
        proof {
            reveal_with_fuel(grammar::operand, 1);
            reveal_with_fuel(grammar::binary_level, 1);
            reveal_with_fuel(grammar::unary, 1);
        }
        match level {
            Level::Or => self.binary_level(Level::And),
            Level::And => self.binary_level(Level::Equality),
            Level::Equality => self.binary_level(Level::Comparison),
            Level::Comparison => self.binary_level(Level::Term),
            Level::Term => self.binary_level(Level::Factor),
            Level::Factor => self.unary(),
        }
    }

    /// Reads a chain of operands joined by the binary operators of `level`,
    /// folded to the left.
    pub(super) fn binary_level(&mut self, level: Level) -> (r: Result<Expr, String>)
        ensures
            final(self).token_views() == old(self).token_views(),
            reads(
                seen(r, |v: Expr| v@),
                grammar::binary_level(old(self).token_views(), old(self).position(), level),
                final(self).position() - old(self).position(),
            ),
            r is Ok ==> final(self).position() > old(self).position(),
        decreases remaining(old(self).token_views(), old(self).position()), level.rank(),
    {
        proof {
            reveal_with_fuel(grammar::binary_level, 1);
            reveal_with_fuel(grammar::binary_rest, 1);
            reveal_with_fuel(grammar::operand, 1);
        }
        let ghost tokens = self.token_views();
        let ghost start = self.position();
        let mut left = match self.operand(level) {
            Ok(left) => left,
            Err(message) => {
                return Err(message);
            },
        };
        loop
            invariant
                tokens == old(self).token_views(),
                start == old(self).position(),
                self.token_views() == tokens,
                self.position() >= start,
                self.position() > start,
                shift(
                    grammar::binary_rest(tokens, self.position(), level, left@),
                    (self.position() - start) as nat,
                ) == grammar::binary_level(tokens, start, level),
            decreases remaining(tokens, self.position()),
        {
            proof {
                reveal_with_fuel(grammar::binary_level, 1);
                reveal_with_fuel(grammar::binary_rest, 1);
                reveal_with_fuel(grammar::operand, 1);
            }
            let ghost before = self.position();
            let ghost rest = grammar::binary_rest(tokens, self.position(), level, left@);
            if !is_operator_of(level, self.kind()) {
                return Ok(left);
            }
            let operator = self.token();
            self.advance(1);
            let right = match self.operand(level) {
                Ok(right) => right,
                Err(message) => {
                    return Err(message);
                },
            };
            left = Expr::Binary { left: Box::new(left), operator, right: Box::new(right) };
            proof {
                lemma_expr_view(left);
                let now = grammar::binary_rest(tokens, self.position(), level, left@);
                let moved = (self.position() - before) as nat;
                assert(rest == shift(now, moved));
                lemma_shift_twice(now, moved, (before - start) as nat);
            }
        }
    }

    /// Reads an assignment or an expression of the loosest binary level.
    pub(super) fn assignment(&mut self) -> (r: Result<Expr, String>)
        ensures
            final(self).token_views() == old(self).token_views(),
            reads(
                seen(r, |v: Expr| v@),
                grammar::assignment(old(self).token_views(), old(self).position()),
                final(self).position() - old(self).position(),
            ),
            r is Ok ==> final(self).position() > old(self).position(),
        decreases remaining(old(self).token_views(), old(self).position()), 17nat,
    {
        proof {
            reveal_with_fuel(grammar::assignment, 1);
            reveal_with_fuel(grammar::binary_level, 1);
        }
        let target = match self.binary_level(Level::Or) {
            Ok(target) => target,
            Err(message) => {
                return Err(message);
            },
        };
        if self.kind() != TokenKind::Is {
            return Ok(target);
        }
        proof {
            lemma_expr_view(target);
        }
        match target {
            Expr::Variable(name) => {
                self.advance(1);
                match self.assignment() {
                    Ok(value) => {
                        let target = Expr::Variable(name);
                        let operator = Token::of_kind(TokenKind::Is, String::new());
                        proof {
                            lemma_expr_view(target);
                        }
                        let node = Expr::Binary { left: Box::new(target), operator, right: Box::new(value) };
                        proof {
                            lemma_expr_view(node);
                        }
                        Ok(node)
                    },
                    Err(message) => Err(message),
                }
            },
            _ => Err("Invalid assignment target.".to_owned()),
        }
    }

    /// Reads an expression.
    pub(super) fn expression(&mut self) -> (r: Result<Expr, String>)
        ensures
            final(self).token_views() == old(self).token_views(),
            reads(
                seen(r, |v: Expr| v@),
                grammar::expression(old(self).token_views(), old(self).position()),
                final(self).position() - old(self).position(),
            ),
            r is Ok ==> final(self).position() > old(self).position(),
        decreases remaining(old(self).token_views(), old(self).position()), 18nat,
    {
        proof {
            reveal_with_fuel(grammar::expression, 1);
            reveal_with_fuel(grammar::assignment, 1);
        }
        self.assignment()
    }
}

} // verus!
