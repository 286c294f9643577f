//! Statements and the loop constructs.
use super::{reads, seen, Parser};
use crate::ast::{lemma_stmt_view, Stmt};
use crate::grammar;
use crate::grammar::remaining;
use crate::token::TokenKind;
use vstd::prelude::*;

verus! {

impl Parser {
    /// Reads a statement.
    pub(super) fn statement(&mut self) -> (r: Result<Stmt, String>)
        ensures
            final(self).token_views() == old(self).token_views(),
            reads(
                seen(r, |v: Stmt| v@),
                grammar::statement(old(self).token_views(), old(self).position()),
                final(self).position() - old(self).position(),
            ),
            r is Ok ==> final(self).position() > old(self).position(),
        decreases remaining(old(self).token_views(), old(self).position()), 28nat,
    {
        proof {
            reveal_with_fuel(grammar::statement, 1);
            reveal_with_fuel(grammar::if_statement, 1);
            reveal_with_fuel(grammar::unless_statement, 1);
            reveal_with_fuel(grammar::while_statement, 1);
            reveal_with_fuel(grammar::for_statement, 1);
            reveal_with_fuel(grammar::of_statement, 1);
        }
        let kind = self.kind();
        if kind == TokenKind::If {
            self.advance(1);
            self.if_statement()
        } else if kind == TokenKind::Unless {
            self.advance(1);
            self.unless_statement()
        } else if kind == TokenKind::While {
            self.advance(1);
            self.while_statement()
        } else if kind == TokenKind::For {
            self.advance(1);
            self.for_statement()
        } else if kind == TokenKind::Of {
            self.advance(1);
            self.of_statement()
        } else if kind == TokenKind::Change {
            self.advance(1);
            self.change_statement()
        } else if kind == TokenKind::Break {
            self.advance(1);
            let node = Stmt::Break;
            proof {
                lemma_stmt_view(node);
            }
            Ok(node)
        } else if kind == TokenKind::Continue {
            self.advance(1);
            let node = Stmt::Continue;
            proof {
                lemma_stmt_view(node);
            }
            Ok(node)
        } else if kind == TokenKind::Produce {
            self.advance(1);
            self.produce_statement()
        } else {
            match self.expression() {
                Ok(value) => {
                    let node = Stmt::Expression(value);
                    proof {
                        lemma_stmt_view(node);
                    }
                    Ok(node)
                },
                Err(message) => Err(message),
            }
        }
    }

    /// Reads an `unless` after its keyword.
    pub(super) fn unless_statement(&mut self) -> (r: Result<Stmt, String>)
        ensures
            final(self).token_views() == old(self).token_views(),
            reads(
                seen(r, |v: Stmt| v@),
                grammar::unless_statement(old(self).token_views(), old(self).position()),
                final(self).position() - old(self).position(),
            ),
        decreases remaining(old(self).token_views(), old(self).position()), 32nat,
    {
        proof {
            reveal_with_fuel(grammar::unless_statement, 1);
            reveal_with_fuel(grammar::braced, 1);
        }
        let condition = match self.expression() {
            Ok(condition) => condition,
            Err(message) => {
                return Err(message);
            },
        };
        match self.braced(
            "Expected '{' after unless condition",
            "Expected '}' after unless block",
        ) {
            Ok(body) => {
                let node = Stmt::Unless { condition, body };
                proof {
                    lemma_stmt_view(node);
                }
                Ok(node)
            },
            Err(message) => Err(message),
        }
    }

    /// Reads a `while` after its keyword.
    pub(super) fn while_statement(&mut self) -> (r: Result<Stmt, String>)
        ensures
            final(self).token_views() == old(self).token_views(),
            reads(
                seen(r, |v: Stmt| v@),
                grammar::while_statement(old(self).token_views(), old(self).position()),
                final(self).position() - old(self).position(),
            ),
        decreases remaining(old(self).token_views(), old(self).position()), 32nat,
    {
        proof {
            reveal_with_fuel(grammar::while_statement, 1);
            reveal_with_fuel(grammar::braced, 1);
        }
        let condition = match self.expression() {
            Ok(condition) => condition,
            Err(message) => {
                return Err(message);
            },
        };
        match self.braced("Expected '{' after while condition", "Expected '}' after while block") {
            Ok(body) => {
                let node = Stmt::While { condition, body };
                proof {
                    lemma_stmt_view(node);
                }
                Ok(node)
            },
            Err(message) => Err(message),
        }
    }

    /// Reads a `for` after its keyword.
    pub(super) fn for_statement(&mut self) -> (r: Result<Stmt, String>)
        ensures
            final(self).token_views() == old(self).token_views(),
            reads(
                seen(r, |v: Stmt| v@),
                grammar::for_statement(old(self).token_views(), old(self).position()),
                final(self).position() - old(self).position(),
            ),
        decreases remaining(old(self).token_views(), old(self).position()), 32nat,
    {
        proof {
            reveal_with_fuel(grammar::for_statement, 1);
            reveal_with_fuel(grammar::braced, 1);
        }
        if self.kind() != TokenKind::Identifier {
            return Err("Expected variable name after 'for'".to_owned());
        }
        if self.kind_ahead(1) != TokenKind::In {
            return Err("Expected 'in' after for loop variable".to_owned());
        }
        let variable = self.text();
        self.advance(2);
        let iterable = match self.expression() {
            Ok(iterable) => iterable,
            Err(message) => {
                return Err(message);
            },
        };
        match self.braced(
            "Expected '{' after for loop iterable",
            "Expected '}' after for loop body",
        ) {
            Ok(body) => {
                let node = Stmt::For { variable, iterable, body };
                proof {
                    lemma_stmt_view(node);
                }
                Ok(node)
            },
            Err(message) => Err(message),
        }
    }
}

} // verus!
