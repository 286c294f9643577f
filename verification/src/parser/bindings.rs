//! Bindings, reassignment, printing and early return.
use super::{reads, seen, Parser};
use crate::ast::{lemma_stmt_view, Stmt};
use crate::grammar;
use crate::grammar::remaining;
use crate::token::TokenKind;
use vstd::prelude::*;

verus! {

impl Parser {
    /// Reads a binding: a name, a type tag, `is` and the initializer.
    pub(super) fn variable_declaration(&mut self, mutable: bool) -> (r: Result<Stmt, String>)
        ensures
            final(self).token_views() == old(self).token_views(),
            reads(
                seen(r, |v: Stmt| v@),
                grammar::variable_declaration(
                    old(self).token_views(),
                    old(self).position(),
                    mutable,
                ),
                final(self).position() - old(self).position(),
            ),
            r is Ok ==> final(self).position() > old(self).position(),
        decreases remaining(old(self).token_views(), old(self).position()), 28nat,
    {
        proof {
            reveal(grammar::variable_declaration);
        }
        if self.kind() != TokenKind::Identifier {
            return Err("Expected variable name".to_owned());
        }
        let name = self.text();
        self.advance(1);
        let type_label = match self.type_tag(
            "Expected type name after '#'",
            "Expected type annotation for variable",
        ) {
            Ok(tag) => tag,
            Err(message) => {
                return Err(message);
            },
        };
        if self.kind() != TokenKind::Is {
            return Err("Expected 'is' after type annotation".to_owned());
        }
        self.advance(1);
        match self.expression() {
            Ok(initializer) => {
                let node = Stmt::Value { name, type_label, initializer, mutable };
                proof {
                    lemma_stmt_view(node);
                }
                Ok(node)
            },
            Err(message) => Err(message),
        }
    }

    /// Reads a print statement after its keyword.
    pub(super) fn write_statement(&mut self) -> (r: Result<Stmt, String>)
        ensures
            final(self).token_views() == old(self).token_views(),
            reads(
                seen(r, |v: Stmt| v@),
                grammar::write_statement(old(self).token_views(), old(self).position()),
                final(self).position() - old(self).position(),
            ),
        decreases remaining(old(self).token_views(), old(self).position()), 28nat,
    {
        proof {
            reveal(grammar::write_statement);
        }
        if self.kind() != TokenKind::LeftParen {
            return Err("Expected '(' after 'write'".to_owned());
        }
        self.advance(1);
        let value = match self.expression() {
            Ok(value) => value,
            Err(message) => {
                return Err(message);
            },
        };
        if self.kind() == TokenKind::RightParen {
            self.advance(1);
            let node = Stmt::Write(value);
            proof {
                lemma_stmt_view(node);
            }
            Ok(node)
        } else {
            Err("Expected ')' after write expression".to_owned())
        }
    }

    /// Reads a reassignment after its keyword.
    pub(super) fn change_statement(&mut self) -> (r: Result<Stmt, String>)
        ensures
            final(self).token_views() == old(self).token_views(),
            reads(
                seen(r, |v: Stmt| v@),
                grammar::change_statement(old(self).token_views(), old(self).position()),
                final(self).position() - old(self).position(),
            ),
        decreases remaining(old(self).token_views(), old(self).position()), 32nat,
    {
        proof {
            reveal(grammar::change_statement);
        }
        if self.kind() != TokenKind::Identifier {
            return Err("Expected variable name after 'change'".to_owned());
        }
        if self.kind_ahead(1) != TokenKind::To {
            return Err("Expected 'to' after variable name in change statement".to_owned());
        }
        let name = self.text();
        self.advance(2);
        match self.expression() {
            Ok(value) => {
                let node = Stmt::Change { name, value };
                proof {
                    lemma_stmt_view(node);
                }
                Ok(node)
            },
            Err(message) => Err(message),
        }
    }

    /// Reads an early return after its keyword.
    pub(super) fn produce_statement(&mut self) -> (r: Result<Stmt, String>)
        ensures
            final(self).token_views() == old(self).token_views(),
            reads(
                seen(r, |v: Stmt| v@),
                grammar::produce_statement(old(self).token_views(), old(self).position()),
                final(self).position() - old(self).position(),
            ),
        decreases remaining(old(self).token_views(), old(self).position()), 32nat,
    {
        proof {
            reveal(grammar::produce_statement);
        }
        if self.kind() == TokenKind::RightBrace {
            let node = Stmt::Produce(None);
            proof {
                lemma_stmt_view(node);
            }
            Ok(node)
        } else {
            match self.expression() {
                Ok(value) => {
                    let node = Stmt::Produce(Some(value));
                    proof {
                        lemma_stmt_view(node);
                    }
                    Ok(node)
                },
                Err(message) => Err(message),
            }
        }
    }
}

} // verus!
