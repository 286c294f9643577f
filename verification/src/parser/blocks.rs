//! Declarations and blocks of them.
use super::{reads, seen, Parser};
use crate::ast::{lemma_stmt_view, lemma_stmts_view_empty, lemma_stmts_view_push, stmts_view, Stmt};
use crate::grammar;
use crate::grammar::{kind_at, lemma_shift_twice, remaining, shift};
use crate::token::TokenKind;
use vstd::prelude::*;

verus! {

impl Parser {
    /// Reads statements up to a closing brace or the end of the input.
    pub(super) fn block(&mut self) -> (r: Result<Vec<Stmt>, String>)
        ensures
            final(self).token_views() == old(self).token_views(),
            reads(
                seen(r, |v: Vec<Stmt>| stmts_view(v@)),
                grammar::block(old(self).token_views(), old(self).position(), Seq::empty()),
                final(self).position() - old(self).position(),
            ),
        decreases remaining(old(self).token_views(), old(self).position()), 30nat,
    {
        let mut statements: Vec<Stmt> = Vec::new();
        let ghost tokens = self.token_views();
        let ghost start = self.position();
        proof {
            lemma_stmts_view_empty();
        }
        loop
            invariant
                tokens == old(self).token_views(),
                start == old(self).position(),
                self.token_views() == tokens,
                self.position() >= start,
                shift(
                    grammar::block(tokens, self.position(), stmts_view(statements@)),
                    (self.position() - start) as nat,
                ) == grammar::block(tokens, start, Seq::empty()),
            decreases remaining(tokens, self.position()),
        {
            proof {
                reveal_with_fuel(grammar::block, 1);
                reveal_with_fuel(grammar::declaration, 1);
            }
            let ghost before = self.position();
            let ghost rest = grammar::block(tokens, self.position(), stmts_view(statements@));
            let kind = self.kind();
            if kind == TokenKind::RightBrace || kind == TokenKind::EOF {
                return Ok(statements);
            }
            let statement = match self.declaration() {
                Ok(statement) => statement,
                Err(message) => {
                    return Err(message);
                },
            };
            proof {
                lemma_stmts_view_push(statements@, statement);
            }
            statements.push(statement);
            proof {
                let now = grammar::block(tokens, self.position(), stmts_view(statements@));
                let moved = (self.position() - before) as nat;
                assert(rest == shift(now, moved));
                lemma_shift_twice(now, moved, (before - start) as nat);
            }
        }
    }

    /// Reads a braced list of statements.
    pub(super) fn braced(&mut self, before: &str, after: &str) -> (r: Result<Vec<Stmt>, String>)
        ensures
            final(self).token_views() == old(self).token_views(),
            reads(
                seen(r, |v: Vec<Stmt>| stmts_view(v@)),
                grammar::braced(old(self).token_views(), old(self).position(), before@, after@),
                final(self).position() - old(self).position(),
            ),
            r is Ok ==> final(self).position() > old(self).position(),
        decreases remaining(old(self).token_views(), old(self).position()), 31nat,
    {
        proof {
            reveal_with_fuel(grammar::braced, 1);
            reveal_with_fuel(grammar::block, 1);
        }
        if self.kind() != TokenKind::LeftBrace {
            return Err(before.to_owned());
        }
        self.advance(1);
        let body = match self.block() {
            Ok(body) => body,
            Err(message) => {
                return Err(message);
            },
        };
        if self.kind() == TokenKind::RightBrace {
            self.advance(1);
            Ok(body)
        } else {
            Err(after.to_owned())
        }
    }

    /// Whether the token `offset` places ahead starts a type tag.
    pub(super) fn starts_type(&self, offset: usize) -> (r: bool)
        ensures
            r == (kind_at(self.token_views(), self.position() + offset as nat)
                == TokenKind::TypePrefix || grammar::is_simple_type(
                kind_at(self.token_views(), self.position() + offset as nat),
            )),
    {
        let kind = self.kind_ahead(offset);
        kind == TokenKind::TypePrefix || kind == TokenKind::NumberType || kind
            == TokenKind::TextType || kind == TokenKind::DecisionType || kind
            == TokenKind::NothingType || kind == TokenKind::BlissType || kind == TokenKind::AnyType
    }

    /// Reads a declaration.
    pub(super) fn declaration(&mut self) -> (r: Result<Stmt, String>)
        ensures
            final(self).token_views() == old(self).token_views(),
            reads(
                seen(r, |v: Stmt| v@),
                grammar::declaration(old(self).token_views(), old(self).position()),
                final(self).position() - old(self).position(),
            ),
            r is Ok ==> final(self).position() > old(self).position(),
        decreases remaining(old(self).token_views(), old(self).position()), 29nat,
    {
        proof {
            reveal_with_fuel(grammar::declaration, 1);
            reveal_with_fuel(grammar::module_declaration, 1);
            reveal_with_fuel(grammar::function_declaration, 1);
            reveal_with_fuel(grammar::statement, 1);
        }
        let kind = self.kind();
        if kind == TokenKind::Module {
            self.advance(1);
            self.module_declaration()
        } else if kind == TokenKind::By {
            self.advance(1);
            self.function_declaration()
        } else if kind == TokenKind::See {
            self.advance(1);
            self.type_definition()
        } else if kind == TokenKind::Import {
            self.advance(1);
            self.import_declaration()
        } else if kind == TokenKind::ForNow {
            self.advance(1);
            self.variable_declaration(true)
        } else if kind == TokenKind::TypePrefix {
            self.advance(1);
            self.type_annotation()
        } else if kind == TokenKind::Write {
            self.advance(1);
            self.write_statement()
        } else if kind == TokenKind::Identifier && self.starts_type(1) {
            self.variable_declaration(false)
        } else {
            self.statement()
        }
    }

    /// Reads a binding that opens with the type prefix.
    pub(super) fn type_annotation(&mut self) -> (r: Result<Stmt, String>)
        ensures
            final(self).token_views() == old(self).token_views(),
            reads(
                seen(r, |v: Stmt| v@),
                grammar::variable_declaration(old(self).token_views(), old(self).position(), false),
                final(self).position() - old(self).position(),
            ),
        decreases remaining(old(self).token_views(), old(self).position()), 29nat,
    {
        self.variable_declaration(false)
    }

    /// Reads a module after its keyword.
    pub(super) fn module_declaration(&mut self) -> (r: Result<Stmt, String>)
        ensures
            final(self).token_views() == old(self).token_views(),
            reads(
                seen(r, |v: Stmt| v@),
                grammar::module_declaration(old(self).token_views(), old(self).position()),
                final(self).position() - old(self).position(),
            ),
        decreases remaining(old(self).token_views(), old(self).position()), 32nat,
    {
        proof {
            reveal_with_fuel(grammar::module_declaration, 1);
            reveal_with_fuel(grammar::braced, 1);
        }
        if self.kind() != TokenKind::Identifier {
            return Err("Expected module name".to_owned());
        }
        let name = self.text();
        self.advance(1);
        match self.braced("Expected '{' after module name", "Expected '}' after module body") {
            Ok(body) => {
                let node = Stmt::ModuleDeclaration { name, body };
                proof {
                    lemma_stmt_view(node);
                }
                Ok(node)
            },
            Err(message) => Err(message),
        }
    }
}

} // verus!
