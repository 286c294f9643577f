//! The conditional construct.
use super::{reads, seen, Parser};
use crate::ast::{
    lemma_stmt_view, lemma_stmts_view_empty, lemma_stmts_view_push, option_stmts_view, stmts_view,
    Stmt, StmtView,
};
use crate::grammar;
use crate::grammar::remaining;
use crate::token::TokenKind;
use vstd::prelude::*;

verus! {

impl Parser {
    /// Reads what follows the then-block of an `if`.
    pub(super) fn else_branch(&mut self) -> (r: Result<Option<Vec<Stmt>>, String>)
        ensures
            final(self).token_views() == old(self).token_views(),
            reads(
                seen(r, |v: Option<Vec<Stmt>>| option_stmts_view(v)),
                grammar::else_branch(old(self).token_views(), old(self).position()),
                final(self).position() - old(self).position(),
            ),
        decreases remaining(old(self).token_views(), old(self).position()), 31nat,
    {
        proof {
            reveal_with_fuel(grammar::else_branch, 1);
            reveal_with_fuel(grammar::if_statement, 1);
            reveal_with_fuel(grammar::braced, 1);
        }
        if self.kind() != TokenKind::Else {
            return Ok(None);
        }
        if self.kind_ahead(1) == TokenKind::If {
            self.advance(2);
            match self.if_statement() {
                Ok(nested) => {
                    let mut branch: Vec<Stmt> = Vec::new();
                    proof {
                        lemma_stmts_view_empty();
                        lemma_stmts_view_push(branch@, nested);
                        assert(Seq::<StmtView>::empty().push(nested@) =~= seq![nested@]);
                    }
                    branch.push(nested);
                    Ok(Some(branch))
                },
                Err(message) => Err(message),
            }
        } else {
            self.advance(1);
            match self.braced("Expected '{' after else", "Expected '}' after else block") {
                Ok(body) => Ok(Some(body)),
                Err(message) => Err(message),
            }
        }
    }

    /// Reads the branches of an `if` after its condition.
    pub(super) fn if_branches(&mut self) -> (r: Result<(Vec<Stmt>, Option<Vec<Stmt>>), String>)
        ensures
            final(self).token_views() == old(self).token_views(),
            reads(
                seen(
                    r,
                    |v: (Vec<Stmt>, Option<Vec<Stmt>>)| (stmts_view(v.0@), option_stmts_view(v.1)),
                ),
                grammar::if_branches(old(self).token_views(), old(self).position()),
                final(self).position() - old(self).position(),
            ),
        decreases remaining(old(self).token_views(), old(self).position()), 32nat,
    {
        proof {
            reveal_with_fuel(grammar::if_branches, 1);
            reveal_with_fuel(grammar::braced, 1);
            reveal_with_fuel(grammar::else_branch, 1);
        }
        let then_branch = match self.braced(
            "Expected '{' after if condition",
            "Expected '}' after if block",
        ) {
            Ok(body) => body,
            Err(message) => {
                return Err(message);
            },
        };
        match self.else_branch() {
            Ok(else_branch) => Ok((then_branch, else_branch)),
            Err(message) => Err(message),
        }
    }

    /// Reads an `if` after its keyword.
    pub(super) fn if_statement(&mut self) -> (r: Result<Stmt, String>)
        ensures
            final(self).token_views() == old(self).token_views(),
            reads(
                seen(r, |v: Stmt| v@),
                grammar::if_statement(old(self).token_views(), old(self).position()),
                final(self).position() - old(self).position(),
            ),
        decreases remaining(old(self).token_views(), old(self).position()), 33nat,
    {
        proof {
            reveal_with_fuel(grammar::if_statement, 1);
            reveal_with_fuel(grammar::if_branches, 1);
        }
        let condition = match self.expression() {
            Ok(condition) => condition,
            Err(message) => {
                return Err(message);
            },
        };
        match self.if_branches() {
            Ok((then_branch, else_branch)) => {
                let node = Stmt::If { condition, then_branch, else_branch };
                proof {
                    lemma_stmt_view(node);
                }
                Ok(node)
            },
            Err(message) => Err(message),
        }
    }
}

} // verus!
