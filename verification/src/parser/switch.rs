//! The switch construct.
use super::{reads, seen, Parser};
use crate::ast::{
    cases_view, exprs_view, lemma_cases_view_empty, lemma_cases_view_push, lemma_stmt_view,
    lemma_stmts_view_empty, lemma_stmts_view_push, option_stmts_view, stmts_view, Expr, Stmt,
    StmtView,
};
use crate::grammar;
use crate::grammar::{lemma_shift_twice, remaining, shift};
use crate::token::TokenKind;
use vstd::prelude::*;

verus! {

impl Parser {
    /// Reads the body of a case or of the default.
    pub(super) fn case_body(&mut self, after: &str) -> (r: Result<Vec<Stmt>, String>)
        ensures
            final(self).token_views() == old(self).token_views(),
            reads(
                seen(r, |v: Vec<Stmt>| stmts_view(v@)),
                grammar::case_body(old(self).token_views(), old(self).position(), after@),
                final(self).position() - old(self).position(),
            ),
        decreases remaining(old(self).token_views(), old(self).position()), 32nat,
    {
        proof {
            reveal_with_fuel(grammar::case_body, 1);
            reveal_with_fuel(grammar::braced, 1);
            reveal_with_fuel(grammar::declaration, 1);
        }
        if self.kind() == TokenKind::LeftBrace {
            self.braced(after, after)
        } else {
            match self.declaration() {
                Ok(statement) => {
                    let mut body: Vec<Stmt> = Vec::new();
                    proof {
                        lemma_stmts_view_empty();
                        lemma_stmts_view_push(body@, statement);
                        assert(Seq::<StmtView>::empty().push(statement@) =~= seq![statement@]);
                    }
                    body.push(statement);
                    Ok(body)
                },
                Err(message) => Err(message),
            }
        }
    }

    /// Reads the default clause after its keyword.
    pub(super) fn default_clause(&mut self) -> (r: Result<Vec<Stmt>, String>)
        ensures
            final(self).token_views() == old(self).token_views(),
            reads(
                seen(r, |v: Vec<Stmt>| stmts_view(v@)),
                grammar::default_clause(old(self).token_views(), old(self).position()),
                final(self).position() - old(self).position(),
            ),
        decreases remaining(old(self).token_views(), old(self).position()), 33nat,
    {
        proof {
            reveal_with_fuel(grammar::default_clause, 1);
            reveal_with_fuel(grammar::case_body, 1);
        }
        if self.kind() != TokenKind::Arrow {
            return Err("Expected '->' after 'otherwise'".to_owned());
        }
        self.advance(1);
        self.case_body("Expected '}' after default case block")
    }

    /// Reads what follows the values of a case.
    pub(super) fn case_tail(&mut self) -> (r: Result<Vec<Stmt>, String>)
        ensures
            final(self).token_views() == old(self).token_views(),
            reads(
                seen(r, |v: Vec<Stmt>| stmts_view(v@)),
                grammar::case_tail(old(self).token_views(), old(self).position()),
                final(self).position() - old(self).position(),
            ),
        decreases remaining(old(self).token_views(), old(self).position()), 33nat,
    {
        proof {
            reveal_with_fuel(grammar::case_tail, 1);
            reveal_with_fuel(grammar::case_body, 1);
        }
        if self.kind() != TokenKind::Arrow {
            return Err("Expected '->' after case value".to_owned());
        }
        self.advance(1);
        self.case_body("Expected '}' after case block")
    }

    /// Reads one case: its values and its body.
    pub(super) fn case_clause(&mut self) -> (r: Result<(Vec<Expr>, Vec<Stmt>), String>)
        ensures
            final(self).token_views() == old(self).token_views(),
            reads(
                seen(r, |v: (Vec<Expr>, Vec<Stmt>)| (exprs_view(v.0@), stmts_view(v.1@))),
                grammar::case_clause(old(self).token_views(), old(self).position()),
                final(self).position() - old(self).position(),
            ),
            r is Ok ==> final(self).position() > old(self).position(),
        decreases remaining(old(self).token_views(), old(self).position()), 34nat,
    {
        proof {
            reveal_with_fuel(grammar::case_clause, 1);
            reveal_with_fuel(grammar::case_tail, 1);
        }
        let values = match self.expression_list() {
            Ok(values) => values,
            Err(message) => {
                return Err(message);
            },
        };
        match self.case_tail() {
            Ok(body) => Ok((values, body)),
            Err(message) => Err(message),
        }
    }

    /// Reads the clauses of a switch up to its closing brace.
    pub(super) fn of_clauses(
        &mut self,
    ) -> (r: Result<(Vec<(Vec<Expr>, Vec<Stmt>)>, Option<Vec<Stmt>>), String>)
        ensures
            final(self).token_views() == old(self).token_views(),
            reads(
                seen(
                    r,
                    |v: (Vec<(Vec<Expr>, Vec<Stmt>)>, Option<Vec<Stmt>>)| (
                        cases_view(v.0@),
                        option_stmts_view(v.1),
                    ),
                ),
                grammar::of_clauses(
                    old(self).token_views(),
                    old(self).position(),
                    Seq::empty(),
                    None,
                ),
                final(self).position() - old(self).position(),
            ),
        decreases remaining(old(self).token_views(), old(self).position()), 35nat,
    {
        let mut cases: Vec<(Vec<Expr>, Vec<Stmt>)> = Vec::new();
        let mut default: Option<Vec<Stmt>> = None;
        let ghost tokens = self.token_views();
        let ghost start = self.position();
        proof {
            lemma_cases_view_empty();
        }
        loop
            invariant
                tokens == old(self).token_views(),
                start == old(self).position(),
                self.token_views() == tokens,
                self.position() >= start,
                shift(
                    grammar::of_clauses(
                        tokens,
                        self.position(),
                        cases_view(cases@),
                        option_stmts_view(default),
                    ),
                    (self.position() - start) as nat,
                ) == grammar::of_clauses(tokens, start, Seq::empty(), None),
            decreases remaining(tokens, self.position()),
        {
            proof {
                reveal_with_fuel(grammar::of_clauses, 1);
                reveal_with_fuel(grammar::default_clause, 1);
                reveal_with_fuel(grammar::case_clause, 1);
            }
            let ghost before = self.position();
            let ghost rest = grammar::of_clauses(
                tokens,
                self.position(),
                cases_view(cases@),
                option_stmts_view(default),
            );
            let kind = self.kind();
            if kind == TokenKind::RightBrace || kind == TokenKind::EOF {
                return Ok((cases, default));
            }
            if kind == TokenKind::Otherwise {
                self.advance(1);
                let body = match self.default_clause() {
                    Ok(body) => body,
                    Err(message) => {
                        return Err(message);
                    },
                };
                default = Some(body);
            } else {
                let clause = match self.case_clause() {
                    Ok(clause) => clause,
                    Err(message) => {
                        return Err(message);
                    },
                };
                proof {
                    lemma_cases_view_push(cases@, clause);
                }
                cases.push(clause);
            }
            proof {
                let now = grammar::of_clauses(
                    tokens,
                    self.position(),
                    cases_view(cases@),
                    option_stmts_view(default),
                );
                let moved = (self.position() - before) as nat;
                assert(rest == shift(now, moved));
                lemma_shift_twice(now, moved, (before - start) as nat);
            }
        }
    }

    /// Reads a switch after its keyword.
    pub(super) fn of_statement(&mut self) -> (r: Result<Stmt, String>)
        ensures
            final(self).token_views() == old(self).token_views(),
            reads(
                seen(r, |v: Stmt| v@),
                grammar::of_statement(old(self).token_views(), old(self).position()),
                final(self).position() - old(self).position(),
            ),
        decreases remaining(old(self).token_views(), old(self).position()), 32nat,
    {
        proof {
            reveal_with_fuel(grammar::of_statement, 1);
            reveal_with_fuel(grammar::of_clauses, 1);
        }
        let value = match self.expression() {
            Ok(value) => value,
            Err(message) => {
                return Err(message);
            },
        };
        if self.kind() != TokenKind::LeftBrace {
            return Err("Expected '{' after switch value".to_owned());
        }
        self.advance(1);
        let (cases, default) = match self.of_clauses() {
            Ok(clauses) => clauses,
            Err(message) => {
                return Err(message);
            },
        };
        if self.kind() == TokenKind::RightBrace {
            self.advance(1);
            let node = Stmt::Of { value, cases, default };
            proof {
                lemma_stmt_view(node);
            }
            Ok(node)
        } else {
            Err("Expected '}' after switch statement".to_owned())
        }
    }
}

} // verus!
