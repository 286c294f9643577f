//! Comma-separated lists of expressions and of map entries.
use super::{reads, seen, Parser};
use crate::ast::{
    entries_view, exprs_view, lemma_entries_view_empty, lemma_entries_view_push,
    lemma_exprs_view_empty, lemma_exprs_view_push, Expr,
};
use crate::grammar;
use crate::grammar::{lemma_shift_twice, remaining, shift};
use crate::token::TokenKind;
use vstd::prelude::*;

verus! {

impl Parser {
    /// Reads one or more expressions separated by commas.
    pub(super) fn expression_list(&mut self) -> (r: Result<Vec<Expr>, String>)
        ensures
            final(self).token_views() == old(self).token_views(),
            reads(
                seen(r, |v: Vec<Expr>| exprs_view(v@)),
                grammar::expression_list(
                    old(self).token_views(),
                    old(self).position(),
                    Seq::empty(),
                ),
                final(self).position() - old(self).position(),
            ),
            r is Ok ==> final(self).position() > old(self).position(),
        decreases remaining(old(self).token_views(), old(self).position()), 19nat,
    {
        let mut items: Vec<Expr> = Vec::new();
        let ghost tokens = self.token_views();
        let ghost start = self.position();
        proof {
            lemma_exprs_view_empty();
        }
        loop
            invariant
                tokens == old(self).token_views(),
                start == old(self).position(),
                self.token_views() == tokens,
                self.position() >= start,
                shift(
                    grammar::expression_list(tokens, self.position(), exprs_view(items@)),
                    (self.position() - start) as nat,
                ) == grammar::expression_list(tokens, start, Seq::empty()),
            decreases remaining(tokens, self.position()),
        {
            proof {
                reveal_with_fuel(grammar::expression_list, 1);
                reveal_with_fuel(grammar::expression, 1);
            }
            let ghost before = self.position();
            let ghost rest = grammar::expression_list(tokens, self.position(), exprs_view(items@));
            let item = match self.expression() {
                Ok(item) => item,
                Err(message) => {
                    return Err(message);
                },
            };
            proof {
                lemma_exprs_view_push(items@, item);
            }
            items.push(item);
            if self.kind() == TokenKind::Comma {
                self.advance(1);
            } else {
                return Ok(items);
            }
            proof {
                let now = grammar::expression_list(tokens, self.position(), exprs_view(items@));
                let moved = (self.position() - before) as nat;
                assert(rest == shift(now, moved));
                lemma_shift_twice(now, moved, (before - start) as nat);
            }
        }
    }

    /// Reads the value of a map entry: a colon and an expression.
    pub(super) fn map_value(&mut self) -> (r: Result<Expr, String>)
        ensures
            final(self).token_views() == old(self).token_views(),
            reads(
                seen(r, |v: Expr| v@),
                grammar::map_value(old(self).token_views(), old(self).position()),
                final(self).position() - old(self).position(),
            ),
        decreases remaining(old(self).token_views(), old(self).position()), 19nat,
    {
        proof {
            reveal_with_fuel(grammar::map_value, 1);
            reveal_with_fuel(grammar::expression, 1);
        }
        if self.kind() != TokenKind::Colon {
            return Err("Expected ':' after map key".to_owned());
        }
        self.advance(1);
        self.expression()
    }

    /// Reads one entry of a map literal.
    pub(super) fn map_entry(&mut self) -> (r: Result<(Expr, Expr), String>)
        ensures
            final(self).token_views() == old(self).token_views(),
            reads(
                seen(r, |v: (Expr, Expr)| (v.0@, v.1@)),
                grammar::map_entry(old(self).token_views(), old(self).position()),
                final(self).position() - old(self).position(),
            ),
        decreases remaining(old(self).token_views(), old(self).position()), 20nat,
    {
        proof {
            reveal_with_fuel(grammar::map_entry, 1);
            reveal_with_fuel(grammar::expression, 1);
            reveal_with_fuel(grammar::map_value, 1);
        }
        let key = match self.expression() {
            Ok(key) => key,
            Err(message) => {
                return Err(message);
            },
        };
        match self.map_value() {
            Ok(value) => Ok((key, value)),
            Err(message) => Err(message),
        }
    }

    /// Reads the entries of a map literal, separated by commas.
    pub(super) fn map_entries(&mut self) -> (r: Result<Vec<(Expr, Expr)>, String>)
        ensures
            final(self).token_views() == old(self).token_views(),
            reads(
                seen(r, |v: Vec<(Expr, Expr)>| entries_view(v@)),
                grammar::map_entries(old(self).token_views(), old(self).position(), Seq::empty()),
                final(self).position() - old(self).position(),
            ),
        decreases remaining(old(self).token_views(), old(self).position()), 21nat,
    {
        let mut entries: Vec<(Expr, Expr)> = Vec::new();
        let ghost tokens = self.token_views();
        let ghost start = self.position();
        proof {
            lemma_entries_view_empty();
        }
        loop
            invariant
                tokens == old(self).token_views(),
                start == old(self).position(),
                self.token_views() == tokens,
                self.position() >= start,
                shift(
                    grammar::map_entries(tokens, self.position(), entries_view(entries@)),
                    (self.position() - start) as nat,
                ) == grammar::map_entries(tokens, start, Seq::empty()),
            decreases remaining(tokens, self.position()),
        {
            proof {
                reveal_with_fuel(grammar::map_entries, 1);
                reveal_with_fuel(grammar::map_entry, 1);
            }
            let ghost before = self.position();
            let ghost rest = grammar::map_entries(tokens, self.position(), entries_view(entries@));
            let entry = match self.map_entry() {
                Ok(entry) => entry,
                Err(message) => {
                    return Err(message);
                },
            };
            proof {
                lemma_entries_view_push(entries@, entry);
            }
            entries.push(entry);
            if self.kind() == TokenKind::Comma {
                self.advance(1);
            } else {
                return Ok(entries);
            }
            proof {
                let now = grammar::map_entries(tokens, self.position(), entries_view(entries@));
                let moved = (self.position() - before) as nat;
                assert(rest == shift(now, moved));
                lemma_shift_twice(now, moved, (before - start) as nat);
            }
        }
    }
}

} // verus!
