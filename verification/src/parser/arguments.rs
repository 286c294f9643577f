//! The arguments of a call.
use super::{reads, seen, Argument, Parser};
use crate::ast::{
    exprs_view, lemma_expr_view, lemma_exprs_view_empty, lemma_exprs_view_push,
    lemma_named_exprs_view_empty, lemma_named_exprs_view_push, named_exprs_view, Expr,
};
use crate::grammar;
use crate::grammar::{lemma_shift_twice, remaining, shift};
use crate::token::TokenKind;
use vstd::prelude::*;

verus! {

impl Parser {
    /// Reads one argument of a call.
    pub(super) fn argument(&mut self) -> (r: Result<Argument, String>)
        ensures
            final(self).token_views() == old(self).token_views(),
            reads(
                seen(r, |v: Argument| v@),
                grammar::argument(old(self).token_views(), old(self).position()),
                final(self).position() - old(self).position(),
            ),
        decreases remaining(old(self).token_views(), old(self).position()), 19nat,
    {
        proof {
            reveal_with_fuel(grammar::argument, 1);
            reveal_with_fuel(grammar::expression, 1);
        }
        if self.kind_ahead(1) == TokenKind::Colon {
            if self.kind() != TokenKind::Identifier {
                return Err("Expected parameter name for named argument".to_owned());
            }
            let name = self.text();
            self.advance(2);
            match self.expression() {
                Ok(value) => Ok(Argument::Named(name, value)),
                Err(message) => Err(message),
            }
        } else {
            match self.expression() {
                Ok(value) => Ok(Argument::Positional(value)),
                Err(message) => Err(message),
            }
        }
    }

    /// Reads the arguments of a call, separated by commas.
    pub(super) fn call_arguments(&mut self) -> (r: Result<(Vec<Expr>, Vec<(String, Expr)>), String>)
        ensures
            final(self).token_views() == old(self).token_views(),
            reads(
                seen(
                    r,
                    |v: (Vec<Expr>, Vec<(String, Expr)>)| (
                        exprs_view(v.0@),
                        named_exprs_view(v.1@),
                    ),
                ),
                grammar::call_arguments(
                    old(self).token_views(),
                    old(self).position(),
                    (Seq::empty(), Seq::empty()),
                ),
                final(self).position() - old(self).position(),
            ),
        decreases remaining(old(self).token_views(), old(self).position()), 20nat,
    {
        let mut positional: Vec<Expr> = Vec::new();
        let mut named: Vec<(String, Expr)> = Vec::new();
        let ghost tokens = self.token_views();
        let ghost start = self.position();
        proof {
            lemma_exprs_view_empty();
            lemma_named_exprs_view_empty();
        }
        loop
            invariant
                tokens == old(self).token_views(),
                start == old(self).position(),
                self.token_views() == tokens,
                self.position() >= start,
                shift(
                    grammar::call_arguments(
                        tokens,
                        self.position(),
                        (exprs_view(positional@), named_exprs_view(named@)),
                    ),
                    (self.position() - start) as nat,
                ) == grammar::call_arguments(tokens, start, (Seq::empty(), Seq::empty())),
            decreases remaining(tokens, self.position()),
        {
            proof {
                reveal_with_fuel(grammar::call_arguments, 1);
                reveal_with_fuel(grammar::argument, 1);
            }
            let ghost before = self.position();
            let ghost rest = grammar::call_arguments(
                tokens,
                self.position(),
                (exprs_view(positional@), named_exprs_view(named@)),
            );
            match self.argument() {
                Ok(Argument::Named(name, value)) => {
                    proof {
                        lemma_named_exprs_view_push(named@, (name, value));
                    }
                    named.push((name, value));
                },
                Ok(Argument::Positional(value)) => {
                    proof {
                        lemma_exprs_view_push(positional@, value);
                    }
                    positional.push(value);
                },
                Err(message) => {
                    return Err(message);
                },
            }
            if self.kind() == TokenKind::Comma {
                self.advance(1);
            } else {
                return Ok((positional, named));
            }
            proof {
                let now = grammar::call_arguments(
                    tokens,
                    self.position(),
                    (exprs_view(positional@), named_exprs_view(named@)),
                );
                let moved = (self.position() - before) as nat;
                assert(rest == shift(now, moved));
                lemma_shift_twice(now, moved, (before - start) as nat);
            }
        }
    }

    /// Reads the arguments of a call up to its closing parenthesis.
    pub(super) fn argument_list(&mut self) -> (r: Result<(Vec<Expr>, Vec<(String, Expr)>), String>)
        ensures
            final(self).token_views() == old(self).token_views(),
            reads(
                seen(
                    r,
                    |v: (Vec<Expr>, Vec<(String, Expr)>)| (
                        exprs_view(v.0@),
                        named_exprs_view(v.1@),
                    ),
                ),
                grammar::argument_list(old(self).token_views(), old(self).position()),
                final(self).position() - old(self).position(),
            ),
        decreases remaining(old(self).token_views(), old(self).position()), 21nat,
    {
        proof {
            reveal_with_fuel(grammar::argument_list, 1);
            reveal_with_fuel(grammar::call_arguments, 1);
        }
        if self.kind() == TokenKind::RightParen {
            proof {
                lemma_exprs_view_empty();
                lemma_named_exprs_view_empty();
            }
            Ok((Vec::new(), Vec::new()))
        } else {
            self.call_arguments()
        }
    }

    /// Reads the rest of a call after its opening parenthesis.
    pub(super) fn finish_call(&mut self, callee: Expr) -> (r: Result<Expr, String>)
        ensures
            final(self).token_views() == old(self).token_views(),
            reads(
                seen(r, |v: Expr| v@),
                grammar::finish_call(old(self).token_views(), old(self).position(), callee@),
                final(self).position() - old(self).position(),
            ),
            r is Ok ==> final(self).position() > old(self).position(),
        decreases remaining(old(self).token_views(), old(self).position()), 22nat,
    {
        proof {
            reveal_with_fuel(grammar::finish_call, 1);
            reveal_with_fuel(grammar::argument_list, 1);
        }
        let (arguments, named_arguments) = match self.argument_list() {
            Ok(arguments) => arguments,
            Err(message) => {
                return Err(message);
            },
        };
        if self.kind() != TokenKind::RightParen {
            return Err("Expected ')' after arguments".to_owned());
        }
        self.advance(1);
        proof {
            lemma_expr_view(callee);
        }
        match callee {
            Expr::Variable(name) => {
                let node = Expr::FunctionCall { name, arguments, named_arguments };
                proof {
                    lemma_expr_view(node);
                }
                Ok(node)
            },
            _ => Err("Expected function name".to_owned()),
        }
    }
}

} // verus!
