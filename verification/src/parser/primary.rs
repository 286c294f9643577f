//! Primary expressions: literals, names, groupings, list and map literals.
use super::{reads, seen, Parser};
use crate::ast::{lemma_entries_view_empty, lemma_expr_view, lemma_exprs_view_empty, Expr, Literal};
use crate::grammar;
use crate::grammar::{kind_at, remaining, text_at};
use crate::token::TokenKind;
use vstd::prelude::*;

verus! {

impl Parser {
    /// The literal that the next token is, if it is one.
    pub(super) fn literal(&self) -> (r: Option<Literal>)
        ensures
            match r {
                Some(value) => grammar::literal(
                    kind_at(self.token_views(), self.position()),
                    text_at(self.token_views(), self.position()),
                ) == Some(value@),
                None => grammar::literal(
                    kind_at(self.token_views(), self.position()),
                    text_at(self.token_views(), self.position()),
                ) is None,
            },
    {
        let kind = self.kind();
        if kind == TokenKind::Yes {
            Some(Literal::Decision(true))
        } else if kind == TokenKind::No {
            Some(Literal::Decision(false))
        } else if kind == TokenKind::Nothing {
            Some(Literal::Nothing)
        } else if kind == TokenKind::Number {
            Some(Literal::Number(self.text()))
        } else if kind == TokenKind::String || kind == TokenKind::MultilineString {
            Some(Literal::String(self.text()))
        } else {
            None
        }
    }

    /// Reads a primary expression.
    pub(super) fn primary(&mut self) -> (r: Result<Expr, String>)
        ensures
            final(self).token_views() == old(self).token_views(),
            reads(
                seen(r, |v: Expr| v@),
                grammar::primary(old(self).token_views(), old(self).position()),
                final(self).position() - old(self).position(),
            ),
            r is Ok ==> final(self).position() > old(self).position(),
        decreases remaining(old(self).token_views(), old(self).position()), 0nat,
    {
        proof {
            reveal_with_fuel(grammar::primary, 1);
            reveal_with_fuel(grammar::grouping, 1);
            reveal_with_fuel(grammar::list_literal, 1);
            reveal_with_fuel(grammar::map_literal, 1);
        }
        match self.literal() {
            Some(value) => {
                self.advance(1);
                let node = Expr::Literal(value);
                proof {
                    lemma_expr_view(node);
                }
                return Ok(node);
            },
            None => {},
        }
        let kind = self.kind();
        if kind == TokenKind::Identifier {
            let name = self.text();
            self.advance(1);
            let node = Expr::Variable(name);
            proof {
                lemma_expr_view(node);
            }
            Ok(node)
        } else if kind == TokenKind::LeftParen {
            self.advance(1);
            self.grouping()
        } else if kind == TokenKind::LeftBracket {
            self.advance(1);
            self.list_literal()
        } else if kind == TokenKind::LeftBrace && self.kind_ahead(1) == TokenKind::Identifier
            && self.kind_ahead(2) == TokenKind::Colon {
            self.advance(1);
            self.map_literal()
        } else {
            Err("Expected expression".to_owned())
        }
    }

    /// Reads a parenthesised expression after its opening parenthesis.
    pub(super) fn grouping(&mut self) -> (r: Result<Expr, String>)
        ensures
            final(self).token_views() == old(self).token_views(),
            reads(
                seen(r, |v: Expr| v@),
                grammar::grouping(old(self).token_views(), old(self).position()),
                final(self).position() - old(self).position(),
            ),
        decreases remaining(old(self).token_views(), old(self).position()), 19nat,
    {
        proof {
            reveal_with_fuel(grammar::grouping, 1);
            reveal_with_fuel(grammar::expression, 1);
        }
        let inner = match self.expression() {
            Ok(inner) => inner,
            Err(message) => {
                return Err(message);
            },
        };
        if self.kind() == TokenKind::RightParen {
            self.advance(1);
            let node = Expr::Grouping(Box::new(inner));
            proof {
                lemma_expr_view(node);
            }
            Ok(node)
        } else {
            Err("Expected ')' after expression".to_owned())
        }
    }

    /// Reads a list literal after its opening bracket.
    pub(super) fn list_literal(&mut self) -> (r: Result<Expr, String>)
        ensures
            final(self).token_views() == old(self).token_views(),
            reads(
                seen(r, |v: Expr| v@),
                grammar::list_literal(old(self).token_views(), old(self).position()),
                final(self).position() - old(self).position(),
            ),
        decreases remaining(old(self).token_views(), old(self).position()), 20nat,
    {
        proof {
            reveal_with_fuel(grammar::list_literal, 1);
            reveal_with_fuel(grammar::expression_list, 1);
        }
        if self.kind() == TokenKind::RightBracket {
            self.advance(1);
            proof {
                lemma_exprs_view_empty();
            }
            let node = Expr::List(Vec::new());
            proof {
                lemma_expr_view(node);
            }
            return Ok(node);
        }
        let items = match self.expression_list() {
            Ok(items) => items,
            Err(message) => {
                return Err(message);
            },
        };
        if self.kind() == TokenKind::RightBracket {
            self.advance(1);
            let node = Expr::List(items);
            proof {
                lemma_expr_view(node);
            }
            Ok(node)
        } else {
            Err("Expected ']' after list elements".to_owned())
        }
    }

    /// Reads a map literal after its opening brace.
    pub(super) fn map_literal(&mut self) -> (r: Result<Expr, String>)
        ensures
            final(self).token_views() == old(self).token_views(),
            reads(
                seen(r, |v: Expr| v@),
                grammar::map_literal(old(self).token_views(), old(self).position()),
                final(self).position() - old(self).position(),
            ),
        decreases remaining(old(self).token_views(), old(self).position()), 22nat,
    {
        proof {
            reveal_with_fuel(grammar::map_literal, 1);
            reveal_with_fuel(grammar::map_entries, 1);
        }
        if self.kind() == TokenKind::RightBrace {
            self.advance(1);
            proof {
                lemma_entries_view_empty();
            }
            let node = Expr::Mapping(Vec::new());
            proof {
                lemma_expr_view(node);
            }
            return Ok(node);
        }
        let entries = match self.map_entries() {
            Ok(entries) => entries,
            Err(message) => {
                return Err(message);
            },
        };
        if self.kind() == TokenKind::RightBrace {
            self.advance(1);
            let node = Expr::Mapping(entries);
            proof {
                lemma_expr_view(node);
            }
            Ok(node)
        } else {
            Err("Expected '}' after map entries".to_owned())
        }
    }
}

} // verus!
