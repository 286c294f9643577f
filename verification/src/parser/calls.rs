//! The postfix chain: calls, type-function calls, index accesses, method calls.
use super::{reads, seen, Parser};
use crate::ast::{
    lemma_expr_view, lemma_exprs_view_empty, lemma_exprs_view_push, lemma_named_exprs_view_empty,
    Expr, ExprView,
};
use crate::grammar;
use crate::grammar::remaining;
use crate::token::TokenKind;
use vstd::prelude::*;

verus! {

impl Parser {
    /// Reads a call of `left` after its opening parenthesis, and the postfix
    /// chain after it.
    pub(super) fn call_after(&mut self, left: Expr) -> (r: Result<Expr, String>)
        ensures
            final(self).token_views() == old(self).token_views(),
            reads(
                seen(r, |v: Expr| v@),
                grammar::call_after(old(self).token_views(), old(self).position(), left@),
                final(self).position() - old(self).position(),
            ),
        decreases remaining(old(self).token_views(), old(self).position()), 23nat,
    {
        proof {
            reveal_with_fuel(grammar::call_after, 1);
            reveal_with_fuel(grammar::finish_call, 1);
            reveal_with_fuel(grammar::call_rest, 1);
        }
        match self.finish_call(left) {
            Ok(call) => self.call_rest(call),
            Err(message) => Err(message),
        }
    }

    /// Reads a type-function call on `left` after its apostrophe, and the
    /// postfix chain after it.
    pub(super) fn type_function_call(&mut self, left: Expr) -> (r: Result<Expr, String>)
        ensures
            final(self).token_views() == old(self).token_views(),
            reads(
                seen(r, |v: Expr| v@),
                grammar::type_function_call(old(self).token_views(), old(self).position(), left@),
                final(self).position() - old(self).position(),
            ),
        decreases remaining(old(self).token_views(), old(self).position()), 23nat,
    {
        proof {
            reveal_with_fuel(grammar::type_function_call, 1);
            reveal_with_fuel(grammar::call_rest, 1);
        }
        if self.kind() != TokenKind::Identifier {
            return Err("Expected function name after apostrophe".to_owned());
        }
        let function = self.text();
        self.advance(1);
        let next = Expr::TypeFunctionCall { object: Box::new(left), function };
        proof {
            lemma_expr_view(next);
        }
        self.call_rest(next)
    }

    /// Reads an index access on `left` after its opening bracket, and the
    /// postfix chain after it.
    pub(super) fn index_access(&mut self, left: Expr) -> (r: Result<Expr, String>)
        ensures
            final(self).token_views() == old(self).token_views(),
            reads(
                seen(r, |v: Expr| v@),
                grammar::index_access(old(self).token_views(), old(self).position(), left@),
                final(self).position() - old(self).position(),
            ),
        decreases remaining(old(self).token_views(), old(self).position()), 23nat,
    {
        proof {
            reveal_with_fuel(grammar::index_access, 1);
            reveal_with_fuel(grammar::expression, 1);
            reveal_with_fuel(grammar::call_rest, 1);
        }
        let index = match self.expression() {
            Ok(index) => index,
            Err(message) => {
                return Err(message);
            },
        };
        if self.kind() != TokenKind::RightBracket {
            return Err("Expected ']' after index".to_owned());
        }
        self.advance(1);
        let next = Expr::AccessExpression { object: Box::new(left), index: Box::new(index) };
        proof {
            lemma_expr_view(next);
        }
        self.call_rest(next)
    }

    /// Reads a method call without arguments on `left` after its dot, and the
    /// postfix chain after it. The receiver becomes the only argument.
    pub(super) fn method_call(&mut self, left: Expr) -> (r: Result<Expr, String>)
        ensures
            final(self).token_views() == old(self).token_views(),
            reads(
                seen(r, |v: Expr| v@),
                grammar::method_call(old(self).token_views(), old(self).position(), left@),
                final(self).position() - old(self).position(),
            ),
        decreases remaining(old(self).token_views(), old(self).position()), 23nat,
    {
        proof {
            reveal_with_fuel(grammar::method_call, 1);
            reveal_with_fuel(grammar::call_rest, 1);
        }
        if self.kind() != TokenKind::Identifier {
            return Err("Expected method name after dot".to_owned());
        }
        let name = self.text();
        self.advance(1);
        let mut arguments: Vec<Expr> = Vec::new();
        proof {
            lemma_exprs_view_empty();
            lemma_named_exprs_view_empty();
            lemma_exprs_view_push(arguments@, left);
            assert(Seq::<ExprView>::empty().push(left@) =~= seq![left@]);
        }
        arguments.push(left);
        let next = Expr::FunctionCall { name, arguments, named_arguments: Vec::new() };
        proof {
            lemma_expr_view(next);
        }
        self.call_rest(next)
    }

    /// Reads the postfix chain that follows the expression `left`.
    pub(super) fn call_rest(&mut self, left: Expr) -> (r: Result<Expr, String>)
        ensures
            final(self).token_views() == old(self).token_views(),
            reads(
                seen(r, |v: Expr| v@),
                grammar::call_rest(old(self).token_views(), old(self).position(), left@),
                final(self).position() - old(self).position(),
            ),
        decreases remaining(old(self).token_views(), old(self).position()), 1nat,
    {
        proof {
            reveal_with_fuel(grammar::call_rest, 1);
            reveal_with_fuel(grammar::call_after, 1);
            reveal_with_fuel(grammar::type_function_call, 1);
            reveal_with_fuel(grammar::index_access, 1);
            reveal_with_fuel(grammar::method_call, 1);
        }
        let kind = self.kind();
        if kind == TokenKind::LeftParen {
            self.advance(1);
            self.call_after(left)
        } else if kind == TokenKind::Apostrophe {
            self.advance(1);
            self.type_function_call(left)
        } else if kind == TokenKind::LeftBracket {
            self.advance(1);
            self.index_access(left)
        } else if kind == TokenKind::Dot {
            self.advance(1);
            self.method_call(left)
        } else {
            Ok(left)
        }
    }

    /// Reads a primary expression and its postfix chain.
    pub(super) fn call(&mut self) -> (r: Result<Expr, String>)
        ensures
            final(self).token_views() == old(self).token_views(),
            reads(
                seen(r, |v: Expr| v@),
                grammar::call(old(self).token_views(), old(self).position()),
                final(self).position() - old(self).position(),
            ),
            r is Ok ==> final(self).position() > old(self).position(),
        decreases remaining(old(self).token_views(), old(self).position()), 2nat,
    {
        proof {
            reveal_with_fuel(grammar::call, 1);
            reveal_with_fuel(grammar::primary, 1);
            reveal_with_fuel(grammar::call_rest, 1);
        }
        match self.primary() {
            Ok(left) => self.call_rest(left),
            Err(message) => Err(message),
        }
    }
}

} // verus!
