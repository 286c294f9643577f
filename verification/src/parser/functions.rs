//! Function declarations.
use super::{reads, seen, Parser};
use crate::ast::{
    lemma_stmt_view, lemma_text_pairs_empty, lemma_text_pairs_push, stmts_view, text_pairs, Stmt,
};
use crate::grammar;
use crate::grammar::{remaining, shift};
use crate::token::{lemma_token_views_index, TokenKind};
use vstd::prelude::*;

verus! {

impl Parser {
    /// Passes one comment: up to and with the next comment mark, or up to a
    /// closing brace or the end of the input.
    pub(super) fn skip_comment_line(&mut self)
        ensures
            final(self).token_views() == old(self).token_views(),
            final(self).position() == old(self).position() + grammar::comment_span(
                old(self).token_views(),
                old(self).position(),
            ),
    {
        let ghost tokens = self.token_views();
        let ghost start = self.position();
        loop
            invariant
                tokens == old(self).token_views(),
                start == old(self).position(),
                self.token_views() == tokens,
                self.position() + grammar::comment_span(tokens, self.position()) == start
                    + grammar::comment_span(tokens, start),
            decreases remaining(tokens, self.position()),
        {
            let kind = self.kind();
            if kind == TokenKind::RightBrace || kind == TokenKind::EOF {
                return ;
            }
            self.advance(1);
            if kind == TokenKind::ExclamationMark {
                return ;
            }
        }
    }

    /// Passes the comments that open a function's braces.
    pub(super) fn skip_comments(&mut self)
        ensures
            final(self).token_views() == old(self).token_views(),
            final(self).position() == old(self).position() + grammar::comments_span(
                old(self).token_views(),
                old(self).position(),
            ),
    {
        let ghost tokens = self.token_views();
        let ghost start = self.position();
        loop
            invariant
                tokens == old(self).token_views(),
                start == old(self).position(),
                self.token_views() == tokens,
                self.position() + grammar::comments_span(tokens, self.position()) == start
                    + grammar::comments_span(tokens, start),
            decreases remaining(tokens, self.position()),
        {
            if self.kind() != TokenKind::ExclamationMark {
                return ;
            }
            self.advance(1);
            self.skip_comment_line();
        }
    }

    /// Reads the parameters of a function.
    pub(super) fn parameters(&mut self) -> (r: Result<Vec<(String, String)>, String>)
        ensures
            final(self).token_views() == old(self).token_views(),
            reads(
                seen(r, |v: Vec<(String, String)>| text_pairs(v@)),
                grammar::parameters(old(self).token_views(), old(self).position(), Seq::empty()),
                final(self).position() - old(self).position(),
            ),
    {
        let mut params: Vec<(String, String)> = Vec::new();
        let ghost tokens = self.token_views();
        let ghost start = self.position();
        proof {
            lemma_text_pairs_empty();
        }
        loop
            invariant
                tokens == old(self).token_views(),
                start == old(self).position(),
                self.token_views() == tokens,
                self.position() >= start,
                shift(
                    grammar::parameters(tokens, self.position(), text_pairs(params@)),
                    (self.position() - start) as nat,
                ) == grammar::parameters(tokens, start, Seq::empty()),
            decreases remaining(tokens, self.position()),
        {
            if self.kind() != TokenKind::Ampersand {
                return Ok(params);
            }
            if self.kind_ahead(1) != TokenKind::Identifier {
                return Err("Expected parameter name after '@'".to_owned());
            }
            let name = self.text_ahead(1);
            self.advance(2);
            let tag = match self.type_tag(
                "Expected parameter type after '#'",
                "Expected parameter type",
            ) {
                Ok(tag) => tag,
                Err(message) => {
                    return Err(message);
                },
            };
            proof {
                lemma_text_pairs_push(params@, (name, tag));
            }
            params.push((name, tag));
        }
    }

    /// The name of the function whose `by` was just read: the token before
    /// `by`, where it is a name.
    pub(super) fn function_name(&self) -> (r: Option<String>)
        ensures
            match r {
                Some(name) => grammar::function_name(self.token_views(), self.position()) == Some(
                    name@,
                ),
                None => grammar::function_name(self.token_views(), self.position()) is None,
            },
    {
        proof {
            use_type_invariant(self);
            lemma_token_views_index(self.tokens@);
        }
        if self.current >= 2 && self.tokens[self.current - 2].kind() == TokenKind::Identifier {
            Some(self.tokens[self.current - 2].text().to_owned())
        } else {
            None
        }
    }

    /// Reads what stands between the braces of a function, up to and with the
    /// closing brace.
    pub(super) fn function_body(&mut self) -> (r: Result<(Vec<(String, String)>, Vec<Stmt>), String>)
        ensures
            final(self).token_views() == old(self).token_views(),
            reads(
                seen(
                    r,
                    |v: (Vec<(String, String)>, Vec<Stmt>)| (text_pairs(v.0@), stmts_view(v.1@)),
                ),
                grammar::function_body(old(self).token_views(), old(self).position()),
                final(self).position() - old(self).position(),
            ),
        decreases remaining(old(self).token_views(), old(self).position()), 32nat,
    {
        proof {
            reveal_with_fuel(grammar::function_body, 1);
            reveal_with_fuel(grammar::block, 1);
        }
        self.skip_comments();
        let params = match self.parameters() {
            Ok(params) => params,
            Err(message) => {
                return Err(message);
            },
        };
        let body = match self.block() {
            Ok(body) => body,
            Err(message) => {
                return Err(message);
            },
        };
        if self.kind() == TokenKind::RightBrace {
            self.advance(1);
            Ok((params, body))
        } else {
            Err("Expected '}' after function body".to_owned())
        }
    }

    /// Reads a function after its `by`.
    pub(super) fn function_declaration(&mut self) -> (r: Result<Stmt, String>)
        ensures
            final(self).token_views() == old(self).token_views(),
            reads(
                seen(r, |v: Stmt| v@),
                grammar::function_declaration(old(self).token_views(), old(self).position()),
                final(self).position() - old(self).position(),
            ),
        decreases remaining(old(self).token_views(), old(self).position()), 33nat,
    {
        proof {
            reveal_with_fuel(grammar::function_declaration, 1);
            reveal_with_fuel(grammar::function_body, 1);
        }
        let name = match self.function_name() {
            Some(name) => name,
            None => {
                return Err("Expected function name before 'by'".to_owned());
            },
        };
        let return_type = match self.type_tag(
            "Expected return type after '#'",
            "Expected return type before 'by'",
        ) {
            Ok(tag) => tag,
            Err(message) => {
                return Err(message);
            },
        };
        if self.kind() != TokenKind::LeftBrace {
            return Err("Expected '{' after 'by'".to_owned());
        }
        self.advance(1);
        match self.function_body() {
            Ok((params, body)) => {
                let node = Stmt::Function { name, return_type, params, body };
                proof {
                    lemma_stmt_view(node);
                }
                Ok(node)
            },
            Err(message) => Err(message),
        }
    }
}

} // verus!
