//! Imports.
use super::{reads, seen, Parser};
use crate::ast::{lemma_stmt_view, lemma_texts_empty, lemma_texts_push, texts, Stmt};
use crate::grammar::{remaining, shift};
use crate::grammar_items;
use crate::token::TokenKind;
use vstd::prelude::*;

verus! {

impl Parser {
    /// Reads one or more names joined by tokens of tag `separator`.
    pub(super) fn name_list(&mut self, separator: TokenKind, missing: &str) -> (r: Result<Vec<String>, String>)
        requires
            separator != TokenKind::EOF,
        ensures
            final(self).token_views() == old(self).token_views(),
            reads(
                seen(r, |v: Vec<String>| texts(v@)),
                grammar_items::name_list(
                    old(self).token_views(),
                    old(self).position(),
                    separator,
                    missing@,
                    Seq::empty(),
                ),
                final(self).position() - old(self).position(),
            ),
    {
        let mut names: Vec<String> = Vec::new();
        let ghost tokens = self.token_views();
        let ghost start = self.position();
        proof {
            lemma_texts_empty();
        }
        loop
            invariant
                tokens == old(self).token_views(),
                start == old(self).position(),
                self.token_views() == tokens,
                self.position() >= start,
                separator != TokenKind::EOF,
                shift(
                    grammar_items::name_list(
                        tokens,
                        self.position(),
                        separator,
                        missing@,
                        texts(names@),
                    ),
                    (self.position() - start) as nat,
                ) == grammar_items::name_list(tokens, start, separator, missing@, Seq::empty()),
            decreases remaining(tokens, self.position()),
        {
            if self.kind() != TokenKind::Identifier {
                return Err(missing.to_owned());
            }
            let name = self.text();
            proof {
                lemma_texts_push(names@, name);
            }
            names.push(name);
            if self.kind_ahead(1) == separator {
                self.advance(2);
            } else {
                self.advance(1);
                return Ok(names);
            }
        }
    }

    /// Reads the braced list of imported names and the `from` after it, if an
    /// import opens with one.
    pub(super) fn import_list(&mut self) -> (r: Result<Vec<String>, String>)
        ensures
            final(self).token_views() == old(self).token_views(),
            reads(
                seen(r, |v: Vec<String>| texts(v@)),
                grammar_items::import_list(old(self).token_views(), old(self).position()),
                final(self).position() - old(self).position(),
            ),
    {
        proof {
            reveal(grammar_items::import_list);
        }
        if self.kind() != TokenKind::LeftBrace {
            let names: Vec<String> = Vec::new();
            proof {
            lemma_texts_empty();
        }
            return Ok(names);
        }
        self.advance(1);
        let names = match self.name_list(
            TokenKind::Comma,
            "Expected function name in import list",
        ) {
            Ok(names) => names,
            Err(message) => {
                return Err(message);
            },
        };
        if self.kind() != TokenKind::RightBrace {
            return Err("Expected '}' after import list".to_owned());
        }
        if self.kind_ahead(1) != TokenKind::From {
            return Err("Expected 'from' after import list".to_owned());
        }
        self.advance(2);
        Ok(names)
    }

    /// Reads an import after its keyword.
    pub(super) fn import_declaration(&mut self) -> (r: Result<Stmt, String>)
        ensures
            final(self).token_views() == old(self).token_views(),
            reads(
                seen(r, |v: Stmt| v@),
                grammar_items::import_declaration(old(self).token_views(), old(self).position()),
                final(self).position() - old(self).position(),
            ),
    {
        proof {
            reveal(grammar_items::import_declaration);
        }
        let specific_imports = match self.import_list() {
            Ok(names) => names,
            Err(message) => {
                return Err(message);
            },
        };
        let path = match self.name_list(TokenKind::Dot, "Expected module name") {
            Ok(names) => names,
            Err(message) => {
                return Err(message);
            },
        };
        if self.kind() != TokenKind::As {
            let node = Stmt::Import { path, specific_imports, alias: None };
            proof {
                lemma_stmt_view(node);
            }
            return Ok(node);
        }
        if self.kind_ahead(1) == TokenKind::Identifier {
            let alias = self.text_ahead(1);
            self.advance(2);
            let node = Stmt::Import { path, specific_imports, alias: Some(alias) };
            proof {
                lemma_stmt_view(node);
            }
            Ok(node)
        } else {
            Err("Expected alias name after 'as'".to_owned())
        }
    }
}

} // verus!
