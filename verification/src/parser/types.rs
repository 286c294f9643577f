//! Type definitions: aliases, records and variant types.
use super::{reads, seen, Parser};
use crate::ast::{
    lemma_stmt_view, lemma_text_pairs_empty, lemma_text_pairs_push, lemma_type_view,
    lemma_variants_view_empty, lemma_variants_view_push, text_pairs, variants_view, Stmt, Type,
    TypeDefinition,
};
use crate::grammar::{remaining, shift};
use crate::grammar_items;
use crate::token::TokenKind;
use vstd::prelude::*;

verus! {

impl Parser {
    /// Reads the fields of a record up to its closing brace.
    pub(super) fn record_fields(&mut self) -> (r: Result<Vec<(String, String)>, String>)
        ensures
            final(self).token_views() == old(self).token_views(),
            reads(
                seen(r, |v: Vec<(String, String)>| text_pairs(v@)),
                grammar_items::record_fields(
                    old(self).token_views(),
                    old(self).position(),
                    Seq::empty(),
                ),
                final(self).position() - old(self).position(),
            ),
    {
        let mut fields: Vec<(String, String)> = Vec::new();
        let ghost tokens = self.token_views();
        let ghost start = self.position();
        proof {
            lemma_text_pairs_empty();
        }
        loop
            invariant
                tokens == old(self).token_views(),
                start == old(self).position(),
                self.token_views() == tokens,
                self.position() >= start,
                shift(
                    grammar_items::record_fields(tokens, self.position(), text_pairs(fields@)),
                    (self.position() - start) as nat,
                ) == grammar_items::record_fields(tokens, start, Seq::empty()),
            decreases remaining(tokens, self.position()),
        {
            let kind = self.kind();
            if kind == TokenKind::RightBrace || kind == TokenKind::EOF {
                return Ok(fields);
            }
            if kind != TokenKind::Identifier {
                return Err("Expected field name".to_owned());
            }
            let name = self.text();
            self.advance(1);
            let tag = match self.type_tag("Expected field type after '#'", "Expected field type") {
                Ok(tag) => tag,
                Err(message) => {
                    return Err(message);
                },
            };
            proof {
                lemma_text_pairs_push(fields@, (name, tag));
            }
            fields.push((name, tag));
            let next = self.kind();
            if next == TokenKind::RightBrace {
                return Ok(fields);
            } else if next == TokenKind::Comma {
                self.advance(1);
            } else {
                return Err("Expected ',' between record fields".to_owned());
            }
        }
    }

    /// Reads the fields of one variant, separated by commas.
    pub(super) fn variant_fields(&mut self) -> (r: Result<Vec<(String, String)>, String>)
        ensures
            final(self).token_views() == old(self).token_views(),
            reads(
                seen(r, |v: Vec<(String, String)>| text_pairs(v@)),
                grammar_items::variant_fields(
                    old(self).token_views(),
                    old(self).position(),
                    Seq::empty(),
                ),
                final(self).position() - old(self).position(),
            ),
    {
        let mut fields: Vec<(String, String)> = Vec::new();
        let ghost tokens = self.token_views();
        let ghost start = self.position();
        proof {
            lemma_text_pairs_empty();
        }
        loop
            invariant
                tokens == old(self).token_views(),
                start == old(self).position(),
                self.token_views() == tokens,
                self.position() >= start,
                shift(
                    grammar_items::variant_fields(tokens, self.position(), text_pairs(fields@)),
                    (self.position() - start) as nat,
                ) == grammar_items::variant_fields(tokens, start, Seq::empty()),
            decreases remaining(tokens, self.position()),
        {
            if self.kind() != TokenKind::Identifier {
                return Err("Expected field name".to_owned());
            }
            let name = self.text();
            self.advance(1);
            let tag = match self.type_tag("Expected field type after '#'", "Expected field type") {
                Ok(tag) => tag,
                Err(message) => {
                    return Err(message);
                },
            };
            proof {
                lemma_text_pairs_push(fields@, (name, tag));
            }
            fields.push((name, tag));
            if self.kind() == TokenKind::Comma {
                self.advance(1);
            } else {
                return Ok(fields);
            }
        }
    }

    /// Reads the parenthesised fields that may follow a variant's name.
    pub(super) fn variant_payload(&mut self) -> (r: Result<Vec<(String, String)>, String>)
        ensures
            final(self).token_views() == old(self).token_views(),
            reads(
                seen(r, |v: Vec<(String, String)>| text_pairs(v@)),
                grammar_items::variant_payload(old(self).token_views(), old(self).position()),
                final(self).position() - old(self).position(),
            ),
    {
        proof {
            reveal(grammar_items::variant_payload);
        }
        if self.kind() != TokenKind::LeftParen {
            let fields: Vec<(String, String)> = Vec::new();
            proof {
            lemma_text_pairs_empty();
        }
            return Ok(fields);
        }
        self.advance(1);
        let fields = if self.kind() == TokenKind::RightParen {
            let fields: Vec<(String, String)> = Vec::new();
            proof {
            lemma_text_pairs_empty();
        }
            fields
        } else {
            match self.variant_fields() {
                Ok(fields) => fields,
                Err(message) => {
                    return Err(message);
                },
            }
        };
        if self.kind() == TokenKind::RightParen {
            self.advance(1);
            Ok(fields)
        } else {
            Err("Expected ')' after variant fields".to_owned())
        }
    }

    /// Reads the variants of a variant type up to its closing brace.
    pub(super) fn variants(&mut self) -> (r: Result<Vec<(String, Vec<(String, String)>)>, String>)
        ensures
            final(self).token_views() == old(self).token_views(),
            reads(
                seen(r, |v: Vec<(String, Vec<(String, String)>)>| variants_view(v@)),
                grammar_items::variants(
                    old(self).token_views(),
                    old(self).position(),
                    Seq::empty(),
                ),
                final(self).position() - old(self).position(),
            ),
    {
        let mut variants: Vec<(String, Vec<(String, String)>)> = Vec::new();
        let ghost tokens = self.token_views();
        let ghost start = self.position();
        proof {
            lemma_variants_view_empty();
        }
        loop
            invariant
                tokens == old(self).token_views(),
                start == old(self).position(),
                self.token_views() == tokens,
                self.position() >= start,
                shift(
                    grammar_items::variants(tokens, self.position(), variants_view(variants@)),
                    (self.position() - start) as nat,
                ) == grammar_items::variants(tokens, start, Seq::empty()),
            decreases remaining(tokens, self.position()),
        {
            let kind = self.kind();
            if kind == TokenKind::RightBrace || kind == TokenKind::EOF {
                return Ok(variants);
            }
            if kind != TokenKind::Identifier {
                return Err("Expected variant name".to_owned());
            }
            let name = self.text();
            self.advance(1);
            let fields = match self.variant_payload() {
                Ok(fields) => fields,
                Err(message) => {
                    return Err(message);
                },
            };
            proof {
                lemma_variants_view_push(variants@, (name, fields));
            }
            variants.push((name, fields));
            let next = self.kind();
            if next == TokenKind::RightBrace {
                return Ok(variants);
            } else if next == TokenKind::Comma {
                self.advance(1);
            } else {
                return Err("Expected ',' between variant definitions".to_owned());
            }
        }
    }

    /// Reads what a type is defined as.
    pub(super) fn type_body(&mut self) -> (r: Result<TypeDefinition, String>)
        ensures
            final(self).token_views() == old(self).token_views(),
            reads(
                seen(r, |v: TypeDefinition| v@),
                grammar_items::type_body(old(self).token_views(), old(self).position()),
                final(self).position() - old(self).position(),
            ),
    {
        proof {
            reveal(grammar_items::type_body);
        }
        let kind = self.kind();
        if kind == TokenKind::TypePrefix {
            if self.kind_ahead(1) == TokenKind::Identifier {
                let target = self.text_ahead(1);
                self.advance(2);
                let alias = Type::Primitive(target);
                proof {
                    lemma_type_view(alias);
                }
                Ok(TypeDefinition::Alias(alias))
            } else {
                Err("Expected type name after '#'".to_owned())
            }
        } else if kind == TokenKind::Record {
            if self.kind_ahead(1) != TokenKind::LeftBrace {
                return Err("Expected '{' after 'record'".to_owned());
            }
            self.advance(2);
            let fields = match self.record_fields() {
                Ok(fields) => fields,
                Err(message) => {
                    return Err(message);
                },
            };
            if self.kind() == TokenKind::RightBrace {
                self.advance(1);
                Ok(TypeDefinition::Record { fields })
            } else {
                Err("Expected '}' after record fields".to_owned())
            }
        } else if kind == TokenKind::Variant {
            if self.kind_ahead(1) != TokenKind::LeftBrace {
                return Err("Expected '{' after 'variant'".to_owned());
            }
            self.advance(2);
            let variants = match self.variants() {
                Ok(variants) => variants,
                Err(message) => {
                    return Err(message);
                },
            };
            if self.kind() == TokenKind::RightBrace {
                self.advance(1);
                Ok(TypeDefinition::Variant { variants })
            } else {
                Err("Expected '}' after variant definitions".to_owned())
            }
        } else {
            Err("Expected 'record', 'variant', or '#' after 'is' in type definition".to_owned())
        }
    }

    /// Reads a type definition after its keyword.
    pub(super) fn type_definition(&mut self) -> (r: Result<Stmt, String>)
        ensures
            final(self).token_views() == old(self).token_views(),
            reads(
                seen(r, |v: Stmt| v@),
                grammar_items::type_definition(old(self).token_views(), old(self).position()),
                final(self).position() - old(self).position(),
            ),
    {
        proof {
            reveal(grammar_items::type_definition);
        }
        if self.kind() != TokenKind::TypePrefix {
            return Err("Expected '#' after 'see'".to_owned());
        }
        if self.kind_ahead(1) != TokenKind::Identifier {
            return Err("Expected type name".to_owned());
        }
        if self.kind_ahead(2) != TokenKind::Is {
            return Err("Expected 'is' after type name".to_owned());
        }
        let name = self.text_ahead(1);
        self.advance(3);
        match self.type_body() {
            Ok(definition) => {
                let node = Stmt::TypeDefinition { name, definition };
                proof {
                    lemma_stmt_view(node);
                }
                Ok(node)
            },
            Err(message) => Err(message),
        }
    }
}

} // verus!
