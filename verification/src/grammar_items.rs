//! The grammar of the declarations that hold no expression: type definitions
//! and imports.
use crate::ast::{StmtView, TypeDefinitionView, TypeView};
use crate::grammar::{closes_block, kind_at, remaining, shift, text_at, type_tag, Parse};
use crate::token::{TokenKind, TokenView};
use vstd::prelude::*;

verus! {

/// The fields of a record from `pos` up to its closing brace, each a name and
/// a type tag, after the fields `done`. A comma follows every field but one
/// that stands right before the closing brace.
pub open spec fn record_fields(
    tokens: Seq<TokenView>,
    pos: nat,
    done: Seq<(Seq<char>, Seq<char>)>,
) -> Parse<Seq<(Seq<char>, Seq<char>)>>
    decreases remaining(tokens, pos),
{
    if closes_block(tokens, pos) {
        Ok((done, 0))
    } else if kind_at(tokens, pos) != TokenKind::Identifier {
        Err("Expected field name"@)
    } else {
        match type_tag(tokens, pos + 1, "Expected field type after '#'"@, "Expected field type"@) {
            Err(message) => Err(message),
            Ok((tag, used)) => {
                let done = done.push((text_at(tokens, pos), tag));
                if kind_at(tokens, pos + 1 + used) == TokenKind::RightBrace {
                    Ok((done, used + 1))
                } else if kind_at(tokens, pos + 1 + used) == TokenKind::Comma {
                    shift(record_fields(tokens, pos + used + 2, done), used + 2)
                } else {
                    Err("Expected ',' between record fields"@)
                }
            },
        }
    }
}

/// The fields of one variant from `pos` on, separated by commas, after the
/// fields `done`.
pub open spec fn variant_fields(
    tokens: Seq<TokenView>,
    pos: nat,
    done: Seq<(Seq<char>, Seq<char>)>,
) -> Parse<Seq<(Seq<char>, Seq<char>)>>
    decreases remaining(tokens, pos),
{
    if kind_at(tokens, pos) != TokenKind::Identifier {
        Err("Expected field name"@)
    } else {
        match type_tag(tokens, pos + 1, "Expected field type after '#'"@, "Expected field type"@) {
            Err(message) => Err(message),
            Ok((tag, used)) => {
                let done = done.push((text_at(tokens, pos), tag));
                if kind_at(tokens, pos + 1 + used) == TokenKind::Comma {
                    shift(variant_fields(tokens, pos + used + 2, done), used + 2)
                } else {
                    Ok((done, used + 1))
                }
            },
        }
    }
}

/// The parenthesised fields that may follow a variant's name at `pos`.
#[verifier::opaque]
pub open spec fn variant_payload(tokens: Seq<TokenView>, pos: nat) -> Parse<
    Seq<(Seq<char>, Seq<char>)>,
> {
    if kind_at(tokens, pos) != TokenKind::LeftParen {
        Ok((Seq::empty(), 0))
    } else {
        let fields = if kind_at(tokens, pos + 1) == TokenKind::RightParen {
            Ok((Seq::empty(), 0nat))
        } else {
            variant_fields(tokens, pos + 1, Seq::empty())
        };
        match fields {
            Err(message) => Err(message),
            Ok((fields, used)) => if kind_at(tokens, pos + 1 + used) == TokenKind::RightParen {
                Ok((fields, used + 2))
            } else {
                Err("Expected ')' after variant fields"@)
            },
        }
    }
}

/// The variants of a variant type from `pos` up to its closing brace, each a
/// name and its fields, after the variants `done`.
pub open spec fn variants(
    tokens: Seq<TokenView>,
    pos: nat,
    done: Seq<(Seq<char>, Seq<(Seq<char>, Seq<char>)>)>,
) -> Parse<Seq<(Seq<char>, Seq<(Seq<char>, Seq<char>)>)>>
    decreases remaining(tokens, pos),
{
    if closes_block(tokens, pos) {
        Ok((done, 0))
    } else if kind_at(tokens, pos) != TokenKind::Identifier {
        Err("Expected variant name"@)
    } else {
        match variant_payload(tokens, pos + 1) {
            Err(message) => Err(message),
            Ok((fields, used)) => {
                let done = done.push((text_at(tokens, pos), fields));
                if kind_at(tokens, pos + 1 + used) == TokenKind::RightBrace {
                    Ok((done, used + 1))
                } else if kind_at(tokens, pos + 1 + used) == TokenKind::Comma {
                    shift(variants(tokens, pos + used + 2, done), used + 2)
                } else {
                    Err("Expected ',' between variant definitions"@)
                }
            },
        }
    }
}

/// What a type is defined as, from `pos` on: an alias for a named type, a
/// record or a variant type.
#[verifier::opaque]
pub open spec fn type_body(tokens: Seq<TokenView>, pos: nat) -> Parse<TypeDefinitionView> {
    let kind = kind_at(tokens, pos);
    if kind == TokenKind::TypePrefix {
        if kind_at(tokens, pos + 1) == TokenKind::Identifier {
            Ok((TypeDefinitionView::Alias(TypeView::Primitive(text_at(tokens, pos + 1))), 2))
        } else {
            Err("Expected type name after '#'"@)
        }
    } else if kind == TokenKind::Record {
        if kind_at(tokens, pos + 1) != TokenKind::LeftBrace {
            Err("Expected '{' after 'record'"@)
        } else {
            match record_fields(tokens, pos + 2, Seq::empty()) {
                Err(message) => Err(message),
                Ok((fields, used)) => if kind_at(tokens, pos + 2 + used) == TokenKind::RightBrace {
                    Ok((TypeDefinitionView::Record { fields }, used + 3))
                } else {
                    Err("Expected '}' after record fields"@)
                },
            }
        }
    } else if kind == TokenKind::Variant {
        if kind_at(tokens, pos + 1) != TokenKind::LeftBrace {
            Err("Expected '{' after 'variant'"@)
        } else {
            match variants(tokens, pos + 2, Seq::empty()) {
                Err(message) => Err(message),
                Ok((variants, used)) => if kind_at(tokens, pos + 2 + used)
                    == TokenKind::RightBrace {
                    Ok((TypeDefinitionView::Variant { variants }, used + 3))
                } else {
                    Err("Expected '}' after variant definitions"@)
                },
            }
        }
    } else {
        Err("Expected 'record', 'variant', or '#' after 'is' in type definition"@)
    }
}

/// A type definition after its keyword: `#`, the name, `is` and the body.
#[verifier::opaque]
pub open spec fn type_definition(tokens: Seq<TokenView>, pos: nat) -> Parse<StmtView> {
    if kind_at(tokens, pos) != TokenKind::TypePrefix {
        Err("Expected '#' after 'see'"@)
    } else if kind_at(tokens, pos + 1) != TokenKind::Identifier {
        Err("Expected type name"@)
    } else if kind_at(tokens, pos + 2) != TokenKind::Is {
        Err("Expected 'is' after type name"@)
    } else {
        match type_body(tokens, pos + 3) {
            Err(message) => Err(message),
            Ok((definition, used)) => Ok(
                (
                    StmtView::TypeDefinition { name: text_at(tokens, pos + 1), definition },
                    used + 3,
                ),
            ),
        }
    }
}

/// One or more names from `pos` on, joined by tokens of tag `separator`, after
/// the names `done`.
pub open spec fn name_list(
    tokens: Seq<TokenView>,
    pos: nat,
    separator: TokenKind,
    missing: Seq<char>,
    done: Seq<Seq<char>>,
) -> Parse<Seq<Seq<char>>>
    decreases remaining(tokens, pos),
{
    if kind_at(tokens, pos) != TokenKind::Identifier {
        Err(missing)
    } else if kind_at(tokens, pos + 1) == separator {
        shift(
            name_list(tokens, pos + 2, separator, missing, done.push(text_at(tokens, pos))),
            2,
        )
    } else {
        Ok((done.push(text_at(tokens, pos)), 1))
    }
}

/// The braced list of imported names and the `from` that may open an import.
#[verifier::opaque]
pub open spec fn import_list(tokens: Seq<TokenView>, pos: nat) -> Parse<Seq<Seq<char>>> {
    if kind_at(tokens, pos) != TokenKind::LeftBrace {
        Ok((Seq::empty(), 0))
    } else {
        match name_list(
            tokens,
            pos + 1,
            TokenKind::Comma,
            "Expected function name in import list"@,
            Seq::empty(),
        ) {
            Err(message) => Err(message),
            Ok((names, used)) => if kind_at(tokens, pos + 1 + used) != TokenKind::RightBrace {
                Err("Expected '}' after import list"@)
            } else if kind_at(tokens, pos + 2 + used) != TokenKind::From {
                Err("Expected 'from' after import list"@)
            } else {
                Ok((names, used + 3))
            },
        }
    }
}

/// An import after its keyword: the imported names if any, the dotted module
/// path, and the alias if any.
#[verifier::opaque]
pub open spec fn import_declaration(tokens: Seq<TokenView>, pos: nat) -> Parse<StmtView> {
    match import_list(tokens, pos) {
        Err(message) => Err(message),
        Ok((specific_imports, used)) => match name_list(
            tokens,
            pos + used,
            TokenKind::Dot,
            "Expected module name"@,
            Seq::empty(),
        ) {
            Err(message) => Err(message),
            Ok((path, more)) => {
                let at = pos + used + more;
                if kind_at(tokens, at) != TokenKind::As {
                    Ok((StmtView::Import { path, specific_imports, alias: None }, used + more))
                } else if kind_at(tokens, at + 1) == TokenKind::Identifier {
                    Ok(
                        (
                            StmtView::Import {
                                path,
                                specific_imports,
                                alias: Some(text_at(tokens, at + 1)),
                            },
                            used + more + 2,
                        ),
                    )
                } else {
                    Err("Expected alias name after 'as'"@)
                }
            },
        }
    }
}

} // verus!
