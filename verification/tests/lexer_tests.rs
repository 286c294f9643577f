use wittgenlang::lexer::{tokenize, Lexer};
use wittgenlang::token::{Token, TokenKind};

fn number(text: &str) -> Token {
    Token::Number(text.to_string())
}

fn name(text: &str) -> Token {
    Token::Identifier(text.to_string())
}

fn string(text: &str) -> Token {
    Token::String(text.to_string())
}

#[test]
fn tokenizes_a_sum() {
    assert_eq!(tokenize("2 + 3"), vec![number("2"), Token::Plus, number("3"), Token::EOF]);
}

#[test]
fn empty_text_is_only_the_closing_token() {
    assert_eq!(tokenize(""), vec![Token::EOF]);
    assert_eq!(tokenize(" \t\n\x0c "), vec![Token::EOF]);
}

#[test]
fn keywords_are_told_from_names() {
    assert_eq!(
        tokenize("forNow iffy if by by-pass x_1 nothing nothings"),
        vec![
            Token::ForNow,
            name("iffy"),
            Token::If,
            Token::By,
            name("by-pass"),
            name("x_1"),
            Token::Nothing,
            name("nothings"),
            Token::EOF
        ]
    );
}

#[test]
fn every_keyword_has_its_token() {
    assert_eq!(
        tokenize("by is forNow change to if else unless of for in while break continue produce import module from as see record variant write otherwise yes no nothing"),
        vec![
            Token::By, Token::Is, Token::ForNow, Token::Change, Token::To, Token::If, Token::Else,
            Token::Unless, Token::Of, Token::For, Token::In, Token::While, Token::Break,
            Token::Continue, Token::Produce, Token::Import, Token::Module, Token::From, Token::As,
            Token::See, Token::Record, Token::Variant, Token::Write, Token::Otherwise, Token::Yes,
            Token::No, Token::Nothing, Token::EOF
        ]
    );
}

#[test]
fn type_keywords_win_over_the_bare_prefix() {
    assert_eq!(
        tokenize("# #Number #Numbers #Person #Integer #Text #Decision #Nothing #Bliss #Any #List #Map #Tuple #Result #Shape"),
        vec![
            Token::TypePrefix,
            Token::NumberType,
            Token::NumberType,
            name("s"),
            Token::TypePrefix,
            name("Person"),
            Token::IntegerType,
            Token::TextType,
            Token::DecisionType,
            Token::NothingType,
            Token::BlissType,
            Token::AnyType,
            Token::ListType,
            Token::MapType,
            Token::TupleType,
            Token::ResultType,
            Token::ShapeType,
            Token::EOF
        ]
    );
}

#[test]
fn numbers_keep_their_spelling() {
    assert_eq!(
        tokenize("12 1.50 -3 -0.25 1. a -1 1..5 - 2"),
        vec![
            number("12"),
            number("1.50"),
            number("-3"),
            number("-0.25"),
            number("1"),
            Token::Dot,
            name("a"),
            number("-1"),
            number("1"),
            Token::Range,
            number("5"),
            Token::Minus,
            number("2"),
            Token::EOF
        ]
    );
}

#[test]
fn a_name_may_hold_hyphens() {
    assert_eq!(tokenize("a-1"), vec![name("a-1"), Token::EOF]);
    assert_eq!(tokenize("a->b"), vec![name("a-"), Token::Greater, name("b"), Token::EOF]);
}

#[test]
fn strings_end_at_the_next_quote() {
    assert_eq!(
        tokenize("\"ab\" \"\" \"c d\""),
        vec![string("ab"), string(""), string("c d"), Token::EOF]
    );
}

#[test]
fn a_string_has_no_escapes() {
    assert_eq!(tokenize("\"a\\\" b"), vec![string("a\\"), name("b"), Token::EOF]);
}

#[test]
fn triple_quotes_span_lines() {
    assert_eq!(
        tokenize("\"\"\"one\ntwo\"\"\" x"),
        vec![Token::MultilineString("one\ntwo".to_string()), name("x"), Token::EOF]
    );
    assert_eq!(
        tokenize("\"\"\"\"\"\""),
        vec![Token::MultilineString(String::new()), Token::EOF]
    );
}

#[test]
fn triple_quotes_run_to_the_last_closing() {
    assert_eq!(
        tokenize("\"\"\"a\"\"\" + \"\"\"b\"\"\""),
        vec![Token::MultilineString("a\"\"\" + \"\"\"b".to_string()), Token::EOF]
    );
}

#[test]
fn an_open_quote_is_unrecognised() {
    assert_eq!(tokenize("\"abc"), vec![Token::EOF, name("abc"), Token::EOF]);
    assert_eq!(
        tokenize("\"\"\"\"\""),
        vec![string(""), string(""), Token::EOF, Token::EOF]
    );
}

#[test]
fn comments_run_to_the_end_of_the_line() {
    assert_eq!(tokenize("! a comment\nx"), vec![name("x"), Token::EOF]);
    assert_eq!(tokenize("x ! trailing"), vec![name("x"), Token::EOF]);
    assert_eq!(tokenize("!"), vec![Token::EOF]);
    assert_eq!(tokenize("!x"), vec![Token::EOF]);
}

#[test]
fn a_comment_outranks_what_shares_its_start() {
    assert_eq!(tokenize("a != b"), vec![name("a"), Token::EOF]);
    assert_eq!(tokenize("a !=\nb"), vec![name("a"), Token::NotEqual, name("b"), Token::EOF]);
    assert_eq!(tokenize("a !="), vec![name("a"), Token::NotEqual, Token::EOF]);
    assert_eq!(tokenize("!doc"), vec![Token::DocComment, Token::EOF]);
    assert_eq!(tokenize("!doc\nx"), vec![Token::DocComment, name("x"), Token::EOF]);
    assert_eq!(tokenize("!doc x"), vec![Token::EOF]);
    assert_eq!(tokenize("!docs"), vec![Token::EOF]);
}

#[test]
fn symbols_of_two_characters_win() {
    assert_eq!(
        tokenize("+ - * / // % ^ ( ) { } [ ] , . .. & : -> ' | > < >= <= == =>"),
        vec![
            Token::Plus, Token::Minus, Token::Star, Token::Slash, Token::IntegerDivide,
            Token::Modulo, Token::Power, Token::LeftParen, Token::RightParen, Token::LeftBrace,
            Token::RightBrace, Token::LeftBracket, Token::RightBracket, Token::Comma, Token::Dot,
            Token::Range, Token::Ampersand, Token::Colon, Token::Arrow, Token::Apostrophe,
            Token::Pipe, Token::Greater, Token::Less, Token::GreaterEqual, Token::LessEqual,
            Token::EqualEqual, Token::FatArrow, Token::EOF
        ]
    );
    assert_eq!(tokenize("..."), vec![Token::Range, Token::Dot, Token::EOF]);
    assert_eq!(tokenize("///"), vec![Token::IntegerDivide, Token::Slash, Token::EOF]);
}

#[test]
fn an_unrecognised_character_gives_the_end_token() {
    assert_eq!(tokenize("1 = 2"), vec![number("1"), Token::EOF, number("2"), Token::EOF]);
    assert_eq!(tokenize("@x"), vec![Token::EOF, name("x"), Token::EOF]);
    assert_eq!(tokenize("a\rb"), vec![name("a"), Token::EOF, name("b"), Token::EOF]);
    assert_eq!(tokenize("é"), vec![Token::EOF, Token::EOF]);
}

#[test]
fn the_lexer_hands_tokens_out_one_by_one() {
    let mut lexer = Lexer::new("x ! note\n+");
    assert_eq!(lexer.next(), Some(name("x")));
    assert_eq!(lexer.next(), Some(Token::Plus));
    assert_eq!(lexer.next(), Some(Token::EOF));
    assert_eq!(lexer.next(), None);
    assert_eq!(lexer.next(), None);
}

#[test]
fn a_token_has_a_tag_and_a_text() {
    assert_eq!(name("abc").kind(), TokenKind::Identifier);
    assert_eq!(name("abc").text(), "abc");
    assert_eq!(Token::Plus.kind(), TokenKind::Plus);
    assert_eq!(Token::Plus.text(), "");
    assert_eq!(TokenKind::NumberType.name(), "NumberType");
    assert_eq!(Token::of_kind(TokenKind::String, "s".to_string()), string("s"));
    assert_eq!(Token::of_kind(TokenKind::Comma, "s".to_string()), Token::Comma);
    assert_eq!(name("abc").clone(), name("abc"));
    assert_eq!(Token::While.clone(), Token::While);
}
