use vstd::prelude::*;
use vstd::string::StringExecFns;

verus! {

/// The tag of a token: which keyword, symbol or literal class it is, without
/// any text it may carry. The grammar matches tokens by tag alone.
#[derive(Clone, Copy, Debug, PartialEq, Eq, Structural)]
pub enum TokenKind {
    By,
    Is,
    ForNow,
    Change,
    To,
    If,
    Else,
    Unless,
    Of,
    For,
    In,
    While,
    Break,
    Continue,
    Produce,
    Import,
    Module,
    From,
    As,
    See,
    Record,
    Variant,
    Write,
    Otherwise,
    TypePrefix,
    NumberType,
    IntegerType,
    TextType,
    DecisionType,
    NothingType,
    BlissType,
    AnyType,
    ListType,
    MapType,
    TupleType,
    ResultType,
    ShapeType,
    Yes,
    No,
    Nothing,
    ExclamationMark,
    DocComment,
    Plus,
    Minus,
    Star,
    Slash,
    IntegerDivide,
    Modulo,
    Power,
    LeftParen,
    RightParen,
    LeftBrace,
    RightBrace,
    LeftBracket,
    RightBracket,
    Comma,
    Dot,
    Range,
    Ampersand,
    Colon,
    Arrow,
    Apostrophe,
    Pipe,
    Greater,
    Less,
    GreaterEqual,
    LessEqual,
    EqualEqual,
    NotEqual,
    FatArrow,
    Number,
    String,
    MultilineString,
    Identifier,
    Whitespace,
    Comment,
    EOF,
}

/// A lexical unit. A number keeps its decimal spelling, a string its content
/// without the quotes, an identifier its name.
#[derive(Debug, PartialEq)]
pub enum Token {
    By,
    Is,
    ForNow,
    Change,
    To,
    If,
    Else,
    Unless,
    Of,
    For,
    In,
    While,
    Break,
    Continue,
    Produce,
    Import,
    Module,
    From,
    As,
    See,
    Record,
    Variant,
    Write,
    Otherwise,
    TypePrefix,
    NumberType,
    IntegerType,
    TextType,
    DecisionType,
    NothingType,
    BlissType,
    AnyType,
    ListType,
    MapType,
    TupleType,
    ResultType,
    ShapeType,
    Yes,
    No,
    Nothing,
    ExclamationMark,
    DocComment,
    Plus,
    Minus,
    Star,
    Slash,
    IntegerDivide,
    Modulo,
    Power,
    LeftParen,
    RightParen,
    LeftBrace,
    RightBrace,
    LeftBracket,
    RightBracket,
    Comma,
    Dot,
    Range,
    Ampersand,
    Colon,
    Arrow,
    Apostrophe,
    Pipe,
    Greater,
    Less,
    GreaterEqual,
    LessEqual,
    EqualEqual,
    NotEqual,
    FatArrow,
    Number(String),
    String(String),
    MultilineString(String),
    Identifier(String),
    Whitespace,
    Comment,
    EOF,
}

/// The mathematical value of a token: its tag and the text it carries (empty
/// for tokens without text).
pub struct TokenView {
    pub kind: TokenKind,
    pub text: Seq<char>,
}

impl View for Token {
    type V = TokenView;

    open spec fn view(&self) -> TokenView {
        TokenView { kind: self.spec_kind(), text: self.spec_text() }
    }
}

impl TokenView {
    /// A token of the given tag that carries no text.
    pub open spec fn plain(kind: TokenKind) -> TokenView {
        TokenView { kind, text: Seq::empty() }
    }
}

impl TokenKind {
    /// Whether tokens of this tag carry text.
    pub open spec fn carries_text(self) -> bool {
        self == TokenKind::Number || self == TokenKind::String || self == TokenKind::MultilineString
            || self == TokenKind::Identifier
    }

    /// The name of the tag, as it is written in diagnostics and in rendered
    /// syntax trees.
    pub open spec fn spec_name(self) -> Seq<char> {
        match self {
            TokenKind::By => "By"@,
            TokenKind::Is => "Is"@,
            TokenKind::ForNow => "ForNow"@,
            TokenKind::Change => "Change"@,
            TokenKind::To => "To"@,
            TokenKind::If => "If"@,
            TokenKind::Else => "Else"@,
            TokenKind::Unless => "Unless"@,
            TokenKind::Of => "Of"@,
            TokenKind::For => "For"@,
            TokenKind::In => "In"@,
            TokenKind::While => "While"@,
            TokenKind::Break => "Break"@,
            TokenKind::Continue => "Continue"@,
            TokenKind::Produce => "Produce"@,
            TokenKind::Import => "Import"@,
            TokenKind::Module => "Module"@,
            TokenKind::From => "From"@,
            TokenKind::As => "As"@,
            TokenKind::See => "See"@,
            TokenKind::Record => "Record"@,
            TokenKind::Variant => "Variant"@,
            TokenKind::Write => "Write"@,
            TokenKind::Otherwise => "Otherwise"@,
            TokenKind::TypePrefix => "TypePrefix"@,
            TokenKind::NumberType => "NumberType"@,
            TokenKind::IntegerType => "IntegerType"@,
            TokenKind::TextType => "TextType"@,
            TokenKind::DecisionType => "DecisionType"@,
            TokenKind::NothingType => "NothingType"@,
            TokenKind::BlissType => "BlissType"@,
            TokenKind::AnyType => "AnyType"@,
            TokenKind::ListType => "ListType"@,
            TokenKind::MapType => "MapType"@,
            TokenKind::TupleType => "TupleType"@,
            TokenKind::ResultType => "ResultType"@,
            TokenKind::ShapeType => "ShapeType"@,
            TokenKind::Yes => "Yes"@,
            TokenKind::No => "No"@,
            TokenKind::Nothing => "Nothing"@,
            TokenKind::ExclamationMark => "ExclamationMark"@,
            TokenKind::DocComment => "DocComment"@,
            TokenKind::Plus => "Plus"@,
            TokenKind::Minus => "Minus"@,
            TokenKind::Star => "Star"@,
            TokenKind::Slash => "Slash"@,
            TokenKind::IntegerDivide => "IntegerDivide"@,
            TokenKind::Modulo => "Modulo"@,
            TokenKind::Power => "Power"@,
            TokenKind::LeftParen => "LeftParen"@,
            TokenKind::RightParen => "RightParen"@,
            TokenKind::LeftBrace => "LeftBrace"@,
            TokenKind::RightBrace => "RightBrace"@,
            TokenKind::LeftBracket => "LeftBracket"@,
            TokenKind::RightBracket => "RightBracket"@,
            TokenKind::Comma => "Comma"@,
            TokenKind::Dot => "Dot"@,
            TokenKind::Range => "Range"@,
            TokenKind::Ampersand => "Ampersand"@,
            TokenKind::Colon => "Colon"@,
            TokenKind::Arrow => "Arrow"@,
            TokenKind::Apostrophe => "Apostrophe"@,
            TokenKind::Pipe => "Pipe"@,
            TokenKind::Greater => "Greater"@,
            TokenKind::Less => "Less"@,
            TokenKind::GreaterEqual => "GreaterEqual"@,
            TokenKind::LessEqual => "LessEqual"@,
            TokenKind::EqualEqual => "EqualEqual"@,
            TokenKind::NotEqual => "NotEqual"@,
            TokenKind::FatArrow => "FatArrow"@,
            TokenKind::Number => "Number"@,
            TokenKind::String => "String"@,
            TokenKind::MultilineString => "MultilineString"@,
            TokenKind::Identifier => "Identifier"@,
            TokenKind::Whitespace => "Whitespace"@,
            TokenKind::Comment => "Comment"@,
            TokenKind::EOF => "EOF"@,
        }
    }

    /// The name of the tag.
    pub fn name(self) -> (r: &'static str)
        ensures
            r@ == self.spec_name(),
    {
        match self {
            TokenKind::By => "By",
            TokenKind::Is => "Is",
            TokenKind::ForNow => "ForNow",
            TokenKind::Change => "Change",
            TokenKind::To => "To",
            TokenKind::If => "If",
            TokenKind::Else => "Else",
            TokenKind::Unless => "Unless",
            TokenKind::Of => "Of",
            TokenKind::For => "For",
            TokenKind::In => "In",
            TokenKind::While => "While",
            TokenKind::Break => "Break",
            TokenKind::Continue => "Continue",
            TokenKind::Produce => "Produce",
            TokenKind::Import => "Import",
            TokenKind::Module => "Module",
            TokenKind::From => "From",
            TokenKind::As => "As",
            TokenKind::See => "See",
            TokenKind::Record => "Record",
            TokenKind::Variant => "Variant",
            TokenKind::Write => "Write",
            TokenKind::Otherwise => "Otherwise",
            TokenKind::TypePrefix => "TypePrefix",
            TokenKind::NumberType => "NumberType",
            TokenKind::IntegerType => "IntegerType",
            TokenKind::TextType => "TextType",
            TokenKind::DecisionType => "DecisionType",
            TokenKind::NothingType => "NothingType",
            TokenKind::BlissType => "BlissType",
            TokenKind::AnyType => "AnyType",
            TokenKind::ListType => "ListType",
            TokenKind::MapType => "MapType",
            TokenKind::TupleType => "TupleType",
            TokenKind::ResultType => "ResultType",
            TokenKind::ShapeType => "ShapeType",
            TokenKind::Yes => "Yes",
            TokenKind::No => "No",
            TokenKind::Nothing => "Nothing",
            TokenKind::ExclamationMark => "ExclamationMark",
            TokenKind::DocComment => "DocComment",
            TokenKind::Plus => "Plus",
            TokenKind::Minus => "Minus",
            TokenKind::Star => "Star",
            TokenKind::Slash => "Slash",
            TokenKind::IntegerDivide => "IntegerDivide",
            TokenKind::Modulo => "Modulo",
            TokenKind::Power => "Power",
            TokenKind::LeftParen => "LeftParen",
            TokenKind::RightParen => "RightParen",
            TokenKind::LeftBrace => "LeftBrace",
            TokenKind::RightBrace => "RightBrace",
            TokenKind::LeftBracket => "LeftBracket",
            TokenKind::RightBracket => "RightBracket",
            TokenKind::Comma => "Comma",
            TokenKind::Dot => "Dot",
            TokenKind::Range => "Range",
            TokenKind::Ampersand => "Ampersand",
            TokenKind::Colon => "Colon",
            TokenKind::Arrow => "Arrow",
            TokenKind::Apostrophe => "Apostrophe",
            TokenKind::Pipe => "Pipe",
            TokenKind::Greater => "Greater",
            TokenKind::Less => "Less",
            TokenKind::GreaterEqual => "GreaterEqual",
            TokenKind::LessEqual => "LessEqual",
            TokenKind::EqualEqual => "EqualEqual",
            TokenKind::NotEqual => "NotEqual",
            TokenKind::FatArrow => "FatArrow",
            TokenKind::Number => "Number",
            TokenKind::String => "String",
            TokenKind::MultilineString => "MultilineString",
            TokenKind::Identifier => "Identifier",
            TokenKind::Whitespace => "Whitespace",
            TokenKind::Comment => "Comment",
            TokenKind::EOF => "EOF",
        }
    }
}

impl Token {
    /// The tag of this token.
    pub closed spec fn spec_kind(&self) -> TokenKind {
        match self {
            Token::By => TokenKind::By,
            Token::Is => TokenKind::Is,
            Token::ForNow => TokenKind::ForNow,
            Token::Change => TokenKind::Change,
            Token::To => TokenKind::To,
            Token::If => TokenKind::If,
            Token::Else => TokenKind::Else,
            Token::Unless => TokenKind::Unless,
            Token::Of => TokenKind::Of,
            Token::For => TokenKind::For,
            Token::In => TokenKind::In,
            Token::While => TokenKind::While,
            Token::Break => TokenKind::Break,
            Token::Continue => TokenKind::Continue,
            Token::Produce => TokenKind::Produce,
            Token::Import => TokenKind::Import,
            Token::Module => TokenKind::Module,
            Token::From => TokenKind::From,
            Token::As => TokenKind::As,
            Token::See => TokenKind::See,
            Token::Record => TokenKind::Record,
            Token::Variant => TokenKind::Variant,
            Token::Write => TokenKind::Write,
            Token::Otherwise => TokenKind::Otherwise,
            Token::TypePrefix => TokenKind::TypePrefix,
            Token::NumberType => TokenKind::NumberType,
            Token::IntegerType => TokenKind::IntegerType,
            Token::TextType => TokenKind::TextType,
            Token::DecisionType => TokenKind::DecisionType,
            Token::NothingType => TokenKind::NothingType,
            Token::BlissType => TokenKind::BlissType,
            Token::AnyType => TokenKind::AnyType,
            Token::ListType => TokenKind::ListType,
            Token::MapType => TokenKind::MapType,
            Token::TupleType => TokenKind::TupleType,
            Token::ResultType => TokenKind::ResultType,
            Token::ShapeType => TokenKind::ShapeType,
            Token::Yes => TokenKind::Yes,
            Token::No => TokenKind::No,
            Token::Nothing => TokenKind::Nothing,
            Token::ExclamationMark => TokenKind::ExclamationMark,
            Token::DocComment => TokenKind::DocComment,
            Token::Plus => TokenKind::Plus,
            Token::Minus => TokenKind::Minus,
            Token::Star => TokenKind::Star,
            Token::Slash => TokenKind::Slash,
            Token::IntegerDivide => TokenKind::IntegerDivide,
            Token::Modulo => TokenKind::Modulo,
            Token::Power => TokenKind::Power,
            Token::LeftParen => TokenKind::LeftParen,
            Token::RightParen => TokenKind::RightParen,
            Token::LeftBrace => TokenKind::LeftBrace,
            Token::RightBrace => TokenKind::RightBrace,
            Token::LeftBracket => TokenKind::LeftBracket,
            Token::RightBracket => TokenKind::RightBracket,
            Token::Comma => TokenKind::Comma,
            Token::Dot => TokenKind::Dot,
            Token::Range => TokenKind::Range,
            Token::Ampersand => TokenKind::Ampersand,
            Token::Colon => TokenKind::Colon,
            Token::Arrow => TokenKind::Arrow,
            Token::Apostrophe => TokenKind::Apostrophe,
            Token::Pipe => TokenKind::Pipe,
            Token::Greater => TokenKind::Greater,
            Token::Less => TokenKind::Less,
            Token::GreaterEqual => TokenKind::GreaterEqual,
            Token::LessEqual => TokenKind::LessEqual,
            Token::EqualEqual => TokenKind::EqualEqual,
            Token::NotEqual => TokenKind::NotEqual,
            Token::FatArrow => TokenKind::FatArrow,
            Token::Number(_) => TokenKind::Number,
            Token::String(_) => TokenKind::String,
            Token::MultilineString(_) => TokenKind::MultilineString,
            Token::Identifier(_) => TokenKind::Identifier,
            Token::Whitespace => TokenKind::Whitespace,
            Token::Comment => TokenKind::Comment,
            Token::EOF => TokenKind::EOF,
        }
    }

    /// The text this token carries; empty for a token without text.
    pub closed spec fn spec_text(&self) -> Seq<char> {
        match self {
            Token::Number(s) => s@,
            Token::String(s) => s@,
            Token::MultilineString(s) => s@,
            Token::Identifier(s) => s@,
            _ => Seq::empty(),
        }
    }

    /// The tag of this token.
    pub fn kind(&self) -> (k: TokenKind)
        ensures
            k == self@.kind,
    {
        match self {
            Token::By => TokenKind::By,
            Token::Is => TokenKind::Is,
            Token::ForNow => TokenKind::ForNow,
            Token::Change => TokenKind::Change,
            Token::To => TokenKind::To,
            Token::If => TokenKind::If,
            Token::Else => TokenKind::Else,
            Token::Unless => TokenKind::Unless,
            Token::Of => TokenKind::Of,
            Token::For => TokenKind::For,
            Token::In => TokenKind::In,
            Token::While => TokenKind::While,
            Token::Break => TokenKind::Break,
            Token::Continue => TokenKind::Continue,
            Token::Produce => TokenKind::Produce,
            Token::Import => TokenKind::Import,
            Token::Module => TokenKind::Module,
            Token::From => TokenKind::From,
            Token::As => TokenKind::As,
            Token::See => TokenKind::See,
            Token::Record => TokenKind::Record,
            Token::Variant => TokenKind::Variant,
            Token::Write => TokenKind::Write,
            Token::Otherwise => TokenKind::Otherwise,
            Token::TypePrefix => TokenKind::TypePrefix,
            Token::NumberType => TokenKind::NumberType,
            Token::IntegerType => TokenKind::IntegerType,
            Token::TextType => TokenKind::TextType,
            Token::DecisionType => TokenKind::DecisionType,
            Token::NothingType => TokenKind::NothingType,
            Token::BlissType => TokenKind::BlissType,
            Token::AnyType => TokenKind::AnyType,
            Token::ListType => TokenKind::ListType,
            Token::MapType => TokenKind::MapType,
            Token::TupleType => TokenKind::TupleType,
            Token::ResultType => TokenKind::ResultType,
            Token::ShapeType => TokenKind::ShapeType,
            Token::Yes => TokenKind::Yes,
            Token::No => TokenKind::No,
            Token::Nothing => TokenKind::Nothing,
            Token::ExclamationMark => TokenKind::ExclamationMark,
            Token::DocComment => TokenKind::DocComment,
            Token::Plus => TokenKind::Plus,
            Token::Minus => TokenKind::Minus,
            Token::Star => TokenKind::Star,
            Token::Slash => TokenKind::Slash,
            Token::IntegerDivide => TokenKind::IntegerDivide,
            Token::Modulo => TokenKind::Modulo,
            Token::Power => TokenKind::Power,
            Token::LeftParen => TokenKind::LeftParen,
            Token::RightParen => TokenKind::RightParen,
            Token::LeftBrace => TokenKind::LeftBrace,
            Token::RightBrace => TokenKind::RightBrace,
            Token::LeftBracket => TokenKind::LeftBracket,
            Token::RightBracket => TokenKind::RightBracket,
            Token::Comma => TokenKind::Comma,
            Token::Dot => TokenKind::Dot,
            Token::Range => TokenKind::Range,
            Token::Ampersand => TokenKind::Ampersand,
            Token::Colon => TokenKind::Colon,
            Token::Arrow => TokenKind::Arrow,
            Token::Apostrophe => TokenKind::Apostrophe,
            Token::Pipe => TokenKind::Pipe,
            Token::Greater => TokenKind::Greater,
            Token::Less => TokenKind::Less,
            Token::GreaterEqual => TokenKind::GreaterEqual,
            Token::LessEqual => TokenKind::LessEqual,
            Token::EqualEqual => TokenKind::EqualEqual,
            Token::NotEqual => TokenKind::NotEqual,
            Token::FatArrow => TokenKind::FatArrow,
            Token::Number(_) => TokenKind::Number,
            Token::String(_) => TokenKind::String,
            Token::MultilineString(_) => TokenKind::MultilineString,
            Token::Identifier(_) => TokenKind::Identifier,
            Token::Whitespace => TokenKind::Whitespace,
            Token::Comment => TokenKind::Comment,
            Token::EOF => TokenKind::EOF,
        }
    }

    /// The text this token carries; empty for a token without text.
    pub fn text(&self) -> (r: &str)
        ensures
            r@ == self@.text,
    {
        match self {
            Token::Number(s) => s.as_str(),
            Token::String(s) => s.as_str(),
            Token::MultilineString(s) => s.as_str(),
            Token::Identifier(s) => s.as_str(),
            _ => {
                proof {
                    reveal_strlit("");
                }
                assert(""@ =~= Seq::<char>::empty());
                ""
            },
        }
    }

    /// The token of tag `kind`; `text` is kept where tokens of that tag carry
    /// text and dropped otherwise.
    pub fn of_kind(kind: TokenKind, text: String) -> (t: Token)
        ensures
            t@.kind == kind,
            t@.text == if kind.carries_text() { text@ } else { Seq::empty() },
    {
        match kind {
            TokenKind::By => Token::By,
            TokenKind::Is => Token::Is,
            TokenKind::ForNow => Token::ForNow,
            TokenKind::Change => Token::Change,
            TokenKind::To => Token::To,
            TokenKind::If => Token::If,
            TokenKind::Else => Token::Else,
            TokenKind::Unless => Token::Unless,
            TokenKind::Of => Token::Of,
            TokenKind::For => Token::For,
            TokenKind::In => Token::In,
            TokenKind::While => Token::While,
            TokenKind::Break => Token::Break,
            TokenKind::Continue => Token::Continue,
            TokenKind::Produce => Token::Produce,
            TokenKind::Import => Token::Import,
            TokenKind::Module => Token::Module,
            TokenKind::From => Token::From,
            TokenKind::As => Token::As,
            TokenKind::See => Token::See,
            TokenKind::Record => Token::Record,
            TokenKind::Variant => Token::Variant,
            TokenKind::Write => Token::Write,
            TokenKind::Otherwise => Token::Otherwise,
            TokenKind::TypePrefix => Token::TypePrefix,
            TokenKind::NumberType => Token::NumberType,
            TokenKind::IntegerType => Token::IntegerType,
            TokenKind::TextType => Token::TextType,
            TokenKind::DecisionType => Token::DecisionType,
            TokenKind::NothingType => Token::NothingType,
            TokenKind::BlissType => Token::BlissType,
            TokenKind::AnyType => Token::AnyType,
            TokenKind::ListType => Token::ListType,
            TokenKind::MapType => Token::MapType,
            TokenKind::TupleType => Token::TupleType,
            TokenKind::ResultType => Token::ResultType,
            TokenKind::ShapeType => Token::ShapeType,
            TokenKind::Yes => Token::Yes,
            TokenKind::No => Token::No,
            TokenKind::Nothing => Token::Nothing,
            TokenKind::ExclamationMark => Token::ExclamationMark,
            TokenKind::DocComment => Token::DocComment,
            TokenKind::Plus => Token::Plus,
            TokenKind::Minus => Token::Minus,
            TokenKind::Star => Token::Star,
            TokenKind::Slash => Token::Slash,
            TokenKind::IntegerDivide => Token::IntegerDivide,
            TokenKind::Modulo => Token::Modulo,
            TokenKind::Power => Token::Power,
            TokenKind::LeftParen => Token::LeftParen,
            TokenKind::RightParen => Token::RightParen,
            TokenKind::LeftBrace => Token::LeftBrace,
            TokenKind::RightBrace => Token::RightBrace,
            TokenKind::LeftBracket => Token::LeftBracket,
            TokenKind::RightBracket => Token::RightBracket,
            TokenKind::Comma => Token::Comma,
            TokenKind::Dot => Token::Dot,
            TokenKind::Range => Token::Range,
            TokenKind::Ampersand => Token::Ampersand,
            TokenKind::Colon => Token::Colon,
            TokenKind::Arrow => Token::Arrow,
            TokenKind::Apostrophe => Token::Apostrophe,
            TokenKind::Pipe => Token::Pipe,
            TokenKind::Greater => Token::Greater,
            TokenKind::Less => Token::Less,
            TokenKind::GreaterEqual => Token::GreaterEqual,
            TokenKind::LessEqual => Token::LessEqual,
            TokenKind::EqualEqual => Token::EqualEqual,
            TokenKind::NotEqual => Token::NotEqual,
            TokenKind::FatArrow => Token::FatArrow,
            TokenKind::Number => Token::Number(text),
            TokenKind::String => Token::String(text),
            TokenKind::MultilineString => Token::MultilineString(text),
            TokenKind::Identifier => Token::Identifier(text),
            TokenKind::Whitespace => Token::Whitespace,
            TokenKind::Comment => Token::Comment,
            TokenKind::EOF => Token::EOF,
        }
    }
}

impl TokenView {
    /// The token as it is written in messages: a number as it is spelled, a
    /// string between its quotes, a name as it is, every other token by the
    /// name of its tag.
    pub open spec fn to_text(self) -> Seq<char> {
        if self.kind == TokenKind::Number || self.kind == TokenKind::Identifier {
            self.text
        } else if self.kind == TokenKind::String {
            "\""@ + self.text + "\""@
        } else if self.kind == TokenKind::MultilineString {
            "\"\"\""@ + self.text + "\"\"\""@
        } else {
            self.kind.spec_name()
        }
    }
}

impl Token {
    /// The token as it is written in messages.
    pub fn to_text(&self) -> (r: String)
        ensures
            r@ == self@.to_text(),
    {
        match self {
            Token::Number(s) => s.clone(),
            Token::Identifier(s) => s.clone(),
            Token::String(s) => {
                let mut r = "\"".to_owned();
                r.append(s.as_str());
                r.append("\"");
                r
            },
            Token::MultilineString(s) => {
                let mut r = "\"\"\"".to_owned();
                r.append(s.as_str());
                r.append("\"\"\"");
                r
            },
            _ => self.kind().name().to_owned(),
        }
    }
}

impl Clone for Token {
    fn clone(&self) -> (r: Self)
        ensures
            r@ == self@,
    {
        match self {
            Token::Number(s) => Token::Number(s.clone()),
            Token::String(s) => Token::String(s.clone()),
            Token::MultilineString(s) => Token::MultilineString(s.clone()),
            Token::Identifier(s) => Token::Identifier(s.clone()),
            _ => {
                let t = Token::of_kind(self.kind(), String::new());
                assert(t@.text =~= self@.text);
                t
            },
        }
    }
}

/// The views of a list of tokens.
#[verifier::opaque]
pub open spec fn token_views(v: Seq<Token>) -> Seq<TokenView> {
    Seq::new(v.len(), |i: int| v[i]@)
}

/// The views of no tokens are no views.
pub proof fn lemma_token_views_empty()
    ensures
        token_views(Seq::empty()) == Seq::<TokenView>::empty(),
{
    reveal(token_views);
    assert(token_views(Seq::empty()) =~= Seq::<TokenView>::empty());
}

/// The views of a list with one more token are the views of the list with the
/// view of that token added.
pub proof fn lemma_token_views_push(v: Seq<Token>, last: Token)
    ensures
        token_views(v.push(last)) == token_views(v).push(last@),
{
    reveal(token_views);
    assert(token_views(v.push(last)) =~= token_views(v).push(last@));
}

/// The views of a list of tokens are as many as the tokens, each the view of
/// the token in its place.
pub proof fn lemma_token_views_index(v: Seq<Token>)
    ensures
        token_views(v).len() == v.len(),
        forall|i: int| 0 <= i < v.len() ==> (#[trigger] token_views(v)[i]) == v[i]@,
{
    reveal(token_views);
}

} // verus!
