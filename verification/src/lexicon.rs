//! The lexical rules of the language: which lexeme starts at a position of the
//! source text, and which token it gives. At every position the longest
//! lexeme wins; where two rules give the same length, the ranking stated with
//! the rule decides.
use crate::token::{TokenKind, TokenView};
use vstd::prelude::*;

verus! {

/// A class of characters that a lexeme is made of.
#[derive(Clone, Copy, Debug, PartialEq, Eq, Structural)]
pub enum CharClass {
    /// Blank, tab, line feed or form feed.
    Space,
    /// A decimal digit.
    Digit,
    /// What may follow the first letter of a name: letters, digits, `_`, `-`.
    NamePart,
    /// Anything but a line feed.
    LineRest,
    /// Anything but a double quote.
    StringBody,
}

/// Whether `c` is a letter of the Latin alphabet without marks.
pub open spec fn is_letter(c: char) -> bool {
    ('a' <= c && c <= 'z') || ('A' <= c && c <= 'Z')
}

/// Whether `c` is a decimal digit.
pub open spec fn is_digit(c: char) -> bool {
    '0' <= c && c <= '9'
}

impl CharClass {
    /// Whether `c` belongs to this class.
    pub open spec fn has(self, c: char) -> bool {
        match self {
            CharClass::Space => c == ' ' || c == '\t' || c == '\n' || c == '\x0c',
            CharClass::Digit => is_digit(c),
            CharClass::NamePart => is_letter(c) || is_digit(c) || c == '_' || c == '-',
            CharClass::LineRest => c != '\n',
            CharClass::StringBody => c != '"',
        }
    }
}

/// What one step of the scan finds: the token of the lexeme (none for blank
/// space and comments) and the position after the lexeme.
pub struct Lexeme {
    pub token: Option<TokenView>,
    pub end: nat,
}

/// The position after the longest run of characters of `class` from `pos` on.
pub open spec fn run_end(s: Seq<char>, pos: nat, class: CharClass) -> nat
    decreases s.len() - pos,
{
    if pos < s.len() && class.has(s[pos as int]) {
        run_end(s, pos + 1, class)
    } else {
        pos
    }
}

/// Whether `word` stands in `s` at `pos`.
pub open spec fn word_at(s: Seq<char>, pos: nat, word: Seq<char>) -> bool {
    pos + word.len() <= s.len() && s.subrange(pos as int, (pos + word.len()) as int) == word
}

/// The character of `s` at `pos`, if there is one.
pub open spec fn char_at(s: Seq<char>, pos: nat) -> Option<char> {
    if pos < s.len() {
        Some(s[pos as int])
    } else {
        None
    }
}

/// A lexeme without a token, up to `end`.
pub open spec fn skipped(end: nat) -> Lexeme {
    Lexeme { token: None, end }
}

/// A lexeme that gives the bare token of tag `kind`, up to `end`.
pub open spec fn plain(kind: TokenKind, end: nat) -> Lexeme {
    Lexeme { token: Some(TokenView::plain(kind)), end }
}

/// A lexeme that gives the token of tag `kind` with `text`, up to `end`.
pub open spec fn carrying(kind: TokenKind, text: Seq<char>, end: nat) -> Lexeme {
    Lexeme { token: Some(TokenView { kind, text }), end }
}

/// An unrecognised character at `pos`: it alone is passed, and the token is
/// the end-of-input token.
pub open spec fn unrecognised(pos: nat) -> Lexeme {
    plain(TokenKind::EOF, pos + 1)
}

/// The keyword that `text` spells, if it spells one.
#[verifier::opaque]
pub open spec fn keyword(text: Seq<char>) -> Option<TokenKind> {
    if text == "by"@ {
        Some(TokenKind::By)
    } else if text == "is"@ {
        Some(TokenKind::Is)
    } else if text == "forNow"@ {
        Some(TokenKind::ForNow)
    } else if text == "change"@ {
        Some(TokenKind::Change)
    } else if text == "to"@ {
        Some(TokenKind::To)
    } else if text == "if"@ {
        Some(TokenKind::If)
    } else if text == "else"@ {
        Some(TokenKind::Else)
    } else if text == "unless"@ {
        Some(TokenKind::Unless)
    } else if text == "of"@ {
        Some(TokenKind::Of)
    } else if text == "for"@ {
        Some(TokenKind::For)
    } else if text == "in"@ {
        Some(TokenKind::In)
    } else if text == "while"@ {
        Some(TokenKind::While)
    } else if text == "break"@ {
        Some(TokenKind::Break)
    } else if text == "continue"@ {
        Some(TokenKind::Continue)
    } else if text == "produce"@ {
        Some(TokenKind::Produce)
    } else if text == "import"@ {
        Some(TokenKind::Import)
    } else if text == "module"@ {
        Some(TokenKind::Module)
    } else if text == "from"@ {
        Some(TokenKind::From)
    } else if text == "as"@ {
        Some(TokenKind::As)
    } else if text == "see"@ {
        Some(TokenKind::See)
    } else if text == "record"@ {
        Some(TokenKind::Record)
    } else if text == "variant"@ {
        Some(TokenKind::Variant)
    } else if text == "write"@ {
        Some(TokenKind::Write)
    } else if text == "otherwise"@ {
        Some(TokenKind::Otherwise)
    } else if text == "yes"@ {
        Some(TokenKind::Yes)
    } else if text == "no"@ {
        Some(TokenKind::No)
    } else if text == "nothing"@ {
        Some(TokenKind::Nothing)
    } else {
        None
    }
}

/// A word from `pos` on, where a letter stands: the longest name. It is a
/// keyword where it spells one, else an identifier.
pub open spec fn word(s: Seq<char>, pos: nat) -> Lexeme {
    let end = run_end(s, pos + 1, CharClass::NamePart);
    let text = s.subrange(pos as int, end as int);
    match keyword(text) {
        Some(kind) => plain(kind, end),
        None => carrying(TokenKind::Identifier, text, end),
    }
}

/// The position after the number whose digits begin at `pos`: the digits, and
/// a fraction where a dot and at least one digit follow them.
pub open spec fn number_end(s: Seq<char>, pos: nat) -> nat {
    let whole = run_end(s, pos, CharClass::Digit);
    if char_at(s, whole) == Some('.') && whole + 1 < s.len() && is_digit(s[whole + 1 as int]) {
        run_end(s, whole + 1, CharClass::Digit)
    } else {
        whole
    }
}

/// A number from `pos` on, whose digits begin at `digits`: at `pos`, or after
/// a sign at `pos`. The token keeps the spelling.
pub open spec fn number(s: Seq<char>, pos: nat, digits: nat) -> Lexeme {
    let end = number_end(s, digits);
    carrying(TokenKind::Number, s.subrange(pos as int, end as int), end)
}

/// Whether three double quotes stand in `s` at `pos`.
pub open spec fn triple_at(s: Seq<char>, pos: int) -> bool {
    0 <= pos && pos + 3 <= s.len() && s[pos] == '"' && s[pos + 1] == '"' && s[pos + 2] == '"'
}

/// The last position in `from ..= at` where three double quotes stand.
pub open spec fn last_triple(s: Seq<char>, from: int, at: int) -> Option<int>
    decreases at - from + 1,
{
    if at < from {
        None
    } else if triple_at(s, at) {
        Some(at)
    } else {
        last_triple(s, from, at - 1)
    }
}

/// A string from `pos` on, where a double quote stands. Between triple quotes
/// it runs to the last triple quote of the text, over any lines; else it runs
/// to the next double quote. The token keeps the content between the quotes.
/// A quote that nothing closes is unrecognised.
pub open spec fn quoted(s: Seq<char>, pos: nat) -> Lexeme {
    let close = if triple_at(s, pos as int) {
        last_triple(s, pos + 3 as int, s.len() - 3)
    } else {
        None
    };
    match close {
        Some(at) => carrying(
            TokenKind::MultilineString,
            s.subrange(pos + 3 as int, at),
            (at + 3) as nat,
        ),
        None => {
            let end = run_end(s, pos + 1, CharClass::StringBody);
            if end < s.len() {
                carrying(TokenKind::String, s.subrange(pos + 1 as int, end as int), end + 1)
            } else {
                unrecognised(pos)
            }
        },
    }
}

/// What stands at `pos`, where `!` stands: a comment to the end of the line,
/// which gives no token. Only where the whole rest of the line is `!doc` or
/// `!=` does that token outrank the comment.
pub open spec fn bang(s: Seq<char>, pos: nat) -> Lexeme {
    let end = run_end(s, pos + 1, CharClass::LineRest);
    if end == pos + 4 && word_at(s, pos + 1, "doc"@) {
        plain(TokenKind::DocComment, end)
    } else if end == pos + 2 && s[pos + 1 as int] == '=' {
        plain(TokenKind::NotEqual, end)
    } else {
        skipped(end)
    }
}

/// The type keyword whose name stands at `pos`, with the length of the name.
#[verifier::opaque]
pub open spec fn type_name_at(s: Seq<char>, pos: nat) -> Option<(TokenKind, nat)> {
    if word_at(s, pos, "Number"@) {
        Some((TokenKind::NumberType, "Number"@.len()))
    } else if word_at(s, pos, "Integer"@) {
        Some((TokenKind::IntegerType, "Integer"@.len()))
    } else if word_at(s, pos, "Text"@) {
        Some((TokenKind::TextType, "Text"@.len()))
    } else if word_at(s, pos, "Decision"@) {
        Some((TokenKind::DecisionType, "Decision"@.len()))
    } else if word_at(s, pos, "Nothing"@) {
        Some((TokenKind::NothingType, "Nothing"@.len()))
    } else if word_at(s, pos, "Bliss"@) {
        Some((TokenKind::BlissType, "Bliss"@.len()))
    } else if word_at(s, pos, "Any"@) {
        Some((TokenKind::AnyType, "Any"@.len()))
    } else if word_at(s, pos, "List"@) {
        Some((TokenKind::ListType, "List"@.len()))
    } else if word_at(s, pos, "Map"@) {
        Some((TokenKind::MapType, "Map"@.len()))
    } else if word_at(s, pos, "Tuple"@) {
        Some((TokenKind::TupleType, "Tuple"@.len()))
    } else if word_at(s, pos, "Result"@) {
        Some((TokenKind::ResultType, "Result"@.len()))
    } else if word_at(s, pos, "Shape"@) {
        Some((TokenKind::ShapeType, "Shape"@.len()))
    } else {
        None
    }
}

/// What stands at `pos`, where `#` stands: a type keyword where the name of
/// one follows, else the bare type prefix.
pub open spec fn hash(s: Seq<char>, pos: nat) -> Lexeme {
    match type_name_at(s, pos + 1) {
        Some((kind, length)) => plain(kind, pos + 1 + length),
        None => plain(TokenKind::TypePrefix, pos + 1),
    }
}

/// The tag of the symbol that the single character `c` is.
pub open spec fn single_symbol(c: char) -> Option<TokenKind> {
    if c == '+' {
        Some(TokenKind::Plus)
    } else if c == '-' {
        Some(TokenKind::Minus)
    } else if c == '*' {
        Some(TokenKind::Star)
    } else if c == '/' {
        Some(TokenKind::Slash)
    } else if c == '%' {
        Some(TokenKind::Modulo)
    } else if c == '^' {
        Some(TokenKind::Power)
    } else if c == '(' {
        Some(TokenKind::LeftParen)
    } else if c == ')' {
        Some(TokenKind::RightParen)
    } else if c == '{' {
        Some(TokenKind::LeftBrace)
    } else if c == '}' {
        Some(TokenKind::RightBrace)
    } else if c == '[' {
        Some(TokenKind::LeftBracket)
    } else if c == ']' {
        Some(TokenKind::RightBracket)
    } else if c == ',' {
        Some(TokenKind::Comma)
    } else if c == '.' {
        Some(TokenKind::Dot)
    } else if c == '&' {
        Some(TokenKind::Ampersand)
    } else if c == ':' {
        Some(TokenKind::Colon)
    } else if c == '\'' {
        Some(TokenKind::Apostrophe)
    } else if c == '|' {
        Some(TokenKind::Pipe)
    } else if c == '>' {
        Some(TokenKind::Greater)
    } else if c == '<' {
        Some(TokenKind::Less)
    } else {
        None
    }
}

/// The tag of the symbol that the two characters `c` and `d` are.
pub open spec fn double_symbol(c: char, d: char) -> Option<TokenKind> {
    if c == '/' && d == '/' {
        Some(TokenKind::IntegerDivide)
    } else if c == '.' && d == '.' {
        Some(TokenKind::Range)
    } else if c == '-' && d == '>' {
        Some(TokenKind::Arrow)
    } else if c == '>' && d == '=' {
        Some(TokenKind::GreaterEqual)
    } else if c == '<' && d == '=' {
        Some(TokenKind::LessEqual)
    } else if c == '=' && d == '=' {
        Some(TokenKind::EqualEqual)
    } else if c == '=' && d == '>' {
        Some(TokenKind::FatArrow)
    } else {
        None
    }
}

/// A symbol at `pos`: of two characters where two make one, else of one. A
/// character that is no symbol is unrecognised.
pub open spec fn symbol(s: Seq<char>, pos: nat) -> Lexeme {
    let two = match char_at(s, pos + 1) {
        Some(d) => double_symbol(s[pos as int], d),
        None => None,
    };
    match two {
        Some(kind) => plain(kind, pos + 2),
        None => match single_symbol(s[pos as int]) {
            Some(kind) => plain(kind, pos + 1),
            None => unrecognised(pos),
        },
    }
}

/// The lexeme that starts at `pos`, a position within `s`.
pub open spec fn lexeme(s: Seq<char>, pos: nat) -> Lexeme {
    let c = s[pos as int];
    if CharClass::Space.has(c) {
        skipped(run_end(s, pos + 1, CharClass::Space))
    } else if c == '!' {
        bang(s, pos)
    } else if c == '#' {
        hash(s, pos)
    } else if c == '"' {
        quoted(s, pos)
    } else if is_digit(c) {
        number(s, pos, pos)
    } else if c == '-' && pos + 1 < s.len() && is_digit(s[pos + 1 as int]) {
        number(s, pos, pos + 1)
    } else if is_letter(c) {
        word(s, pos)
    } else {
        symbol(s, pos)
    }
}

/// The next token from `pos` on, past blank space and comments.
pub struct Emitted {
    pub token: TokenView,
    /// The position after the token.
    pub end: nat,
    /// Whether the text was exhausted: the token is then the end-of-input
    /// token that closes every token sequence.
    pub last: bool,
}

/// The closing token at `pos`.
pub open spec fn closing(pos: nat) -> Emitted {
    Emitted { token: TokenView::plain(TokenKind::EOF), end: pos, last: true }
}

/// The next token from `pos` on. A lexeme ends after its start and within the
/// text (`lemma_lexeme_advances`); the scan would close where one did not.
pub open spec fn next_token(s: Seq<char>, pos: nat) -> Emitted
    decreases s.len() - pos,
{
    if pos >= s.len() {
        closing(pos)
    } else {
        let found = lexeme(s, pos);
        if found.end <= pos || found.end > s.len() {
            closing(pos)
        } else {
            match found.token {
                Some(token) => Emitted { token, end: found.end, last: false },
                None => next_token(s, found.end),
            }
        }
    }
}

/// The tokens of `s` from `pos` on, after the tokens `done`: every token in
/// order, then the closing end-of-input token.
pub open spec fn tokens_from(s: Seq<char>, pos: nat, done: Seq<TokenView>) -> Seq<TokenView>
    decreases s.len() - pos,
{
    let next = next_token(s, pos);
    if next.last || next.end <= pos || next.end > s.len() {
        done.push(next.token)
    } else {
        tokens_from(s, next.end, done.push(next.token))
    }
}

/// The tokens of the source text `s`.
pub open spec fn tokens(s: Seq<char>) -> Seq<TokenView> {
    tokens_from(s, 0, Seq::empty())
}

/// A run ends at or after its start, within the text.
pub proof fn lemma_run_end_bounds(s: Seq<char>, pos: nat, class: CharClass)
    requires
        pos <= s.len(),
    ensures
        pos <= run_end(s, pos, class) <= s.len(),
    decreases s.len() - pos,
{
    if pos < s.len() && class.has(s[pos as int]) {
        lemma_run_end_bounds(s, pos + 1, class);
    }
}

/// A run ends where the text ends or a character outside the class stands.
pub proof fn lemma_run_end_stops(s: Seq<char>, pos: nat, class: CharClass)
    requires
        pos <= s.len(),
    ensures
        run_end(s, pos, class) < s.len() ==> !class.has(s[run_end(s, pos, class) as int]),
    decreases s.len() - pos,
{
    if pos < s.len() && class.has(s[pos as int]) {
        lemma_run_end_stops(s, pos + 1, class);
    }
}

/// The last triple quote found lies in the range that was searched.
pub proof fn lemma_last_triple_bounds(s: Seq<char>, from: int, at: int)
    ensures
        last_triple(s, from, at) matches Some(k) ==> from <= k <= at && triple_at(s, k),
    decreases at - from + 1,
{
    if at >= from && !triple_at(s, at) {
        lemma_last_triple_bounds(s, from, at - 1);
    }
}

/// A lexeme ends after its start and within the text: the scan always moves
/// on, and never past the end.
pub proof fn lemma_lexeme_advances(s: Seq<char>, pos: nat)
    requires
        pos < s.len(),
    ensures
        pos < lexeme(s, pos).end <= s.len(),
{
    lemma_run_end_bounds(s, pos + 1, CharClass::Space);
    lemma_run_end_bounds(s, pos + 1, CharClass::LineRest);
    lemma_run_end_bounds(s, pos + 1, CharClass::StringBody);
    lemma_run_end_bounds(s, pos + 1, CharClass::NamePart);
    lemma_last_triple_bounds(s, pos + 3 as int, s.len() - 3);
    assert(pos < hash(s, pos).end <= s.len()) by {
        reveal(type_name_at);
    }
    if is_digit(s[pos as int]) {
        lemma_number_end_bounds(s, pos);
    } else if pos + 1 < s.len() && is_digit(s[pos + 1 as int]) {
        lemma_number_end_bounds(s, pos + 1);
    }
}

/// A number ends after its first digit and within the text.
pub proof fn lemma_number_end_bounds(s: Seq<char>, digits: nat)
    requires
        digits < s.len(),
        is_digit(s[digits as int]),
    ensures
        digits < number_end(s, digits) <= s.len(),
{
    lemma_run_end_bounds(s, digits + 1, CharClass::Digit);
    let whole = run_end(s, digits, CharClass::Digit);
    assert(whole == run_end(s, digits + 1, CharClass::Digit));
    if whole + 1 < s.len() {
        lemma_run_end_bounds(s, whole + 1, CharClass::Digit);
    }
}

} // verus!
