use crate::lexicon;
use crate::lexicon::{CharClass, Lexeme};
use crate::token::{lemma_token_views_empty, lemma_token_views_push, token_views, Token, TokenKind};
use vstd::prelude::*;
use vstd::string::StrSliceExecFns;

verus! {

broadcast use vstd::string::group_string_axioms;

/// `String::push` appends one character to the string.
pub assume_specification[ std::string::String::push ](s: &mut std::string::String, c: char)
    ensures
        final(s)@ == old(s)@.push(c),
;

/// The characters of `text`, in order.
fn chars_of(text: &str) -> (chars: Vec<char>)
    ensures
        chars@ == text@,
{
    let mut chars: Vec<char> = Vec::new();
    for c in it: text.chars()
        invariant
            it.seq() == text@,
            chars@ == it.seq().take(it.index() as int),
    {
        chars.push(c);
        assert(it.seq().take(it.index() + 1) =~= it.seq().take(it.index() as int).push(c));
    }
    assert(chars@ =~= text@);
    chars
}

/// The characters of `chars` from `from` up to `to`, as a string.
fn text_of(chars: &Vec<char>, from: usize, to: usize) -> (text: String)
    requires
        from <= to <= chars.len(),
    ensures
        text@ == chars@.subrange(from as int, to as int),
{
    let mut text = String::new();
    let mut i: usize = from;
    assert(chars@.subrange(from as int, from as int) =~= Seq::empty());
    while i < to
        invariant
            from <= i <= to <= chars.len(),
            text@ == chars@.subrange(from as int, i as int),
        decreases to - i,
    {
        text.push(chars[i]);
        assert(chars@.subrange(from as int, i + 1) =~= chars@.subrange(from as int, i as int).push(
            chars@[i as int],
        ));
        i += 1;
    }
    text
}

fn is_letter(c: char) -> (r: bool)
    ensures
        r == lexicon::is_letter(c),
{
    (c >= 'a' && c <= 'z') || (c >= 'A' && c <= 'Z')
}

fn is_digit(c: char) -> (r: bool)
    ensures
        r == lexicon::is_digit(c),
{
    c >= '0' && c <= '9'
}

/// Whether `c` belongs to `class`.
fn in_class(class: CharClass, c: char) -> (r: bool)
    ensures
        r == class.has(c),
{
    match class {
        CharClass::Space => c == ' ' || c == '\t' || c == '\n' || c == '\x0c',
        CharClass::Digit => is_digit(c),
        CharClass::NamePart => is_letter(c) || is_digit(c) || c == '_' || c == '-',
        CharClass::LineRest => c != '\n',
        CharClass::StringBody => c != '"',
    }
}

/// The position after the longest run of characters of `class` from `pos` on.
fn run_end(chars: &Vec<char>, pos: usize, class: CharClass) -> (end: usize)
    requires
        pos <= chars.len(),
    ensures
        end == lexicon::run_end(chars@, pos as nat, class),
        pos <= end <= chars.len(),
{
    let mut end = pos;
    while end < chars.len() && in_class(class, chars[end])
        invariant
            pos <= end <= chars.len(),
            lexicon::run_end(chars@, end as nat, class) == lexicon::run_end(
                chars@,
                pos as nat,
                class,
            ),
        decreases chars.len() - end,
    {
        end += 1;
    }
    end
}

/// Whether the characters from `from` up to `to` spell `word`.
fn spells(chars: &Vec<char>, from: usize, to: usize, word: &str) -> (r: bool)
    requires
        from <= to <= chars.len(),
    ensures
        r == (chars@.subrange(from as int, to as int) == word@),
{
    let length = word.unicode_len();
    if to - from != length {
        return false;
    }
    let mut i: usize = 0;
    while i < length
        invariant
            from <= to <= chars.len(),
            to - from == length,
            length == word@.len(),
            i <= length,
            forall|j: int| 0 <= j < i ==> chars@[from + j] == word@[j],
        decreases length - i,
    {
        if chars[from + i] != word.get_char(i) {
            assert(chars@.subrange(from as int, to as int)[i as int] != word@[i as int]);
            return false;
        }
        i += 1;
    }
    assert(chars@.subrange(from as int, to as int) =~= word@);
    true
}

/// Whether `word` stands in `chars` at `pos`; with it, the length of `word`.
fn word_at(chars: &Vec<char>, pos: usize, word: &str) -> (r: (bool, usize))
    requires
        pos <= chars.len(),
    ensures
        r.0 == lexicon::word_at(chars@, pos as nat, word@),
        r.1 == word@.len(),
{
    let length = word.unicode_len();
    if length > chars.len() - pos {
        (false, length)
    } else {
        (spells(chars, pos, pos + length, word), length)
    }
}

/// `found` is the lexeme `expected`, as a token and the position after it.
pub open spec fn is_lexeme(found: (Option<Token>, usize), expected: Lexeme) -> bool {
    &&& found.1 == expected.end
    &&& match (found.0, expected.token) {
        (Some(token), Some(view)) => token@ == view,
        (None, None) => true,
        _ => false,
    }
}

/// The bare token of tag `kind`, up to `end`.
fn plain(kind: TokenKind, end: usize) -> (r: (Option<Token>, usize))
    ensures
        is_lexeme(r, lexicon::plain(kind, end as nat)),
{
    (Some(Token::of_kind(kind, String::new())), end)
}

/// The keyword that the characters from `from` up to `to` spell.
fn keyword(chars: &Vec<char>, from: usize, to: usize) -> (r: Option<TokenKind>)
    requires
        from <= to <= chars.len(),
    ensures
        r == lexicon::keyword(chars@.subrange(from as int, to as int)),
{
    proof {
        reveal(lexicon::keyword);
    }
    if spells(chars, from, to, "by") {
        Some(TokenKind::By)
    } else if spells(chars, from, to, "is") {
        Some(TokenKind::Is)
    } else if spells(chars, from, to, "forNow") {
        Some(TokenKind::ForNow)
    } else if spells(chars, from, to, "change") {
        Some(TokenKind::Change)
    } else if spells(chars, from, to, "to") {
        Some(TokenKind::To)
    } else if spells(chars, from, to, "if") {
        Some(TokenKind::If)
    } else if spells(chars, from, to, "else") {
        Some(TokenKind::Else)
    } else if spells(chars, from, to, "unless") {
        Some(TokenKind::Unless)
    } else if spells(chars, from, to, "of") {
        Some(TokenKind::Of)
    } else if spells(chars, from, to, "for") {
        Some(TokenKind::For)
    } else if spells(chars, from, to, "in") {
        Some(TokenKind::In)
    } else if spells(chars, from, to, "while") {
        Some(TokenKind::While)
    } else if spells(chars, from, to, "break") {
        Some(TokenKind::Break)
    } else if spells(chars, from, to, "continue") {
        Some(TokenKind::Continue)
    } else if spells(chars, from, to, "produce") {
        Some(TokenKind::Produce)
    } else if spells(chars, from, to, "import") {
        Some(TokenKind::Import)
    } else if spells(chars, from, to, "module") {
        Some(TokenKind::Module)
    } else if spells(chars, from, to, "from") {
        Some(TokenKind::From)
    } else if spells(chars, from, to, "as") {
        Some(TokenKind::As)
    } else if spells(chars, from, to, "see") {
        Some(TokenKind::See)
    } else if spells(chars, from, to, "record") {
        Some(TokenKind::Record)
    } else if spells(chars, from, to, "variant") {
        Some(TokenKind::Variant)
    } else if spells(chars, from, to, "write") {
        Some(TokenKind::Write)
    } else if spells(chars, from, to, "otherwise") {
        Some(TokenKind::Otherwise)
    } else if spells(chars, from, to, "yes") {
        Some(TokenKind::Yes)
    } else if spells(chars, from, to, "no") {
        Some(TokenKind::No)
    } else if spells(chars, from, to, "nothing") {
        Some(TokenKind::Nothing)
    } else {
        None
    }
}

/// Reads a word: a keyword or an identifier.
fn word(chars: &Vec<char>, pos: usize) -> (r: (Option<Token>, usize))
    requires
        pos < chars.len(),
    ensures
        is_lexeme(r, lexicon::word(chars@, pos as nat)),
        pos < r.1 <= chars.len(),
{
    let end = run_end(chars, pos + 1, CharClass::NamePart);
    match keyword(chars, pos, end) {
        Some(kind) => plain(kind, end),
        None => (Some(Token::of_kind(TokenKind::Identifier, text_of(chars, pos, end))), end),
    }
}

/// Reads a number that begins at `pos` and whose digits begin at `digits`.
fn number(chars: &Vec<char>, pos: usize, digits: usize) -> (r: (Option<Token>, usize))
    requires
        pos <= digits < chars.len(),
        lexicon::is_digit(chars[digits as int]),
    ensures
        is_lexeme(r, lexicon::number(chars@, pos as nat, digits as nat)),
        pos < r.1 <= chars.len(),
{
    let whole = run_end(chars, digits + 1, CharClass::Digit);
    assert(whole == lexicon::run_end(chars@, digits as nat, CharClass::Digit));
    let end = if whole < chars.len() && chars[whole] == '.' && whole + 1 < chars.len() && is_digit(
        chars[whole + 1],
    ) {
        run_end(chars, whole + 1, CharClass::Digit)
    } else {
        whole
    };
    (Some(Token::of_kind(TokenKind::Number, text_of(chars, pos, end))), end)
}

/// Whether three double quotes stand at `pos`.
fn triple_at(chars: &Vec<char>, pos: usize) -> (r: bool)
    ensures
        r == lexicon::triple_at(chars@, pos as int),
{
    pos <= chars.len() && chars.len() - pos >= 3 && chars[pos] == '"' && chars[pos + 1] == '"'
        && chars[pos + 2] == '"'
}

/// The last position at or after `from` where three double quotes stand.
fn last_triple(chars: &Vec<char>, from: usize) -> (r: Option<usize>)
    requires
        3 <= from,
        chars.len() >= 3,
    ensures
        match r {
            Some(at) => lexicon::last_triple(chars@, from as int, chars.len() - 3) == Some(
                at as int,
            ) && from <= at && at + 3 <= chars.len(),
            None => lexicon::last_triple(chars@, from as int, chars.len() - 3) is None,
        },
{
    let mut at: usize = chars.len() - 3;
    loop
        invariant
            3 <= from,
            at + 3 <= chars.len(),
            lexicon::last_triple(chars@, from as int, at as int) == lexicon::last_triple(
                chars@,
                from as int,
                chars.len() - 3,
            ),
        decreases at,
    {
        if at < from {
            return None;
        }
        if triple_at(chars, at) {
            return Some(at);
        }
        at -= 1;
    }
}

/// Reads a string in double or in triple quotes.
fn quoted(chars: &Vec<char>, pos: usize) -> (r: (Option<Token>, usize))
    requires
        pos < chars.len(),
    ensures
        is_lexeme(r, lexicon::quoted(chars@, pos as nat)),
        pos < r.1 <= chars.len(),
{
    let close = if triple_at(chars, pos) {
        last_triple(chars, pos + 3)
    } else {
        None
    };
    match close {
        Some(at) => (
            Some(Token::of_kind(TokenKind::MultilineString, text_of(chars, pos + 3, at))),
            at + 3,
        ),
        None => {
            let end = run_end(chars, pos + 1, CharClass::StringBody);
            if end < chars.len() {
                (Some(Token::of_kind(TokenKind::String, text_of(chars, pos + 1, end))), end + 1)
            } else {
                plain(TokenKind::EOF, pos + 1)
            }
        },
    }
}

/// Reads what stands where `!` stands: a comment, `!doc` or `!=`.
fn bang(chars: &Vec<char>, pos: usize) -> (r: (Option<Token>, usize))
    requires
        pos < chars.len(),
    ensures
        is_lexeme(r, lexicon::bang(chars@, pos as nat)),
        pos < r.1 <= chars.len(),
{
    let end = run_end(chars, pos + 1, CharClass::LineRest);
    if end - pos == 4 && word_at(chars, pos + 1, "doc").0 {
        plain(TokenKind::DocComment, end)
    } else if end - pos == 2 && chars[pos + 1] == '=' {
        plain(TokenKind::NotEqual, end)
    } else {
        (None, end)
    }
}

/// The type keyword whose name stands at `pos`, with the length of the name.
fn type_name_at(chars: &Vec<char>, pos: usize) -> (r: Option<(TokenKind, usize)>)
    requires
        pos <= chars.len(),
    ensures
        match r {
            Some((kind, length)) => lexicon::type_name_at(chars@, pos as nat) == Some(
                (kind, length as nat),
            ) && pos + length <= chars.len(),
            None => lexicon::type_name_at(chars@, pos as nat) is None,
        },
{
    proof {
        reveal(lexicon::type_name_at);
    }
    let number = word_at(chars, pos, "Number");
    if number.0 {
        return Some((TokenKind::NumberType, number.1));
    }
    let integer = word_at(chars, pos, "Integer");
    if integer.0 {
        return Some((TokenKind::IntegerType, integer.1));
    }
    let text = word_at(chars, pos, "Text");
    if text.0 {
        return Some((TokenKind::TextType, text.1));
    }
    let decision = word_at(chars, pos, "Decision");
    if decision.0 {
        return Some((TokenKind::DecisionType, decision.1));
    }
    let nothing = word_at(chars, pos, "Nothing");
    if nothing.0 {
        return Some((TokenKind::NothingType, nothing.1));
    }
    let bliss = word_at(chars, pos, "Bliss");
    if bliss.0 {
        return Some((TokenKind::BlissType, bliss.1));
    }
    let any = word_at(chars, pos, "Any");
    if any.0 {
        return Some((TokenKind::AnyType, any.1));
    }
    let list = word_at(chars, pos, "List");
    if list.0 {
        return Some((TokenKind::ListType, list.1));
    }
    let map = word_at(chars, pos, "Map");
    if map.0 {
        return Some((TokenKind::MapType, map.1));
    }
    let tuple = word_at(chars, pos, "Tuple");
    if tuple.0 {
        return Some((TokenKind::TupleType, tuple.1));
    }
    let result = word_at(chars, pos, "Result");
    if result.0 {
        return Some((TokenKind::ResultType, result.1));
    }
    let shape = word_at(chars, pos, "Shape");
    if shape.0 {
        return Some((TokenKind::ShapeType, shape.1));
    }
    None
}

/// Reads what stands where `#` stands: a type keyword or the type prefix.
fn hash(chars: &Vec<char>, pos: usize) -> (r: (Option<Token>, usize))
    requires
        pos < chars.len(),
    ensures
        is_lexeme(r, lexicon::hash(chars@, pos as nat)),
        pos < r.1 <= chars.len(),
{
    match type_name_at(chars, pos + 1) {
        Some((kind, length)) => plain(kind, pos + 1 + length),
        None => plain(TokenKind::TypePrefix, pos + 1),
    }
}

fn single_symbol(c: char) -> (r: Option<TokenKind>)
    ensures
        r == lexicon::single_symbol(c),
{
    if c == '+' {
        Some(TokenKind::Plus)
    } else if c == '-' {
        Some(TokenKind::Minus)
    } else if c == '*' {
        Some(TokenKind::Star)
    } else if c == '/' {
        Some(TokenKind::Slash)
    } else if c == '%' {
        Some(TokenKind::Modulo)
    } else if c == '^' {
        Some(TokenKind::Power)
    } else if c == '(' {
        Some(TokenKind::LeftParen)
    } else if c == ')' {
        Some(TokenKind::RightParen)
    } else if c == '{' {
        Some(TokenKind::LeftBrace)
    } else if c == '}' {
        Some(TokenKind::RightBrace)
    } else if c == '[' {
        Some(TokenKind::LeftBracket)
    } else if c == ']' {
        Some(TokenKind::RightBracket)
    } else if c == ',' {
        Some(TokenKind::Comma)
    } else if c == '.' {
        Some(TokenKind::Dot)
    } else if c == '&' {
        Some(TokenKind::Ampersand)
    } else if c == ':' {
        Some(TokenKind::Colon)
    } else if c == '\'' {
        Some(TokenKind::Apostrophe)
    } else if c == '|' {
        Some(TokenKind::Pipe)
    } else if c == '>' {
        Some(TokenKind::Greater)
    } else if c == '<' {
        Some(TokenKind::Less)
    } else {
        None
    }
}

fn double_symbol(c: char, d: char) -> (r: Option<TokenKind>)
    ensures
        r == lexicon::double_symbol(c, d),
{
    if c == '/' && d == '/' {
        Some(TokenKind::IntegerDivide)
    } else if c == '.' && d == '.' {
        Some(TokenKind::Range)
    } else if c == '-' && d == '>' {
        Some(TokenKind::Arrow)
    } else if c == '>' && d == '=' {
        Some(TokenKind::GreaterEqual)
    } else if c == '<' && d == '=' {
        Some(TokenKind::LessEqual)
    } else if c == '=' && d == '=' {
        Some(TokenKind::EqualEqual)
    } else if c == '=' && d == '>' {
        Some(TokenKind::FatArrow)
    } else {
        None
    }
}

/// Reads a symbol of one or two characters.
fn symbol(chars: &Vec<char>, pos: usize) -> (r: (Option<Token>, usize))
    requires
        pos < chars.len(),
    ensures
        is_lexeme(r, lexicon::symbol(chars@, pos as nat)),
        pos < r.1 <= chars.len(),
{
    let two = if pos + 1 < chars.len() {
        double_symbol(chars[pos], chars[pos + 1])
    } else {
        None
    };
    match two {
        Some(kind) => plain(kind, pos + 2),
        None => match single_symbol(chars[pos]) {
            Some(kind) => plain(kind, pos + 1),
            None => plain(TokenKind::EOF, pos + 1),
        },
    }
}

/// Reads the lexeme that starts at `pos`.
fn lexeme(chars: &Vec<char>, pos: usize) -> (r: (Option<Token>, usize))
    requires
        pos < chars.len(),
    ensures
        is_lexeme(r, lexicon::lexeme(chars@, pos as nat)),
        pos < r.1 <= chars.len(),
{
    let c = chars[pos];
    if in_class(CharClass::Space, c) {
        (None, run_end(chars, pos + 1, CharClass::Space))
    } else if c == '!' {
        bang(chars, pos)
    } else if c == '#' {
        hash(chars, pos)
    } else if c == '"' {
        quoted(chars, pos)
    } else if is_digit(c) {
        number(chars, pos, pos)
    } else if c == '-' && pos + 1 < chars.len() && is_digit(chars[pos + 1]) {
        number(chars, pos, pos + 1)
    } else if is_letter(c) {
        word(chars, pos)
    } else {
        symbol(chars, pos)
    }
}

/// A scanner over a source text. It hands out the tokens one by one; after the
/// last token of the text it hands out the end-of-input token, and then
/// nothing more.
pub struct Lexer {
    chars: Vec<char>,
    position: usize,
    finished: bool,
}

impl Lexer {
    #[verifier::type_invariant]
    spec fn well_formed(&self) -> bool {
        self.position <= self.chars.len()
    }

    /// The source text.
    pub closed spec fn source(&self) -> Seq<char> {
        self.chars@
    }

    /// The position of the next character to read.
    pub closed spec fn position(&self) -> nat {
        self.position as nat
    }

    /// Whether the end-of-input token has been handed out.
    pub closed spec fn finished(&self) -> bool {
        self.finished
    }

    /// A scanner at the start of `input`.
    pub fn new(input: &str) -> (lexer: Lexer)
        ensures
            lexer.source() == input@,
            lexer.position() == 0,
            !lexer.finished(),
    {
        Lexer { chars: chars_of(input), position: 0, finished: false }
    }

    /// The next token, past blank space and comments; the end-of-input token
    /// once the text is exhausted; `None` after that.
    pub fn next(&mut self) -> (r: Option<Token>)
        ensures
            final(self).source() == old(self).source(),
            old(self).finished() ==> r is None && final(self).finished() && final(self).position()
                == old(self).position(),
            !old(self).finished() ==> ({
                let expected = lexicon::next_token(old(self).source(), old(self).position());
                &&& r matches Some(token)
                &&& token@ == expected.token
                &&& final(self).position() == expected.end
                &&& final(self).finished() == expected.last
                &&& !expected.last ==> old(self).position() < expected.end
                    <= old(self).source().len()
                &&& expected.last ==> token@.kind == TokenKind::EOF
            }),
    {
        if self.finished {
            return None;
        }
        let ghost start = self.position();
        loop
            invariant
                start == old(self).position(),
                self.source() == old(self).source(),
                !old(self).finished(),
                !self.finished(),
                start <= self.position(),
                lexicon::next_token(self.source(), self.position()) == lexicon::next_token(
                    self.source(),
                    start,
                ),
            decreases self.source().len() - self.position(),
        {
            proof {
                use_type_invariant(&*self);
            }
            if self.position >= self.chars.len() {
                self.finished = true;
                return Some(Token::of_kind(TokenKind::EOF, String::new()));
            }
            let (token, end) = lexeme(&self.chars, self.position);
            self.position = end;
            match token {
                Some(token) => {
                    return Some(token);
                },
                None => {},
            }
        }
    }
}

/// The tokens of `input`: every token in order, then the end-of-input token.
pub fn tokenize(input: &str) -> (tokens: Vec<Token>)
    ensures
        token_views(tokens@) == lexicon::tokens(input@),
        tokens.len() > 0,
        tokens[tokens.len() - 1]@.kind == TokenKind::EOF,
{
    let mut lexer = Lexer::new(input);
    let mut tokens: Vec<Token> = Vec::new();
    proof {
        lemma_token_views_empty();
    }
    loop
        invariant
            lexer.source() == input@,
            !lexer.finished(),
            lexicon::tokens_from(lexer.source(), lexer.position(), token_views(tokens@))
                == lexicon::tokens(input@),
        decreases lexer.source().len() - lexer.position(),
    {
        match lexer.next() {
            Some(token) => {
                proof {
                    lemma_token_views_push(tokens@, token);
                }
                tokens.push(token);
                if lexer.finished {
                    return tokens;
                }
            },
            None => {
                proof {
                    assert(false);
                }
                return tokens;
            },
        }
    }
}

} // verus!
