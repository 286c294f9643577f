//! The grammar of the language, as total functions from a token sequence and a
//! position to a syntax tree and the number of tokens it spans, or to the
//! message of the first construct that does not fit.
use crate::ast::{ExprView, LiteralView, StmtView};
use crate::grammar_items::{import_declaration, type_definition};
use crate::token::{TokenKind, TokenView};
use vstd::prelude::*;

verus! {

/// What reading one construct yields: its value and how many tokens it spans,
/// or the message that says what was expected.
pub type Parse<T> = Result<(T, nat), Seq<char>>;

/// The tag of the token at `pos`; past the end of the sequence it is the
/// end-of-input tag.
pub open spec fn kind_at(tokens: Seq<TokenView>, pos: nat) -> TokenKind {
    if pos < tokens.len() {
        tokens[pos as int].kind
    } else {
        TokenKind::EOF
    }
}

/// The text of the token at `pos`; empty past the end.
pub open spec fn text_at(tokens: Seq<TokenView>, pos: nat) -> Seq<char> {
    if pos < tokens.len() {
        tokens[pos as int].text
    } else {
        Seq::empty()
    }
}

/// The token at `pos`; past the end it is a bare end-of-input token.
pub open spec fn token_at(tokens: Seq<TokenView>, pos: nat) -> TokenView {
    if pos < tokens.len() {
        tokens[pos as int]
    } else {
        TokenView::plain(TokenKind::EOF)
    }
}

/// How many tokens lie at or after `pos`.
pub open spec fn remaining(tokens: Seq<TokenView>, pos: nat) -> nat {
    if pos < tokens.len() {
        (tokens.len() - pos) as nat
    } else {
        0
    }
}

/// The same result, spanning `k` more tokens: those read before it.
pub open spec fn shift<T>(r: Parse<T>, k: nat) -> Parse<T> {
    match r {
        Ok((value, used)) => Ok((value, used + k)),
        Err(message) => Err(message),
    }
}

/// Moving a result on twice is moving it on once, by the sum.
pub proof fn lemma_shift_twice<T>(r: Parse<T>, first: nat, second: nat)
    ensures
        shift(shift(r, first), second) == shift(r, first + second),
{
}

/// Whether a list of statements stops at `pos`: at a closing brace or at the
/// end of the input.
pub open spec fn closes_block(tokens: Seq<TokenView>, pos: nat) -> bool {
    kind_at(tokens, pos) == TokenKind::RightBrace || kind_at(tokens, pos) == TokenKind::EOF
}

/// The type keywords that may stand for a type without the `#` prefix form.
pub open spec fn is_simple_type(kind: TokenKind) -> bool {
    kind == TokenKind::NumberType || kind == TokenKind::TextType || kind == TokenKind::DecisionType
        || kind == TokenKind::NothingType || kind == TokenKind::BlissType || kind
        == TokenKind::AnyType
}

/// A type tag: `#` and a name, which gives the name, or one of the simple type
/// keywords, which gives the keyword's tag name.
#[verifier::opaque]
pub open spec fn type_tag(
    tokens: Seq<TokenView>,
    pos: nat,
    after_prefix: Seq<char>,
    missing: Seq<char>,
) -> Parse<Seq<char>> {
    if kind_at(tokens, pos) == TokenKind::TypePrefix {
        if kind_at(tokens, pos + 1) == TokenKind::Identifier {
            Ok((text_at(tokens, pos + 1), 2))
        } else {
            Err(after_prefix)
        }
    } else if is_simple_type(kind_at(tokens, pos)) {
        Ok((kind_at(tokens, pos).spec_name(), 1))
    } else {
        Err(missing)
    }
}

/// Whether `kind` is an operator of the multiplicative level.
pub open spec fn is_factor_operator(kind: TokenKind) -> bool {
    kind == TokenKind::Star || kind == TokenKind::Slash || kind == TokenKind::IntegerDivide || kind
        == TokenKind::Modulo || kind == TokenKind::Power
}

/// Whether `kind` is an operator of the additive level.
pub open spec fn is_term_operator(kind: TokenKind) -> bool {
    kind == TokenKind::Plus || kind == TokenKind::Minus || kind == TokenKind::Ampersand
}

/// Whether `kind` is a relational operator.
pub open spec fn is_comparison_operator(kind: TokenKind) -> bool {
    kind == TokenKind::Less || kind == TokenKind::LessEqual || kind == TokenKind::Greater || kind
        == TokenKind::GreaterEqual
}

/// Whether `kind` is an operator of the equality level.
pub open spec fn is_equality_operator(kind: TokenKind) -> bool {
    kind == TokenKind::EqualEqual || kind == TokenKind::NotEqual || kind == TokenKind::Is
}

/// Whether `kind` is a prefix operator.
pub open spec fn is_unary_operator(kind: TokenKind) -> bool {
    kind == TokenKind::Minus || kind == TokenKind::ExclamationMark
}

/// The binding levels of binary operators, loosest first.
#[derive(Clone, Copy, Debug, PartialEq, Eq, Structural)]
pub enum Level {
    Or,
    And,
    Equality,
    Comparison,
    Term,
    Factor,
}

impl Level {
    /// Whether a token of tag `kind` is an operator of this level.
    pub open spec fn has_operator(self, kind: TokenKind) -> bool {
        match self {
            Level::Or => kind == TokenKind::Pipe,
            Level::And => kind == TokenKind::Ampersand,
            Level::Equality => is_equality_operator(kind),
            Level::Comparison => is_comparison_operator(kind),
            Level::Term => is_term_operator(kind),
            Level::Factor => is_factor_operator(kind),
        }
    }

    /// The place of this level in the cascade: a looser level has a larger one.
    pub open spec fn rank(self) -> nat {
        match self {
            Level::Or => 16,
            Level::And => 14,
            Level::Equality => 12,
            Level::Comparison => 10,
            Level::Term => 8,
            Level::Factor => 6,
        }
    }
}

/// The binary operation of `operator` on `left` and `right`.
pub open spec fn binary(left: ExprView, operator: TokenView, right: ExprView) -> ExprView {
    ExprView::Binary { left: Box::new(left), operator, right: Box::new(right) }
}

/// A parenthesised expression after its opening parenthesis.
#[verifier::opaque]
pub open spec fn grouping(tokens: Seq<TokenView>, pos: nat) -> Parse<ExprView>
    decreases remaining(tokens, pos), 19nat,
{
    match expression(tokens, pos) {
        Err(message) => Err(message),
        Ok((inner, used)) => if kind_at(tokens, pos + used) == TokenKind::RightParen {
            Ok((ExprView::Grouping(Box::new(inner)), used + 1))
        } else {
            Err("Expected ')' after expression"@)
        },
    }
}

/// A list literal after its opening bracket.
#[verifier::opaque]
pub open spec fn list_literal(tokens: Seq<TokenView>, pos: nat) -> Parse<ExprView>
    decreases remaining(tokens, pos), 20nat,
{
    if kind_at(tokens, pos) == TokenKind::RightBracket {
        Ok((ExprView::List(Seq::empty()), 1))
    } else {
        match expression_list(tokens, pos, Seq::empty()) {
            Err(message) => Err(message),
            Ok((items, used)) => if kind_at(tokens, pos + used) == TokenKind::RightBracket {
                Ok((ExprView::List(items), used + 1))
            } else {
                Err("Expected ']' after list elements"@)
            },
        }
    }
}

/// A map literal after its opening brace.
#[verifier::opaque]
pub open spec fn map_literal(tokens: Seq<TokenView>, pos: nat) -> Parse<ExprView>
    decreases remaining(tokens, pos), 22nat,
{
    if kind_at(tokens, pos) == TokenKind::RightBrace {
        Ok((ExprView::Mapping(Seq::empty()), 1))
    } else {
        match map_entries(tokens, pos, Seq::empty()) {
            Err(message) => Err(message),
            Ok((entries, used)) => if kind_at(tokens, pos + used) == TokenKind::RightBrace {
                Ok((ExprView::Mapping(entries), used + 1))
            } else {
                Err("Expected '}' after map entries"@)
            },
        }
    }
}

/// Whether a map literal opens at `pos`: a brace, then a name, then a colon.
pub open spec fn opens_map(tokens: Seq<TokenView>, pos: nat) -> bool {
    kind_at(tokens, pos) == TokenKind::LeftBrace && kind_at(tokens, pos + 1)
        == TokenKind::Identifier && kind_at(tokens, pos + 2) == TokenKind::Colon
}

/// The literal that a single token of tag `kind` with `text` is, if it is one.
pub open spec fn literal(kind: TokenKind, text: Seq<char>) -> Option<LiteralView> {
    if kind == TokenKind::Yes {
        Some(LiteralView::Decision(true))
    } else if kind == TokenKind::No {
        Some(LiteralView::Decision(false))
    } else if kind == TokenKind::Nothing {
        Some(LiteralView::Nothing)
    } else if kind == TokenKind::Number {
        Some(LiteralView::Number(text))
    } else if kind == TokenKind::String || kind == TokenKind::MultilineString {
        Some(LiteralView::String(text))
    } else {
        None
    }
}

/// A primary expression: a literal, a name, a parenthesised expression, a list
/// or a map literal.
#[verifier::opaque]
pub open spec fn primary(tokens: Seq<TokenView>, pos: nat) -> Parse<ExprView>
    decreases remaining(tokens, pos), 0nat,
{
    let kind = kind_at(tokens, pos);
    match literal(kind, text_at(tokens, pos)) {
        Some(value) => Ok((ExprView::Literal(value), 1)),
        None => if kind == TokenKind::Identifier {
            Ok((ExprView::Variable(text_at(tokens, pos)), 1))
        } else if kind == TokenKind::LeftParen {
            shift(grouping(tokens, pos + 1), 1)
        } else if kind == TokenKind::LeftBracket {
            shift(list_literal(tokens, pos + 1), 1)
        } else if opens_map(tokens, pos) {
            shift(map_literal(tokens, pos + 1), 1)
        } else {
            Err("Expected expression"@)
        },
    }
}

/// One or more expressions from `pos` on, separated by commas, after the
/// expressions `done`.
#[verifier::opaque]
pub open spec fn expression_list(tokens: Seq<TokenView>, pos: nat, done: Seq<ExprView>) -> Parse<
    Seq<ExprView>,
>
    decreases remaining(tokens, pos), 19nat,
{
    match expression(tokens, pos) {
        Err(message) => Err(message),
        Ok((item, used)) => if kind_at(tokens, pos + used) == TokenKind::Comma {
            shift(expression_list(tokens, pos + used + 1, done.push(item)), used + 1)
        } else {
            Ok((done.push(item), used))
        },
    }
}

/// The value of a map entry: a colon and an expression.
#[verifier::opaque]
pub open spec fn map_value(tokens: Seq<TokenView>, pos: nat) -> Parse<ExprView>
    decreases remaining(tokens, pos), 19nat,
{
    if kind_at(tokens, pos) != TokenKind::Colon {
        Err("Expected ':' after map key"@)
    } else {
        shift(expression(tokens, pos + 1), 1)
    }
}

/// One entry of a map literal: a key, a colon and a value.
#[verifier::opaque]
pub open spec fn map_entry(tokens: Seq<TokenView>, pos: nat) -> Parse<(ExprView, ExprView)>
    decreases remaining(tokens, pos), 20nat,
{
    match expression(tokens, pos) {
        Err(message) => Err(message),
        Ok((key, used)) => match map_value(tokens, pos + used) {
            Err(message) => Err(message),
            Ok((value, more)) => Ok(((key, value), used + more)),
        },
    }
}

/// The entries of a map literal from `pos` on, separated by commas, after the
/// entries `done`.
#[verifier::opaque]
pub open spec fn map_entries(
    tokens: Seq<TokenView>,
    pos: nat,
    done: Seq<(ExprView, ExprView)>,
) -> Parse<Seq<(ExprView, ExprView)>>
    decreases remaining(tokens, pos), 21nat,
{
    match map_entry(tokens, pos) {
        Err(message) => Err(message),
        Ok((entry, used)) => if kind_at(tokens, pos + used) == TokenKind::Comma {
            shift(map_entries(tokens, pos + used + 1, done.push(entry)), used + 1)
        } else {
            Ok((done.push(entry), used))
        },
    }
}

/// One argument of a call.
pub enum ArgumentView {
    Named(Seq<char>, ExprView),
    Positional(ExprView),
}

/// One argument of a call. It is named where a colon follows its first
/// token, which then must be a name.
#[verifier::opaque]
pub open spec fn argument(tokens: Seq<TokenView>, pos: nat) -> Parse<ArgumentView>
    decreases remaining(tokens, pos), 19nat,
{
    if kind_at(tokens, pos + 1) == TokenKind::Colon {
        if kind_at(tokens, pos) != TokenKind::Identifier {
            Err("Expected parameter name for named argument"@)
        } else {
            match expression(tokens, pos + 2) {
                Err(message) => Err(message),
                Ok((value, used)) => Ok(
                    (ArgumentView::Named(text_at(tokens, pos), value), used + 2),
                ),
            }
        }
    } else {
        match expression(tokens, pos) {
            Err(message) => Err(message),
            Ok((value, used)) => Ok((ArgumentView::Positional(value), used)),
        }
    }
}

/// The positional and the named arguments `arguments`, with `next` added to
/// its kind.
pub open spec fn with_argument(
    arguments: (Seq<ExprView>, Seq<(Seq<char>, ExprView)>),
    next: ArgumentView,
) -> (Seq<ExprView>, Seq<(Seq<char>, ExprView)>) {
    match next {
        ArgumentView::Named(name, value) => (arguments.0, arguments.1.push((name, value))),
        ArgumentView::Positional(value) => (arguments.0.push(value), arguments.1),
    }
}

/// The arguments of a call from `pos` on, separated by commas, after the
/// arguments `done`. Named and positional arguments may alternate.
#[verifier::opaque]
pub open spec fn call_arguments(
    tokens: Seq<TokenView>,
    pos: nat,
    done: (Seq<ExprView>, Seq<(Seq<char>, ExprView)>),
) -> Parse<(Seq<ExprView>, Seq<(Seq<char>, ExprView)>)>
    decreases remaining(tokens, pos), 20nat,
{
    match argument(tokens, pos) {
        Err(message) => Err(message),
        Ok((next, used)) => if kind_at(tokens, pos + used) == TokenKind::Comma {
            shift(call_arguments(tokens, pos + used + 1, with_argument(done, next)), used + 1)
        } else {
            Ok((with_argument(done, next), used))
        },
    }
}

/// The arguments of a call up to its closing parenthesis: none where the
/// parenthesis stands at once.
#[verifier::opaque]
pub open spec fn argument_list(tokens: Seq<TokenView>, pos: nat) -> Parse<
    (Seq<ExprView>, Seq<(Seq<char>, ExprView)>),
>
    decreases remaining(tokens, pos), 21nat,
{
    if kind_at(tokens, pos) == TokenKind::RightParen {
        Ok(((Seq::empty(), Seq::empty()), 0))
    } else {
        call_arguments(tokens, pos, (Seq::empty(), Seq::empty()))
    }
}

/// The rest of a call after its opening parenthesis: the arguments and the
/// closing parenthesis. Only a bare name can be called.
#[verifier::opaque]
pub open spec fn finish_call(tokens: Seq<TokenView>, pos: nat, callee: ExprView) -> Parse<ExprView>
    decreases remaining(tokens, pos), 22nat,
{
    match argument_list(tokens, pos) {
        Err(message) => Err(message),
        Ok((arguments, used)) => if kind_at(tokens, pos + used) != TokenKind::RightParen {
            Err("Expected ')' after arguments"@)
        } else {
            match callee {
                ExprView::Variable(name) => Ok(
                    (
                        ExprView::FunctionCall {
                            name,
                            arguments: arguments.0,
                            named_arguments: arguments.1,
                        },
                        used + 1,
                    ),
                ),
                _ => Err("Expected function name"@),
            }
        },
    }
}

/// A call of `left` after its opening parenthesis, and the postfix chain after
/// it.
#[verifier::opaque]
pub open spec fn call_after(tokens: Seq<TokenView>, pos: nat, left: ExprView) -> Parse<ExprView>
    decreases remaining(tokens, pos), 23nat,
{
    match finish_call(tokens, pos, left) {
        Err(message) => Err(message),
        Ok((call, used)) => shift(call_rest(tokens, pos + used, call), used),
    }
}

/// A type-function call on `left` after its apostrophe, and the postfix chain
/// after it.
#[verifier::opaque]
pub open spec fn type_function_call(tokens: Seq<TokenView>, pos: nat, left: ExprView) -> Parse<
    ExprView,
>
    decreases remaining(tokens, pos), 23nat,
{
    if kind_at(tokens, pos) == TokenKind::Identifier {
        shift(
            call_rest(
                tokens,
                pos + 1,
                ExprView::TypeFunctionCall {
                    object: Box::new(left),
                    function: text_at(tokens, pos),
                },
            ),
            1,
        )
    } else {
        Err("Expected function name after apostrophe"@)
    }
}

/// An index access on `left` after its opening bracket, and the postfix chain
/// after it.
#[verifier::opaque]
pub open spec fn index_access(tokens: Seq<TokenView>, pos: nat, left: ExprView) -> Parse<ExprView>
    decreases remaining(tokens, pos), 23nat,
{
    match expression(tokens, pos) {
        Err(message) => Err(message),
        Ok((index, used)) => if kind_at(tokens, pos + used) == TokenKind::RightBracket {
            shift(
                call_rest(
                    tokens,
                    pos + used + 1,
                    ExprView::AccessExpression { object: Box::new(left), index: Box::new(index) },
                ),
                used + 1,
            )
        } else {
            Err("Expected ']' after index"@)
        },
    }
}

/// A method call without arguments on `left` after its dot, and the postfix
/// chain after it. The receiver becomes the only argument.
#[verifier::opaque]
pub open spec fn method_call(tokens: Seq<TokenView>, pos: nat, left: ExprView) -> Parse<ExprView>
    decreases remaining(tokens, pos), 23nat,
{
    if kind_at(tokens, pos) == TokenKind::Identifier {
        shift(
            call_rest(
                tokens,
                pos + 1,
                ExprView::FunctionCall {
                    name: text_at(tokens, pos),
                    arguments: seq![left],
                    named_arguments: Seq::empty(),
                },
            ),
            1,
        )
    } else {
        Err("Expected method name after dot"@)
    }
}

/// The postfix chain that follows the expression `left`: calls, type-function
/// calls, index accesses and method calls, applied from left to right.
#[verifier::opaque]
pub open spec fn call_rest(tokens: Seq<TokenView>, pos: nat, left: ExprView) -> Parse<ExprView>
    decreases remaining(tokens, pos), 1nat,
{
    let kind = kind_at(tokens, pos);
    if kind == TokenKind::LeftParen {
        shift(call_after(tokens, pos + 1, left), 1)
    } else if kind == TokenKind::Apostrophe {
        shift(type_function_call(tokens, pos + 1, left), 1)
    } else if kind == TokenKind::LeftBracket {
        shift(index_access(tokens, pos + 1, left), 1)
    } else if kind == TokenKind::Dot {
        shift(method_call(tokens, pos + 1, left), 1)
    } else {
        Ok((left, 0))
    }
}

/// A primary expression with its postfix chain.
#[verifier::opaque]
pub open spec fn call(tokens: Seq<TokenView>, pos: nat) -> Parse<ExprView>
    decreases remaining(tokens, pos), 2nat,
{
    match primary(tokens, pos) {
        Err(message) => Err(message),
        Ok((left, used)) => shift(call_rest(tokens, pos + used, left), used),
    }
}

/// Any number of prefix operators, then a call.
#[verifier::opaque]
pub open spec fn unary(tokens: Seq<TokenView>, pos: nat) -> Parse<ExprView>
    decreases remaining(tokens, pos), 3nat,
{
    if is_unary_operator(kind_at(tokens, pos)) {
        match unary(tokens, pos + 1) {
            Err(message) => Err(message),
            Ok((right, used)) => Ok(
                (
                    ExprView::Unary { operator: token_at(tokens, pos), right: Box::new(right) },
                    used + 1,
                ),
            ),
        }
    } else {
        call(tokens, pos)
    }
}

/// An operand of the binary operators of `level`: an expression of the next
/// tighter level.
#[verifier::opaque]
pub open spec fn operand(tokens: Seq<TokenView>, pos: nat, level: Level) -> Parse<ExprView>
    decreases remaining(tokens, pos), (level.rank() - 1) as nat,
{
    match level {
        Level::Or => binary_level(tokens, pos, Level::And),
        Level::And => binary_level(tokens, pos, Level::Equality),
        Level::Equality => binary_level(tokens, pos, Level::Comparison),
        Level::Comparison => binary_level(tokens, pos, Level::Term),
        Level::Term => binary_level(tokens, pos, Level::Factor),
        Level::Factor => unary(tokens, pos),
    }
}

/// The operators of `level` and their right operands that follow the
/// expression `left`, folded to the left.
#[verifier::opaque]
pub open spec fn binary_rest(
    tokens: Seq<TokenView>,
    pos: nat,
    level: Level,
    left: ExprView,
) -> Parse<ExprView>
    decreases remaining(tokens, pos), 0nat,
{
    if level.has_operator(kind_at(tokens, pos)) {
        match operand(tokens, pos + 1, level) {
            Err(message) => Err(message),
            Ok((right, used)) => shift(
                binary_rest(
                    tokens,
                    pos + 1 + used,
                    level,
                    binary(left, token_at(tokens, pos), right),
                ),
                used + 1,
            ),
        }
    } else {
        Ok((left, 0))
    }
}

/// A chain of operands joined by the binary operators of `level`.
#[verifier::opaque]
pub open spec fn binary_level(tokens: Seq<TokenView>, pos: nat, level: Level) -> Parse<ExprView>
    decreases remaining(tokens, pos), level.rank(),
{
    match operand(tokens, pos, level) {
        Err(message) => Err(message),
        Ok((left, used)) => shift(binary_rest(tokens, pos + used, level, left), used),
    }
}

/// An assignment: a bare name, `is` and the assigned expression, to the right;
/// or any expression of the loosest binary level.
#[verifier::opaque]
pub open spec fn assignment(tokens: Seq<TokenView>, pos: nat) -> Parse<ExprView>
    decreases remaining(tokens, pos), 17nat,
{
    match binary_level(tokens, pos, Level::Or) {
        Err(message) => Err(message),
        Ok((target, used)) => if kind_at(tokens, pos + used) == TokenKind::Is {
            match target {
                ExprView::Variable(name) => match assignment(tokens, pos + used + 1) {
                    Err(message) => Err(message),
                    Ok((value, more)) => Ok(
                        (
                            binary(
                                ExprView::Variable(name),
                                TokenView::plain(TokenKind::Is),
                                value,
                            ),
                            used + 1 + more,
                        ),
                    ),
                },
                _ => Err("Invalid assignment target."@),
            }
        } else {
            Ok((target, used))
        },
    }
}

/// An expression.
#[verifier::opaque]
pub open spec fn expression(tokens: Seq<TokenView>, pos: nat) -> Parse<ExprView>
    decreases remaining(tokens, pos), 18nat,
{
    assignment(tokens, pos)
}

/// The message of a list of statements or of cases that cannot go on because
/// one of them spans no token. None does (`lemma_declaration_advances`,
/// `lemma_case_clause_advances`).
pub open spec fn stalled() -> Seq<char> {
    "Expected statement"@
}

/// The statements from `pos` up to a closing brace or the end of the input,
/// after the statements `done`.
#[verifier::opaque]
pub open spec fn block(tokens: Seq<TokenView>, pos: nat, done: Seq<StmtView>) -> Parse<
    Seq<StmtView>,
>
    decreases remaining(tokens, pos), 30nat,
{
    if closes_block(tokens, pos) {
        Ok((done, 0))
    } else {
        match declaration(tokens, pos) {
            Err(message) => Err(message),
            Ok((statement, used)) => if used == 0 {
                Err(stalled())
            } else {
                shift(block(tokens, pos + used, done.push(statement)), used)
            },
        }
    }
}

/// A braced list of statements: `{` at `pos`, the statements, `}`.
#[verifier::opaque]
pub open spec fn braced(
    tokens: Seq<TokenView>,
    pos: nat,
    before: Seq<char>,
    after: Seq<char>,
) -> Parse<Seq<StmtView>>
    decreases remaining(tokens, pos), 31nat,
{
    if kind_at(tokens, pos) != TokenKind::LeftBrace {
        Err(before)
    } else {
        match block(tokens, pos + 1, Seq::empty()) {
            Err(message) => Err(message),
            Ok((body, used)) => if kind_at(tokens, pos + 1 + used) == TokenKind::RightBrace {
                Ok((body, used + 2))
            } else {
                Err(after)
            },
        }
    }
}

/// Whether a declaration of a binding without `forNow` starts at `pos`: a
/// name followed at once by a type.
pub open spec fn starts_binding(tokens: Seq<TokenView>, pos: nat) -> bool {
    kind_at(tokens, pos) == TokenKind::Identifier && (kind_at(tokens, pos + 1)
        == TokenKind::TypePrefix || is_simple_type(kind_at(tokens, pos + 1)))
}

/// A declaration: what a program and every block is a list of.
#[verifier::opaque]
pub open spec fn declaration(tokens: Seq<TokenView>, pos: nat) -> Parse<StmtView>
    decreases remaining(tokens, pos), 29nat,
{
    let kind = kind_at(tokens, pos);
    if kind == TokenKind::Module {
        shift(module_declaration(tokens, pos + 1), 1)
    } else if kind == TokenKind::By {
        shift(function_declaration(tokens, pos + 1), 1)
    } else if kind == TokenKind::See {
        shift(type_definition(tokens, pos + 1), 1)
    } else if kind == TokenKind::Import {
        shift(import_declaration(tokens, pos + 1), 1)
    } else if kind == TokenKind::ForNow {
        shift(variable_declaration(tokens, pos + 1, true), 1)
    } else if kind == TokenKind::TypePrefix {
        shift(variable_declaration(tokens, pos + 1, false), 1)
    } else if kind == TokenKind::Write {
        shift(write_statement(tokens, pos + 1), 1)
    } else if starts_binding(tokens, pos) {
        variable_declaration(tokens, pos, false)
    } else {
        statement(tokens, pos)
    }
}

/// A module after its keyword: a name and a braced body.
#[verifier::opaque]
pub open spec fn module_declaration(tokens: Seq<TokenView>, pos: nat) -> Parse<StmtView>
    decreases remaining(tokens, pos), 32nat,
{
    if kind_at(tokens, pos) != TokenKind::Identifier {
        Err("Expected module name"@)
    } else {
        match braced(
            tokens,
            pos + 1,
            "Expected '{' after module name"@,
            "Expected '}' after module body"@,
        ) {
            Err(message) => Err(message),
            Ok((body, used)) => Ok(
                (StmtView::ModuleDeclaration { name: text_at(tokens, pos), body }, used + 1),
            ),
        }
    }
}

/// How many tokens one comment spans from `pos` on: up to and with the next
/// comment mark, or up to a closing brace or the end of the input.
pub open spec fn comment_span(tokens: Seq<TokenView>, pos: nat) -> nat
    decreases remaining(tokens, pos),
{
    if closes_block(tokens, pos) {
        0
    } else if kind_at(tokens, pos) == TokenKind::ExclamationMark {
        1
    } else {
        1 + comment_span(tokens, pos + 1)
    }
}

/// How many tokens the comments at `pos` span, each opened by a comment mark.
pub open spec fn comments_span(tokens: Seq<TokenView>, pos: nat) -> nat
    decreases remaining(tokens, pos),
{
    if kind_at(tokens, pos) == TokenKind::ExclamationMark {
        let first = 1 + comment_span(tokens, pos + 1);
        first + comments_span(tokens, pos + first)
    } else {
        0
    }
}

/// The parameters of a function from `pos` on, each a sigil, a name and a type
/// tag, after the parameters `done`.
pub open spec fn parameters(
    tokens: Seq<TokenView>,
    pos: nat,
    done: Seq<(Seq<char>, Seq<char>)>,
) -> Parse<Seq<(Seq<char>, Seq<char>)>>
    decreases remaining(tokens, pos),
{
    if kind_at(tokens, pos) != TokenKind::Ampersand {
        Ok((done, 0))
    } else if kind_at(tokens, pos + 1) != TokenKind::Identifier {
        Err("Expected parameter name after '@'"@)
    } else {
        match type_tag(
            tokens,
            pos + 2,
            "Expected parameter type after '#'"@,
            "Expected parameter type"@,
        ) {
            Err(message) => Err(message),
            Ok((tag, used)) => shift(
                parameters(tokens, pos + 2 + used, done.push((text_at(tokens, pos + 1), tag))),
                used + 2,
            ),
        }
    }
}

/// What stands between the braces of a function: comments, the parameters
/// and the body, up to and with the closing brace.
#[verifier::opaque]
pub open spec fn function_body(tokens: Seq<TokenView>, pos: nat) -> Parse<
    (Seq<(Seq<char>, Seq<char>)>, Seq<StmtView>),
>
    decreases remaining(tokens, pos), 32nat,
{
    let head = comments_span(tokens, pos);
    match parameters(tokens, pos + head, Seq::empty()) {
        Err(message) => Err(message),
        Ok((params, used)) => match block(tokens, pos + head + used, Seq::empty()) {
            Err(message) => Err(message),
            Ok((body, more)) => if kind_at(tokens, pos + head + used + more)
                == TokenKind::RightBrace {
                Ok(((params, body), head + used + more + 1))
            } else {
                Err("Expected '}' after function body"@)
            },
        },
    }
}

/// The name of the function whose `by` was just read at `pos - 1`: the token
/// before `by`, which must be a name.
pub open spec fn function_name(tokens: Seq<TokenView>, pos: nat) -> Option<Seq<char>> {
    if pos >= 2 && kind_at(tokens, (pos - 2) as nat) == TokenKind::Identifier {
        Some(text_at(tokens, (pos - 2) as nat))
    } else {
        None
    }
}

/// A function after its `by`: the name is the token before `by`; then the
/// return type, and in braces comments, parameters and the body.
#[verifier::opaque]
pub open spec fn function_declaration(tokens: Seq<TokenView>, pos: nat) -> Parse<StmtView>
    decreases remaining(tokens, pos), 33nat,
{
    match function_name(tokens, pos) {
        None => Err("Expected function name before 'by'"@),
        Some(name) => match type_tag(
            tokens,
            pos,
            "Expected return type after '#'"@,
            "Expected return type before 'by'"@,
        ) {
            Err(message) => Err(message),
            Ok((return_type, used)) => if kind_at(tokens, pos + used) != TokenKind::LeftBrace {
                Err("Expected '{' after 'by'"@)
            } else {
                match function_body(tokens, pos + used + 1) {
                    Err(message) => Err(message),
                    Ok((inner, more)) => Ok(
                        (
                            StmtView::Function {
                                name,
                                return_type,
                                params: inner.0,
                                body: inner.1,
                            },
                            used + 1 + more,
                        ),
                    ),
                }
            },
        },
    }
}

/// A binding: a name, a type tag, `is` and the initializer.
#[verifier::opaque]
pub open spec fn variable_declaration(tokens: Seq<TokenView>, pos: nat, mutable: bool) -> Parse<
    StmtView,
> {
    if kind_at(tokens, pos) != TokenKind::Identifier {
        Err("Expected variable name"@)
    } else {
        match type_tag(
            tokens,
            pos + 1,
            "Expected type name after '#'"@,
            "Expected type annotation for variable"@,
        ) {
            Err(message) => Err(message),
            Ok((type_label, used)) => if kind_at(tokens, pos + 1 + used) != TokenKind::Is {
                Err("Expected 'is' after type annotation"@)
            } else {
                match expression(tokens, pos + used + 2) {
                    Err(message) => Err(message),
                    Ok((initializer, more)) => Ok(
                        (
                            StmtView::Value {
                                name: text_at(tokens, pos),
                                type_label,
                                initializer,
                                mutable,
                            },
                            used + 2 + more,
                        ),
                    ),
                }
            },
        }
    }
}

/// A print statement after its keyword: a parenthesised expression.
#[verifier::opaque]
pub open spec fn write_statement(tokens: Seq<TokenView>, pos: nat) -> Parse<StmtView> {
    if kind_at(tokens, pos) != TokenKind::LeftParen {
        Err("Expected '(' after 'write'"@)
    } else {
        match expression(tokens, pos + 1) {
            Err(message) => Err(message),
            Ok((value, used)) => if kind_at(tokens, pos + 1 + used) == TokenKind::RightParen {
                Ok((StmtView::Write(value), used + 2))
            } else {
                Err("Expected ')' after write expression"@)
            },
        }
    }
}

/// A statement: a control-flow construct, a reassignment, or an expression.
#[verifier::opaque]
pub open spec fn statement(tokens: Seq<TokenView>, pos: nat) -> Parse<StmtView>
    decreases remaining(tokens, pos), 28nat,
{
    let kind = kind_at(tokens, pos);
    if kind == TokenKind::If {
        shift(if_statement(tokens, pos + 1), 1)
    } else if kind == TokenKind::Unless {
        shift(unless_statement(tokens, pos + 1), 1)
    } else if kind == TokenKind::While {
        shift(while_statement(tokens, pos + 1), 1)
    } else if kind == TokenKind::For {
        shift(for_statement(tokens, pos + 1), 1)
    } else if kind == TokenKind::Of {
        shift(of_statement(tokens, pos + 1), 1)
    } else if kind == TokenKind::Change {
        shift(change_statement(tokens, pos + 1), 1)
    } else if kind == TokenKind::Break {
        Ok((StmtView::Break, 1))
    } else if kind == TokenKind::Continue {
        Ok((StmtView::Continue, 1))
    } else if kind == TokenKind::Produce {
        shift(produce_statement(tokens, pos + 1), 1)
    } else {
        match expression(tokens, pos) {
            Err(message) => Err(message),
            Ok((value, used)) => Ok((StmtView::Expression(value), used)),
        }
    }
}

/// What follows the then-block of an `if`: nothing, `else` with a block, or
/// `else if` with a whole `if` as the only statement of the else-branch.
#[verifier::opaque]
pub open spec fn else_branch(tokens: Seq<TokenView>, pos: nat) -> Parse<Option<Seq<StmtView>>>
    decreases remaining(tokens, pos), 31nat,
{
    if kind_at(tokens, pos) != TokenKind::Else {
        Ok((None, 0))
    } else if kind_at(tokens, pos + 1) == TokenKind::If {
        match if_statement(tokens, pos + 2) {
            Err(message) => Err(message),
            Ok((nested, used)) => Ok((Some(seq![nested]), used + 2)),
        }
    } else {
        match braced(
            tokens,
            pos + 1,
            "Expected '{' after else"@,
            "Expected '}' after else block"@,
        ) {
            Err(message) => Err(message),
            Ok((body, used)) => Ok((Some(body), used + 1)),
        }
    }
}

/// The branches of an `if` after its condition: the then-block and what
/// follows it.
#[verifier::opaque]
pub open spec fn if_branches(tokens: Seq<TokenView>, pos: nat) -> Parse<
    (Seq<StmtView>, Option<Seq<StmtView>>),
>
    decreases remaining(tokens, pos), 32nat,
{
    match braced(tokens, pos, "Expected '{' after if condition"@, "Expected '}' after if block"@) {
        Err(message) => Err(message),
        Ok((then_branch, used)) => match else_branch(tokens, pos + used) {
            Err(message) => Err(message),
            Ok((else_branch, more)) => Ok(((then_branch, else_branch), used + more)),
        },
    }
}

/// An `if` after its keyword: the condition and the branches.
#[verifier::opaque]
pub open spec fn if_statement(tokens: Seq<TokenView>, pos: nat) -> Parse<StmtView>
    decreases remaining(tokens, pos), 33nat,
{
    match expression(tokens, pos) {
        Err(message) => Err(message),
        Ok((condition, used)) => match if_branches(tokens, pos + used) {
            Err(message) => Err(message),
            Ok((branches, more)) => Ok(
                (
                    StmtView::If {
                        condition,
                        then_branch: branches.0,
                        else_branch: branches.1,
                    },
                    used + more,
                ),
            ),
        },
    }
}

/// An `unless` after its keyword: the condition and the body.
#[verifier::opaque]
pub open spec fn unless_statement(tokens: Seq<TokenView>, pos: nat) -> Parse<StmtView>
    decreases remaining(tokens, pos), 32nat,
{
    match expression(tokens, pos) {
        Err(message) => Err(message),
        Ok((condition, used)) => match braced(
            tokens,
            pos + used,
            "Expected '{' after unless condition"@,
            "Expected '}' after unless block"@,
        ) {
            Err(message) => Err(message),
            Ok((body, more)) => Ok((StmtView::Unless { condition, body }, used + more)),
        },
    }
}

/// A `while` after its keyword: the condition and the body.
#[verifier::opaque]
pub open spec fn while_statement(tokens: Seq<TokenView>, pos: nat) -> Parse<StmtView>
    decreases remaining(tokens, pos), 32nat,
{
    match expression(tokens, pos) {
        Err(message) => Err(message),
        Ok((condition, used)) => match braced(
            tokens,
            pos + used,
            "Expected '{' after while condition"@,
            "Expected '}' after while block"@,
        ) {
            Err(message) => Err(message),
            Ok((body, more)) => Ok((StmtView::While { condition, body }, used + more)),
        },
    }
}

/// A `for` after its keyword: the variable, `in`, the iterable and the body.
#[verifier::opaque]
pub open spec fn for_statement(tokens: Seq<TokenView>, pos: nat) -> Parse<StmtView>
    decreases remaining(tokens, pos), 32nat,
{
    if kind_at(tokens, pos) != TokenKind::Identifier {
        Err("Expected variable name after 'for'"@)
    } else if kind_at(tokens, pos + 1) != TokenKind::In {
        Err("Expected 'in' after for loop variable"@)
    } else {
        match expression(tokens, pos + 2) {
            Err(message) => Err(message),
            Ok((iterable, used)) => match braced(
                tokens,
                pos + 2 + used,
                "Expected '{' after for loop iterable"@,
                "Expected '}' after for loop body"@,
            ) {
                Err(message) => Err(message),
                Ok((body, more)) => Ok(
                    (
                        StmtView::For { variable: text_at(tokens, pos), iterable, body },
                        used + more + 2,
                    ),
                ),
            },
        }
    }
}

/// The body of a case or of the default: a braced block or one declaration.
#[verifier::opaque]
pub open spec fn case_body(tokens: Seq<TokenView>, pos: nat, after: Seq<char>) -> Parse<
    Seq<StmtView>,
>
    decreases remaining(tokens, pos), 32nat,
{
    if kind_at(tokens, pos) == TokenKind::LeftBrace {
        braced(tokens, pos, after, after)
    } else {
        match declaration(tokens, pos) {
            Err(message) => Err(message),
            Ok((statement, used)) => Ok((seq![statement], used)),
        }
    }
}

/// The default clause after its keyword: an arrow and a body.
#[verifier::opaque]
pub open spec fn default_clause(tokens: Seq<TokenView>, pos: nat) -> Parse<Seq<StmtView>>
    decreases remaining(tokens, pos), 33nat,
{
    if kind_at(tokens, pos) != TokenKind::Arrow {
        Err("Expected '->' after 'otherwise'"@)
    } else {
        shift(case_body(tokens, pos + 1, "Expected '}' after default case block"@), 1)
    }
}

/// What follows the values of a case: an arrow and a body.
#[verifier::opaque]
pub open spec fn case_tail(tokens: Seq<TokenView>, pos: nat) -> Parse<Seq<StmtView>>
    decreases remaining(tokens, pos), 33nat,
{
    if kind_at(tokens, pos) != TokenKind::Arrow {
        Err("Expected '->' after case value"@)
    } else {
        shift(case_body(tokens, pos + 1, "Expected '}' after case block"@), 1)
    }
}

/// One case: one or more values, separated by commas, that share a body.
#[verifier::opaque]
pub open spec fn case_clause(tokens: Seq<TokenView>, pos: nat) -> Parse<
    (Seq<ExprView>, Seq<StmtView>),
>
    decreases remaining(tokens, pos), 34nat,
{
    match expression_list(tokens, pos, Seq::empty()) {
        Err(message) => Err(message),
        Ok((values, used)) => match case_tail(tokens, pos + used) {
            Err(message) => Err(message),
            Ok((body, more)) => Ok(((values, body), used + more)),
        },
    }
}

/// The clauses of a switch from `pos` up to its closing brace, after the cases
/// `cases` and the default `default`. A later default replaces an earlier one.
#[verifier::opaque]
pub open spec fn of_clauses(
    tokens: Seq<TokenView>,
    pos: nat,
    cases: Seq<(Seq<ExprView>, Seq<StmtView>)>,
    default: Option<Seq<StmtView>>,
) -> Parse<(Seq<(Seq<ExprView>, Seq<StmtView>)>, Option<Seq<StmtView>>)>
    decreases remaining(tokens, pos), 35nat,
{
    if closes_block(tokens, pos) {
        Ok(((cases, default), 0))
    } else if kind_at(tokens, pos) == TokenKind::Otherwise {
        match default_clause(tokens, pos + 1) {
            Err(message) => Err(message),
            Ok((body, used)) => shift(
                of_clauses(tokens, pos + 1 + used, cases, Some(body)),
                used + 1,
            ),
        }
    } else {
        match case_clause(tokens, pos) {
            Err(message) => Err(message),
            Ok((clause, used)) => if used == 0 {
                Err(stalled())
            } else {
                shift(of_clauses(tokens, pos + used, cases.push(clause), default), used)
            },
        }
    }
}

/// A switch after its keyword: the value and the braced clauses.
#[verifier::opaque]
pub open spec fn of_statement(tokens: Seq<TokenView>, pos: nat) -> Parse<StmtView>
    decreases remaining(tokens, pos), 32nat,
{
    match expression(tokens, pos) {
        Err(message) => Err(message),
        Ok((value, used)) => if kind_at(tokens, pos + used) != TokenKind::LeftBrace {
            Err("Expected '{' after switch value"@)
        } else {
            match of_clauses(tokens, pos + used + 1, Seq::empty(), None) {
                Err(message) => Err(message),
                Ok(((cases, default), more)) => if kind_at(tokens, pos + used + 1 + more)
                    == TokenKind::RightBrace {
                    Ok((StmtView::Of { value, cases, default }, used + more + 2))
                } else {
                    Err("Expected '}' after switch statement"@)
                },
            }
        },
    }
}

/// A reassignment after its keyword: the name, `to` and the new value.
#[verifier::opaque]
pub open spec fn change_statement(tokens: Seq<TokenView>, pos: nat) -> Parse<StmtView> {
    if kind_at(tokens, pos) != TokenKind::Identifier {
        Err("Expected variable name after 'change'"@)
    } else if kind_at(tokens, pos + 1) != TokenKind::To {
        Err("Expected 'to' after variable name in change statement"@)
    } else {
        match expression(tokens, pos + 2) {
            Err(message) => Err(message),
            Ok((value, used)) => Ok(
                (StmtView::Change { name: text_at(tokens, pos), value }, used + 2),
            ),
        }
    }
}

/// An early return after its keyword: no value before a closing brace, else
/// an expression.
#[verifier::opaque]
pub open spec fn produce_statement(tokens: Seq<TokenView>, pos: nat) -> Parse<StmtView> {
    if kind_at(tokens, pos) == TokenKind::RightBrace {
        Ok((StmtView::Produce(None), 0))
    } else {
        match expression(tokens, pos) {
            Err(message) => Err(message),
            Ok((value, used)) => Ok((StmtView::Produce(Some(value)), used)),
        }
    }
}

/// The statements of a whole program from `pos` up to the end of the input,
/// after the statements `done`.
pub open spec fn program(tokens: Seq<TokenView>, pos: nat, done: Seq<StmtView>) -> Result<
    Seq<StmtView>,
    Seq<char>,
>
    decreases remaining(tokens, pos),
{
    if kind_at(tokens, pos) == TokenKind::EOF {
        Ok(done)
    } else {
        match declaration(tokens, pos) {
            Err(message) => Err(message),
            Ok((statement, used)) => if used == 0 {
                Err(stalled())
            } else {
                program(tokens, pos + used, done.push(statement))
            },
        }
    }
}

/// A primary expression spans at least one token.
pub proof fn lemma_primary_advances(tokens: Seq<TokenView>, pos: nat)
    ensures
        primary(tokens, pos) matches Ok((_, used)) ==> used >= 1,
{
    reveal_with_fuel(primary, 1);
}

/// A primary expression with its postfix chain spans at least one token.
pub proof fn lemma_call_advances(tokens: Seq<TokenView>, pos: nat)
    ensures
        call(tokens, pos) matches Ok((_, used)) ==> used >= 1,
{
    lemma_primary_advances(tokens, pos);
    reveal_with_fuel(call, 1);
    reveal_with_fuel(primary, 1);
}

/// A prefix expression spans at least one token.
pub proof fn lemma_unary_advances(tokens: Seq<TokenView>, pos: nat)
    ensures
        unary(tokens, pos) matches Ok((_, used)) ==> used >= 1,
{
    lemma_call_advances(tokens, pos);
    reveal_with_fuel(unary, 1);
    reveal_with_fuel(call, 1);
}

/// An expression of any binary level spans at least one token.
pub proof fn lemma_binary_level_advances(tokens: Seq<TokenView>, pos: nat, level: Level)
    ensures
        binary_level(tokens, pos, level) matches Ok((_, used)) ==> used >= 1,
        operand(tokens, pos, level) matches Ok((_, used)) ==> used >= 1,
    decreases level.rank(),
{
    match level {
        Level::Or => lemma_binary_level_advances(tokens, pos, Level::And),
        Level::And => lemma_binary_level_advances(tokens, pos, Level::Equality),
        Level::Equality => lemma_binary_level_advances(tokens, pos, Level::Comparison),
        Level::Comparison => lemma_binary_level_advances(tokens, pos, Level::Term),
        Level::Term => lemma_binary_level_advances(tokens, pos, Level::Factor),
        Level::Factor => lemma_unary_advances(tokens, pos),
    }
    assert(operand(tokens, pos, level) matches Ok((_, used)) ==> used >= 1) by {
        reveal_with_fuel(operand, 1);
        reveal_with_fuel(binary_level, 1);
        reveal_with_fuel(unary, 1);
    }
    assert(binary_level(tokens, pos, level) matches Ok((_, used)) ==> used >= 1) by {
        reveal_with_fuel(binary_level, 1);
        reveal_with_fuel(operand, 1);
    }
}

/// An expression spans at least one token.
pub proof fn lemma_expression_advances(tokens: Seq<TokenView>, pos: nat)
    ensures
        expression(tokens, pos) matches Ok((_, used)) ==> used >= 1,
{
    lemma_binary_level_advances(tokens, pos, Level::Or);
    assert(assignment(tokens, pos) matches Ok((_, used)) ==> used >= 1) by {
        reveal_with_fuel(assignment, 1);
        reveal_with_fuel(binary_level, 1);
    }
    reveal_with_fuel(expression, 1);
    reveal_with_fuel(assignment, 1);
}

/// A declaration spans at least one token: a list of declarations never
/// stalls.
pub proof fn lemma_declaration_advances(tokens: Seq<TokenView>, pos: nat)
    ensures
        declaration(tokens, pos) matches Ok((_, used)) ==> used >= 1,
        statement(tokens, pos) matches Ok((_, used)) ==> used >= 1,
{
    lemma_expression_advances(tokens, pos);
    assert(statement(tokens, pos) matches Ok((_, used)) ==> used >= 1) by {
        reveal_with_fuel(statement, 1);
    }
    assert(variable_declaration(tokens, pos, false) matches Ok((_, used)) ==> used >= 1) by {
        reveal(variable_declaration);
    }
    assert(declaration(tokens, pos) matches Ok((_, used)) ==> used >= 1) by {
        reveal_with_fuel(declaration, 1);
        reveal_with_fuel(statement, 1);
    }
}

/// A case of a switch spans at least one token: a list of cases never
/// stalls.
pub proof fn lemma_case_clause_advances(tokens: Seq<TokenView>, pos: nat)
    ensures
        case_clause(tokens, pos) matches Ok((_, used)) ==> used >= 1,
{
    lemma_expression_advances(tokens, pos);
    assert(expression_list(tokens, pos, Seq::empty()) matches Ok((_, used)) ==> used >= 1) by {
        reveal_with_fuel(expression_list, 1);
        reveal_with_fuel(expression, 1);
    }
    reveal_with_fuel(case_clause, 1);
}

} // verus!
