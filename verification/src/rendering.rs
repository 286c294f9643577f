//! The printed forms of values and of syntax trees: for each value the name
//! of its kind and what it holds, in the layout of the standard debug
//! formatting. Numbers are spelled by the arithmetic of the caller.
use crate::ast::{
    lemma_expr_view, lemma_exprs_view_index, lemma_stmt_view, lemma_stmts_view_index,
    lemma_text_pairs_index, lemma_texts_empty, lemma_texts_push, lemma_type_view, text_pairs,
    texts, Expr, ExprView, Literal, LiteralView, Stmt, StmtView, Type, TypeDefinition,
    TypeDefinitionView, TypeView,
};
use crate::ast::{
    cases_view, entries_view, exprs_view, named_exprs_view, stmts_view, types_view, variants_view,
};
use crate::number::{arithmetic_of, dependable, read, show, Arithmetic, NumberAnswer, NumberOp};
use crate::token::{Token, TokenKind, TokenView};
use crate::value::{Value, ValueView};
use vstd::prelude::*;
use vstd::string::StringExecFns;

verus! {

/// The text that `core::fmt::Debug` writes for a string: the string between
/// double quotes, with what cannot stand there escaped.
pub uninterp spec fn debug_text(text: Seq<char>) -> Seq<char>;

/// The string `text` as `core::fmt::Debug` writes it. The standard library
/// formats a string between double quotes and escapes quotes, backslashes and
/// characters that do not print; the result depends on `text` alone.
#[verifier::external_body]
fn quoted(text: &str) -> (r: String)
    ensures
        r@ == debug_text(text@),
{
    format!("{:?}", text)
}

/// The items from place `from` on, with `, ` between them.
pub open spec fn joined(items: Seq<Seq<char>>, from: nat) -> Seq<char>
    decreases items.len() - from,
{
    if from >= items.len() {
        Seq::empty()
    } else if from + 1 == items.len() {
        items[from as int]
    } else {
        items[from as int] + ", "@ + joined(items, from + 1)
    }
}

/// A list of the items: the items between brackets, with `, ` between them.
pub open spec fn listed(items: Seq<Seq<char>>) -> Seq<char> {
    "["@ + joined(items, 0) + "]"@
}

/// Joins the items with `, ` between them.
fn join(items: &Vec<String>) -> (r: String)
    ensures
        r@ == joined(texts(items@), 0),
{
    let ghost views = texts(items@);
    let mut text = String::new();
    let mut i: usize = 0;
    proof {
        lemma_texts_index(items@);
        assert(text@ + joined(views, 0) =~= joined(views, 0));
    }
    while i < items.len()
        invariant
            i <= items.len(),
            views == texts(items@),
            views.len() == items.len(),
            forall|j: int| 0 <= j < items.len() ==> (#[trigger] views[j]) == items@[j]@,
            text@ + joined(views, i as nat) == joined(views, 0),
        decreases items.len() - i,
    {
        let ghost before = text@;
        let ghost rest = joined(views, (i + 1) as nat);
        text.append(items[i].as_str());
        if i + 1 < items.len() {
            text.append(", ");
            proof {
                assert(text@ + rest =~= before + (views[i as int] + ", "@ + rest));
            }
        } else {
            proof {
                assert(rest =~= Seq::<char>::empty());
                assert(text@ + rest =~= before + views[i as int]);
            }
        }
        i += 1;
    }
    proof {
        assert(text@ + Seq::<char>::empty() =~= text@);
    }
    text
}

/// The texts of a list of strings are as many as the strings, each the text
/// of the string in its place.
proof fn lemma_texts_index(v: Seq<String>)
    ensures
        texts(v).len() == v.len(),
        forall|i: int| 0 <= i < v.len() ==> (#[trigger] texts(v)[i]) == v[i]@,
{
    reveal(texts);
}

/// Lists the items between brackets.
fn list(items: &Vec<String>) -> (r: String)
    ensures
        r@ == listed(texts(items@)),
{
    let mut text = "[".to_owned();
    text.append(join(items).as_str());
    text.append("]");
    text
}

/// The character of the decimal digit `d`.
pub open spec fn digit(d: nat) -> char {
    if d == 0 {
        '0'
    } else if d == 1 {
        '1'
    } else if d == 2 {
        '2'
    } else if d == 3 {
        '3'
    } else if d == 4 {
        '4'
    } else if d == 5 {
        '5'
    } else if d == 6 {
        '6'
    } else if d == 7 {
        '7'
    } else if d == 8 {
        '8'
    } else {
        '9'
    }
}

/// The decimal digits of `n`, the most significant first.
pub open spec fn digits(n: nat) -> Seq<char>
    decreases n,
{
    if n < 10 {
        seq![digit(n)]
    } else {
        digits(n / 10).push(digit(n % 10))
    }
}

/// The decimal spelling of `i`: a minus sign where it is negative, and the
/// digits of its magnitude.
pub open spec fn decimal(i: int) -> Seq<char> {
    if i < 0 {
        "-"@ + digits((-i) as nat)
    } else {
        digits(i as nat)
    }
}

fn digit_char(d: u64) -> (c: char)
    requires
        d < 10,
    ensures
        c == digit(d as nat),
{
    if d == 0 {
        '0'
    } else if d == 1 {
        '1'
    } else if d == 2 {
        '2'
    } else if d == 3 {
        '3'
    } else if d == 4 {
        '4'
    } else if d == 5 {
        '5'
    } else if d == 6 {
        '6'
    } else if d == 7 {
        '7'
    } else if d == 8 {
        '8'
    } else {
        '9'
    }
}

/// Appends the decimal digits of `n` to `text`.
fn push_digits(text: &mut String, n: u64)
    ensures
        final(text)@ == old(text)@ + digits(n as nat),
    decreases n,
{
    if n < 10 {
        text.push(digit_char(n));
        proof {
            assert(text@ =~= old(text)@ + digits(n as nat));
        }
    } else {
        push_digits(text, n / 10);
        text.push(digit_char(n % 10));
        proof {
            assert(text@ =~= old(text)@ + digits(n as nat));
        }
    }
}

/// The decimal spelling of `i`.
pub fn decimal_text(i: i64) -> (r: String)
    ensures
        r@ == decimal(i as int),
{
    let mut text = String::new();
    if i < 0 {
        text.append("-");
        let magnitude: u64 = ((-(i + 1)) as u64) + 1;
        push_digits(&mut text, magnitude);
    } else {
        push_digits(&mut text, i as u64);
        proof {
            assert(text@ =~= digits(i as nat));
        }
    }
    text
}

/// A pair of texts, quoted, in parentheses.
pub open spec fn render_pair(pair: (Seq<char>, Seq<char>)) -> Seq<char> {
    "("@ + debug_text(pair.0) + ", "@ + debug_text(pair.1) + ")"@
}

/// Each pair of texts in its printed form.
pub open spec fn render_pairs(pairs: Seq<(Seq<char>, Seq<char>)>) -> Seq<Seq<char>> {
    Seq::new(pairs.len(), |i: int| render_pair(pairs[i]))
}

/// Each text quoted.
pub open spec fn render_texts(items: Seq<Seq<char>>) -> Seq<Seq<char>> {
    Seq::new(items.len(), |i: int| debug_text(items[i]))
}

/// A variant of a variant type: its name, quoted, and the list of its fields.
pub open spec fn render_variant(variant: (Seq<char>, Seq<(Seq<char>, Seq<char>)>)) -> Seq<char> {
    "("@ + debug_text(variant.0) + ", "@ + listed(render_pairs(variant.1)) + ")"@
}

/// Each variant in its printed form.
pub open spec fn render_variants(
    variants: Seq<(Seq<char>, Seq<(Seq<char>, Seq<char>)>)>,
) -> Seq<Seq<char>> {
    Seq::new(variants.len(), |i: int| render_variant(variants[i]))
}

/// The printed form of a text that may be absent.
pub open spec fn render_option_text(text: Option<Seq<char>>) -> Seq<char> {
    match text {
        Some(text) => "Some("@ + debug_text(text) + ")"@,
        None => "None"@,
    }
}

/// The printed form of a truth value.
pub open spec fn render_bool(b: bool) -> Seq<char> {
    if b {
        "true"@
    } else {
        "false"@
    }
}

/// The printed form of a number that is spelled `text`.
pub open spec fn render_number(a: Arithmetic, text: Seq<char>) -> Seq<char> {
    "Number("@ + (a.show)((a.read)(text)) + ")"@
}

/// The printed form of a literal.
pub open spec fn render_literal(a: Arithmetic, literal: LiteralView) -> Seq<char> {
    match literal {
        LiteralView::Number(text) => render_number(a, text),
        LiteralView::Integer(i) => "Integer("@ + decimal(i as int) + ")"@,
        LiteralView::String(text) => "String("@ + debug_text(text) + ")"@,
        LiteralView::Decision(b) => "Decision("@ + render_bool(b) + ")"@,
        LiteralView::Nothing => "Nothing"@,
    }
}

/// The printed form of a token: the name of its tag and, for a token with
/// text, what it holds.
pub open spec fn render_token(a: Arithmetic, token: TokenView) -> Seq<char> {
    if token.kind == TokenKind::Number {
        render_number(a, token.text)
    } else if token.kind.carries_text() {
        token.kind.spec_name() + "("@ + debug_text(token.text) + ")"@
    } else {
        token.kind.spec_name()
    }
}

/// The printed form of a type.
#[verifier::opaque]
pub open spec fn render_type(t: TypeView) -> Seq<char>
    decreases t, 1nat,
{
    match t {
        TypeView::Primitive(name) => "Primitive("@ + debug_text(name) + ")"@,
        TypeView::Custom(name) => "Custom("@ + debug_text(name) + ")"@,
        TypeView::List(inner) => "List("@ + render_type(*inner) + ")"@,
        TypeView::Mapping(key, value) => "Map("@ + render_type(*key) + ", "@ + render_type(
            *value,
        ) + ")"@,
        TypeView::Tuple(items) => "Tuple("@ + listed(render_types(items)) + ")"@,
        TypeView::Union(items) => "Union("@ + listed(render_types(items)) + ")"@,
        TypeView::Function { parameters, return_type } => "Function { parameters: "@ + listed(
            render_types(parameters),
        ) + ", return_type: "@ + render_type(*return_type) + " }"@,
    }
}

/// Each type in its printed form.
#[verifier::opaque]
pub open spec fn render_types(v: Seq<TypeView>) -> Seq<Seq<char>>
    decreases v, 0nat,
{
    Seq::new(
        v.len(),
        |i: int|
            if 0 <= i < v.len() {
                render_type(v[i])
            } else {
                Seq::empty()
            },
    )
}

/// The printed form of a type definition.
pub open spec fn render_definition(d: TypeDefinitionView) -> Seq<char> {
    match d {
        TypeDefinitionView::Alias(t) => "Alias("@ + render_type(t) + ")"@,
        TypeDefinitionView::Record { fields } => "Record { fields: "@ + listed(
            render_pairs(fields),
        ) + " }"@,
        TypeDefinitionView::Variant { variants } => "Variant { variants: "@ + listed(
            render_variants(variants),
        ) + " }"@,
    }
}

/// The printed form of an expression.
#[verifier::opaque]
pub open spec fn render_expr(a: Arithmetic, e: ExprView) -> Seq<char>
    decreases e, 1nat,
{
    match e {
        ExprView::Binary { left, operator, right } => "Binary { left: "@ + render_expr(a, *left)
            + ", operator: "@ + render_token(a, operator) + ", right: "@ + render_expr(a, *right)
            + " }"@,
        ExprView::Grouping(inner) => "Grouping("@ + render_expr(a, *inner) + ")"@,
        ExprView::Literal(literal) => "Literal("@ + render_literal(a, literal) + ")"@,
        ExprView::Unary { operator, right } => "Unary { operator: "@ + render_token(a, operator)
            + ", right: "@ + render_expr(a, *right) + " }"@,
        ExprView::Variable(name) => "Variable("@ + debug_text(name) + ")"@,
        ExprView::FunctionCall { name, arguments, named_arguments } => "FunctionCall { name: "@
            + debug_text(name) + ", arguments: "@ + listed(render_exprs(a, arguments))
            + ", named_arguments: "@ + listed(render_named_exprs(a, named_arguments)) + " }"@,
        ExprView::TypeFunctionCall { object, function } => "TypeFunctionCall { object: "@
            + render_expr(a, *object) + ", function: "@ + debug_text(function) + " }"@,
        ExprView::List(items) => "List("@ + listed(render_exprs(a, items)) + ")"@,
        ExprView::Mapping(entries) => "Map("@ + listed(render_entries(a, entries)) + ")"@,
        ExprView::Record { type_label, fields } => "Record { type_name: "@ + debug_text(
            type_label,
        ) + ", fields: "@ + listed(render_named_exprs(a, fields)) + " }"@,
        ExprView::TypeAnnotation { expr, type_label } => "TypeAnnotation { expr: "@ + render_expr(
            a,
            *expr,
        ) + ", type_name: "@ + debug_text(type_label) + " }"@,
        ExprView::Lambda { params, body } => "Lambda { params: "@ + listed(render_pairs(params))
            + ", body: "@ + render_expr(a, *body) + " }"@,
        ExprView::AccessExpression { object, index } => "AccessExpression { object: "@
            + render_expr(a, *object) + ", index: "@ + render_expr(a, *index) + " }"@,
    }
}

/// Each expression in its printed form.
#[verifier::opaque]
pub open spec fn render_exprs(a: Arithmetic, v: Seq<ExprView>) -> Seq<Seq<char>>
    decreases v, 0nat,
{
    Seq::new(
        v.len(),
        |i: int|
            if 0 <= i < v.len() {
                render_expr(a, v[i])
            } else {
                Seq::empty()
            },
    )
}

/// Each named expression in its printed form: the name, quoted, and the
/// expression, in parentheses.
#[verifier::opaque]
pub open spec fn render_named_exprs(a: Arithmetic, v: Seq<(Seq<char>, ExprView)>) -> Seq<
    Seq<char>,
>
    decreases v, 0nat,
{
    Seq::new(
        v.len(),
        |i: int|
            if 0 <= i < v.len() {
                "("@ + debug_text(v[i].0) + ", "@ + render_expr(a, v[i].1) + ")"@
            } else {
                Seq::empty()
            },
    )
}

/// Each entry of a map literal in its printed form: the key and the value, in
/// parentheses.
#[verifier::opaque]
pub open spec fn render_entries(a: Arithmetic, v: Seq<(ExprView, ExprView)>) -> Seq<Seq<char>>
    decreases v, 0nat,
{
    Seq::new(
        v.len(),
        |i: int|
            if 0 <= i < v.len() {
                "("@ + render_expr(a, v[i].0) + ", "@ + render_expr(a, v[i].1) + ")"@
            } else {
                Seq::empty()
            },
    )
}

/// The printed form of an expression that may be absent.
pub open spec fn render_option_expr(a: Arithmetic, e: Option<ExprView>) -> Seq<char> {
    match e {
        Some(e) => "Some("@ + render_expr(a, e) + ")"@,
        None => "None"@,
    }
}

/// The printed form of a statement.
#[verifier::opaque]
pub open spec fn render_stmt(a: Arithmetic, s: StmtView) -> Seq<char>
    decreases s, 1nat,
{
    match s {
        StmtView::Expression(e) => "Expression("@ + render_expr(a, e) + ")"@,
        StmtView::Value { name, type_label, initializer, mutable } => "Value { name: "@
            + debug_text(name) + ", type_name: "@ + debug_text(type_label) + ", initializer: "@
            + render_expr(a, initializer) + ", mutable: "@ + render_bool(mutable) + " }"@,
        StmtView::Function { name, return_type, params, body } => "Function { name: "@
            + debug_text(name) + ", return_type: "@ + debug_text(return_type) + ", params: "@
            + listed(render_pairs(params)) + ", body: "@ + listed(render_stmts(a, body)) + " }"@,
        StmtView::If { condition, then_branch, else_branch } => "If { condition: "@ + render_expr(
            a,
            condition,
        ) + ", then_branch: "@ + listed(render_stmts(a, then_branch)) + ", else_branch: "@
            + (match else_branch {
            Some(branch) => "Some("@ + listed(render_stmts(a, branch)) + ")"@,
            None => "None"@,
        }) + " }"@,
        StmtView::Unless { condition, body } => "Unless { condition: "@ + render_expr(a, condition)
            + ", body: "@ + listed(render_stmts(a, body)) + " }"@,
        StmtView::While { condition, body } => "While { condition: "@ + render_expr(a, condition)
            + ", body: "@ + listed(render_stmts(a, body)) + " }"@,
        StmtView::For { variable, iterable, body } => "For { variable: "@ + debug_text(variable)
            + ", iterable: "@ + render_expr(a, iterable) + ", body: "@ + listed(
            render_stmts(a, body),
        ) + " }"@,
        StmtView::Of { value, cases, default } => "Of { value: "@ + render_expr(a, value)
            + ", cases: "@ + listed(render_cases(a, cases)) + ", default: "@ + (match default {
            Some(body) => "Some("@ + listed(render_stmts(a, body)) + ")"@,
            None => "None"@,
        }) + " }"@,
        StmtView::Change { name, value } => "Change { name: "@ + debug_text(name) + ", value: "@
            + render_expr(a, value) + " }"@,
        StmtView::Break => "Break"@,
        StmtView::Continue => "Continue"@,
        StmtView::Produce(value) => "Produce("@ + render_option_expr(a, value) + ")"@,
        StmtView::ModuleDeclaration { name, body } => "ModuleDeclaration { name: "@ + debug_text(
            name,
        ) + ", body: "@ + listed(render_stmts(a, body)) + " }"@,
        StmtView::TypeDefinition { name, definition } => "TypeDefinition { name: "@ + debug_text(
            name,
        ) + ", definition: "@ + render_definition(definition) + " }"@,
        StmtView::Import { path, specific_imports, alias } => "Import { module_path: "@ + listed(
            render_texts(path),
        ) + ", specific_imports: "@ + listed(render_texts(specific_imports)) + ", alias: "@
            + render_option_text(alias) + " }"@,
        StmtView::Write(e) => "Write("@ + render_expr(a, e) + ")"@,
    }
}

/// Each statement in its printed form.
#[verifier::opaque]
pub open spec fn render_stmts(a: Arithmetic, v: Seq<StmtView>) -> Seq<Seq<char>>
    decreases v, 0nat,
{
    Seq::new(
        v.len(),
        |i: int|
            if 0 <= i < v.len() {
                render_stmt(a, v[i])
            } else {
                Seq::empty()
            },
    )
}

/// Each case of a switch in its printed form: the list of its values and the
/// list of its statements, in parentheses.
#[verifier::opaque]
pub open spec fn render_cases(a: Arithmetic, v: Seq<(Seq<ExprView>, Seq<StmtView>)>) -> Seq<
    Seq<char>,
>
    decreases v, 0nat,
{
    Seq::new(
        v.len(),
        |i: int|
            if 0 <= i < v.len() {
                "("@ + listed(render_exprs(a, v[i].0)) + ", "@ + listed(render_stmts(a, v[i].1))
                    + ")"@
            } else {
                Seq::empty()
            },
    )
}

/// The printed form of a value: the name of its kind and what it holds.
pub open spec fn render(a: Arithmetic, value: ValueView) -> Seq<char> {
    match value {
        ValueView::Number(bits) => "Number("@ + (a.show)(bits) + ")"@,
        ValueView::String(text) => "String("@ + debug_text(text) + ")"@,
        ValueView::Boolean(b) => "Boolean("@ + render_bool(b) + ")"@,
        ValueView::Function { name, params, body } => "Function { name: "@ + debug_text(name)
            + ", params: "@ + listed(render_pairs(params)) + ", body: "@ + listed(
            render_stmts(a, body),
        ) + " }"@,
        ValueView::Nil => "Nil"@,
    }
}

/// The line that printing a value writes: a string as it is, every other
/// value in its printed form.
pub open spec fn display(a: Arithmetic, value: ValueView) -> Seq<char> {
    match value {
        ValueView::String(text) => text,
        _ => render(a, value),
    }
}

/// The printed form of a pair of strings.
fn pair_text(pair: &(String, String)) -> (r: String)
    ensures
        r@ == render_pair((pair.0@, pair.1@)),
{
    let mut text = "(".to_owned();
    text.append(quoted(pair.0.as_str()).as_str());
    text.append(", ");
    text.append(quoted(pair.1.as_str()).as_str());
    text.append(")");
    text
}

/// The list of the pairs of strings.
fn pairs_list(v: &Vec<(String, String)>) -> (r: String)
    ensures
        r@ == listed(render_pairs(text_pairs(v@))),
{
    let mut items: Vec<String> = Vec::new();
    let mut i: usize = 0;
    while i < v.len()
        invariant
            i <= v.len(),
            items.len() == i,
            forall|j: int|
                0 <= j < i ==> (#[trigger] items@[j])@ == render_pair((v@[j].0@, v@[j].1@)),
        decreases v.len() - i,
    {
        items.push(pair_text(&v[i]));
        i += 1;
    }
    proof {
        lemma_texts_index(items@);
        lemma_text_pairs_index(v@);
        assert(texts(items@) =~= render_pairs(text_pairs(v@)));
    }
    list(&items)
}

/// The list of the strings, each quoted.
fn texts_list(v: &Vec<String>) -> (r: String)
    ensures
        r@ == listed(render_texts(texts(v@))),
{
    let mut items: Vec<String> = Vec::new();
    let mut i: usize = 0;
    while i < v.len()
        invariant
            i <= v.len(),
            items.len() == i,
            forall|j: int| 0 <= j < i ==> (#[trigger] items@[j])@ == debug_text(v@[j]@),
        decreases v.len() - i,
    {
        items.push(quoted(v[i].as_str()));
        i += 1;
    }
    proof {
        lemma_texts_index(items@);
        lemma_texts_index(v@);
        assert(texts(items@) =~= render_texts(texts(v@)));
    }
    list(&items)
}

/// The list of the variants of a variant type.
fn variants_list(v: &Vec<(String, Vec<(String, String)>)>) -> (r: String)
    ensures
        r@ == listed(render_variants(variants_view(v@))),
{
    let mut items: Vec<String> = Vec::new();
    let mut i: usize = 0;
    while i < v.len()
        invariant
            i <= v.len(),
            items.len() == i,
            forall|j: int|
                0 <= j < i ==> (#[trigger] items@[j])@ == render_variant(
                    (v@[j].0@, text_pairs(v@[j].1@)),
                ),
        decreases v.len() - i,
    {
        let mut text = "(".to_owned();
        text.append(quoted(v[i].0.as_str()).as_str());
        text.append(", ");
        text.append(pairs_list(&v[i].1).as_str());
        text.append(")");
        items.push(text);
        i += 1;
    }
    proof {
        lemma_texts_index(items@);
        reveal(variants_view);
        assert(texts(items@) =~= render_variants(variants_view(v@)));
    }
    list(&items)
}

/// The printed form of a truth value.
fn bool_text(b: bool) -> (r: &'static str)
    ensures
        r@ == render_bool(b),
{
    if b {
        "true"
    } else {
        "false"
    }
}

/// The printed form of a number that is spelled `text`.
fn number_text<F: Fn(NumberOp) -> NumberAnswer>(text: &str, numbers: &F) -> (r: String)
    requires
        dependable(*numbers),
    ensures
        r@ == render_number(arithmetic_of(*numbers), text@),
{
    let mut r = "Number(".to_owned();
    r.append(show(numbers, read(numbers, text)).as_str());
    r.append(")");
    r
}

/// The printed form of a literal.
fn literal_text<F: Fn(NumberOp) -> NumberAnswer>(literal: &Literal, numbers: &F) -> (r: String)
    requires
        dependable(*numbers),
    ensures
        r@ == render_literal(arithmetic_of(*numbers), literal@),
{
    match literal {
        Literal::Number(text) => number_text(text.as_str(), numbers),
        Literal::Integer(i) => {
            let mut r = "Integer(".to_owned();
            r.append(decimal_text(*i).as_str());
            r.append(")");
            r
        },
        Literal::String(text) => {
            let mut r = "String(".to_owned();
            r.append(quoted(text.as_str()).as_str());
            r.append(")");
            r
        },
        Literal::Decision(b) => {
            let mut r = "Decision(".to_owned();
            r.append(bool_text(*b));
            r.append(")");
            r
        },
        Literal::Nothing => "Nothing".to_owned(),
    }
}

/// The printed form of a token.
fn token_text<F: Fn(NumberOp) -> NumberAnswer>(token: &Token, numbers: &F) -> (r: String)
    requires
        dependable(*numbers),
    ensures
        r@ == render_token(arithmetic_of(*numbers), token@),
{
    let kind = token.kind();
    if kind == TokenKind::Number {
        number_text(token.text(), numbers)
    } else if kind == TokenKind::String || kind == TokenKind::MultilineString || kind
        == TokenKind::Identifier {
        let mut r = kind.name().to_owned();
        r.append("(");
        r.append(quoted(token.text()).as_str());
        r.append(")");
        r
    } else {
        kind.name().to_owned()
    }
}

/// The printed form of a type.
fn type_text(t: &Type) -> (r: String)
    ensures
        r@ == render_type(t@),
    decreases t, 1nat,
{
    proof {
        reveal_with_fuel(render_type, 1);
        reveal_with_fuel(render_types, 1);
    }
    proof {
        lemma_type_view(*t);
    }
    match t {
        Type::Primitive(name) => {
            let mut text = "Primitive(".to_owned();
            text.append(quoted(name.as_str()).as_str());
            text.append(")");
            text
        },
        Type::Custom(name) => {
            let mut text = "Custom(".to_owned();
            text.append(quoted(name.as_str()).as_str());
            text.append(")");
            text
        },
        Type::List(inner) => {
            let mut text = "List(".to_owned();
            text.append(type_text(&**inner).as_str());
            text.append(")");
            text
        },
        Type::Mapping(key, value) => {
            let mut text = "Map(".to_owned();
            text.append(type_text(&**key).as_str());
            text.append(", ");
            text.append(type_text(&**value).as_str());
            text.append(")");
            text
        },
        Type::Tuple(items) => {
            let mut text = "Tuple(".to_owned();
            text.append(types_list(items).as_str());
            text.append(")");
            text
        },
        Type::Union(items) => {
            let mut text = "Union(".to_owned();
            text.append(types_list(items).as_str());
            text.append(")");
            text
        },
        Type::Function { parameters, return_type } => {
            let mut text = "Function { parameters: ".to_owned();
            text.append(types_list(parameters).as_str());
            text.append(", return_type: ");
            text.append(type_text(&**return_type).as_str());
            text.append(" }");
            text
        },
    }
}

/// The list of the types.
fn types_list(v: &Vec<Type>) -> (r: String)
    ensures
        r@ == listed(render_types(types_view(v@))),
    decreases v, 0nat,
{
    let mut items: Vec<String> = Vec::new();
    let mut i: usize = 0;
    while i < v.len()
        invariant
            i <= v.len(),
            items.len() == i,
            forall|j: int| 0 <= j < i ==> (#[trigger] items@[j])@ == render_type(v@[j]@),
        decreases v.len() - i,
    {
        items.push(type_text(&v[i]));
        i += 1;
    }
    proof {
        lemma_texts_index(items@);
        assert(texts(items@) =~= render_types(types_view(v@))) by {
            reveal(render_types);
            reveal(render_type);
            reveal(types_view);
            reveal(crate::ast::type_view);
        }
    }
    list(&items)
}

/// The printed form of a type definition.
fn definition_text(d: &TypeDefinition) -> (r: String)
    ensures
        r@ == render_definition(d@),
{
    match d {
        TypeDefinition::Alias(t) => {
            let mut text = "Alias(".to_owned();
            text.append(type_text(t).as_str());
            text.append(")");
            text
        },
        TypeDefinition::Record { fields } => {
            let mut text = "Record { fields: ".to_owned();
            text.append(pairs_list(fields).as_str());
            text.append(" }");
            text
        },
        TypeDefinition::Variant { variants } => {
            let mut text = "Variant { variants: ".to_owned();
            text.append(variants_list(variants).as_str());
            text.append(" }");
            text
        },
    }
}

/// The printed form of an expression.
fn expr_text<F: Fn(NumberOp) -> NumberAnswer>(e: &Expr, numbers: &F) -> (r: String)
    requires
        dependable(*numbers),
    ensures
        r@ == render_expr(arithmetic_of(*numbers), e@),
    decreases e, 1nat,
{
    proof {
        reveal_with_fuel(render_expr, 1);
        reveal_with_fuel(render_exprs, 1);
        reveal_with_fuel(render_named_exprs, 1);
        reveal_with_fuel(render_entries, 1);
    }
    proof {
        lemma_expr_view(*e);
    }
    match e {
        Expr::Binary { left, operator, right } => {
            let mut text = "Binary { left: ".to_owned();
            text.append(expr_text(&**left, numbers).as_str());
            text.append(", operator: ");
            text.append(token_text(operator, numbers).as_str());
            text.append(", right: ");
            text.append(expr_text(&**right, numbers).as_str());
            text.append(" }");
            text
        },
        Expr::Grouping(inner) => {
            let mut text = "Grouping(".to_owned();
            text.append(expr_text(&**inner, numbers).as_str());
            text.append(")");
            text
        },
        Expr::Literal(literal) => {
            let mut text = "Literal(".to_owned();
            text.append(literal_text(literal, numbers).as_str());
            text.append(")");
            text
        },
        Expr::Unary { operator, right } => {
            let mut text = "Unary { operator: ".to_owned();
            text.append(token_text(operator, numbers).as_str());
            text.append(", right: ");
            text.append(expr_text(&**right, numbers).as_str());
            text.append(" }");
            text
        },
        Expr::Variable(name) => {
            let mut text = "Variable(".to_owned();
            text.append(quoted(name.as_str()).as_str());
            text.append(")");
            text
        },
        Expr::FunctionCall { name, arguments, named_arguments } => {
            let mut text = "FunctionCall { name: ".to_owned();
            text.append(quoted(name.as_str()).as_str());
            text.append(", arguments: ");
            text.append(exprs_list(arguments, numbers).as_str());
            text.append(", named_arguments: ");
            text.append(named_exprs_list(named_arguments, numbers).as_str());
            text.append(" }");
            text
        },
        Expr::TypeFunctionCall { object, function } => {
            let mut text = "TypeFunctionCall { object: ".to_owned();
            text.append(expr_text(&**object, numbers).as_str());
            text.append(", function: ");
            text.append(quoted(function.as_str()).as_str());
            text.append(" }");
            text
        },
        Expr::List(items) => {
            let mut text = "List(".to_owned();
            text.append(exprs_list(items, numbers).as_str());
            text.append(")");
            text
        },
        Expr::Mapping(entries) => {
            let mut text = "Map(".to_owned();
            text.append(entries_list(entries, numbers).as_str());
            text.append(")");
            text
        },
        Expr::Record { type_label, fields } => {
            let mut text = "Record { type_name: ".to_owned();
            text.append(quoted(type_label.as_str()).as_str());
            text.append(", fields: ");
            text.append(named_exprs_list(fields, numbers).as_str());
            text.append(" }");
            text
        },
        Expr::TypeAnnotation { expr, type_label } => {
            let mut text = "TypeAnnotation { expr: ".to_owned();
            text.append(expr_text(&**expr, numbers).as_str());
            text.append(", type_name: ");
            text.append(quoted(type_label.as_str()).as_str());
            text.append(" }");
            text
        },
        Expr::Lambda { params, body } => {
            let mut text = "Lambda { params: ".to_owned();
            text.append(pairs_list(params).as_str());
            text.append(", body: ");
            text.append(expr_text(&**body, numbers).as_str());
            text.append(" }");
            text
        },
        Expr::AccessExpression { object, index } => {
            let mut text = "AccessExpression { object: ".to_owned();
            text.append(expr_text(&**object, numbers).as_str());
            text.append(", index: ");
            text.append(expr_text(&**index, numbers).as_str());
            text.append(" }");
            text
        },
    }
}

/// The list of the expressions.
fn exprs_list<F: Fn(NumberOp) -> NumberAnswer>(v: &Vec<Expr>, numbers: &F) -> (r: String)
    requires
        dependable(*numbers),
    ensures
        r@ == listed(render_exprs(arithmetic_of(*numbers), exprs_view(v@))),
    decreases v, 0nat,
{
    let ghost a = arithmetic_of(*numbers);
    let mut items: Vec<String> = Vec::new();
    let mut i: usize = 0;
    while i < v.len()
        invariant
            dependable(*numbers),
            a == arithmetic_of(*numbers),
            i <= v.len(),
            items.len() == i,
            forall|j: int| 0 <= j < i ==> (#[trigger] items@[j])@ == render_expr(a, v@[j]@),
        decreases v.len() - i,
    {
        items.push(expr_text(&v[i], numbers));
        i += 1;
    }
    proof {
        lemma_texts_index(items@);
        lemma_exprs_view_index(v@);
        assert(texts(items@) =~= render_exprs(a, exprs_view(v@))) by {
            reveal(render_exprs);
            reveal(render_expr);
        }
    }
    list(&items)
}

/// The list of the named expressions.
fn named_exprs_list<F: Fn(NumberOp) -> NumberAnswer>(v: &Vec<(String, Expr)>, numbers: &F) -> (r:
    String)
    requires
        dependable(*numbers),
    ensures
        r@ == listed(render_named_exprs(arithmetic_of(*numbers), named_exprs_view(v@))),
    decreases v, 0nat,
{
    let ghost a = arithmetic_of(*numbers);
    let mut items: Vec<String> = Vec::new();
    let mut i: usize = 0;
    while i < v.len()
        invariant
            dependable(*numbers),
            a == arithmetic_of(*numbers),
            i <= v.len(),
            items.len() == i,
            forall|j: int|
                0 <= j < i ==> (#[trigger] items@[j])@ == "("@ + debug_text(v@[j].0@) + ", "@
                    + render_expr(a, v@[j].1@) + ")"@,
        decreases v.len() - i,
    {
        let mut text = "(".to_owned();
        text.append(quoted(v[i].0.as_str()).as_str());
        text.append(", ");
        text.append(expr_text(&v[i].1, numbers).as_str());
        text.append(")");
        items.push(text);
        i += 1;
    }
    proof {
        lemma_texts_index(items@);
        assert(texts(items@) =~= render_named_exprs(a, named_exprs_view(v@))) by {
            reveal(render_named_exprs);
            reveal(render_expr);
            reveal(named_exprs_view);
            reveal(crate::ast::expr_view);
        }
    }
    list(&items)
}

/// The list of the entries of a map literal.
fn entries_list<F: Fn(NumberOp) -> NumberAnswer>(v: &Vec<(Expr, Expr)>, numbers: &F) -> (r: String)
    requires
        dependable(*numbers),
    ensures
        r@ == listed(render_entries(arithmetic_of(*numbers), entries_view(v@))),
    decreases v, 0nat,
{
    let ghost a = arithmetic_of(*numbers);
    let mut items: Vec<String> = Vec::new();
    let mut i: usize = 0;
    while i < v.len()
        invariant
            dependable(*numbers),
            a == arithmetic_of(*numbers),
            i <= v.len(),
            items.len() == i,
            forall|j: int|
                0 <= j < i ==> (#[trigger] items@[j])@ == "("@ + render_expr(a, v@[j].0@) + ", "@
                    + render_expr(a, v@[j].1@) + ")"@,
        decreases v.len() - i,
    {
        let mut text = "(".to_owned();
        text.append(expr_text(&v[i].0, numbers).as_str());
        text.append(", ");
        text.append(expr_text(&v[i].1, numbers).as_str());
        text.append(")");
        items.push(text);
        i += 1;
    }
    proof {
        lemma_texts_index(items@);
        assert(texts(items@) =~= render_entries(a, entries_view(v@))) by {
            reveal(render_entries);
            reveal(render_expr);
            reveal(entries_view);
            reveal(crate::ast::expr_view);
        }
    }
    list(&items)
}

/// The printed form of a list of statements that may be absent.
fn option_stmts_text<F: Fn(NumberOp) -> NumberAnswer>(v: &Option<Vec<Stmt>>, numbers: &F) -> (r:
    String)
    requires
        dependable(*numbers),
    ensures
        r@ == (match v {
            Some(body) => "Some("@ + listed(
                render_stmts(arithmetic_of(*numbers), stmts_view(body@)),
            ) + ")"@,
            None => "None"@,
        }),
    decreases v, 1nat,
{
    match v {
        Some(body) => {
            let mut text = "Some(".to_owned();
            text.append(stmts_list(body, numbers).as_str());
            text.append(")");
            text
        },
        None => "None".to_owned(),
    }
}

/// The printed form of a statement.
fn stmt_text<F: Fn(NumberOp) -> NumberAnswer>(s: &Stmt, numbers: &F) -> (r: String)
    requires
        dependable(*numbers),
    ensures
        r@ == render_stmt(arithmetic_of(*numbers), s@),
    decreases s, 2nat,
{
    proof {
        reveal_with_fuel(render_stmt, 1);
        reveal_with_fuel(render_stmts, 1);
        reveal_with_fuel(render_cases, 1);
    }
    proof {
        lemma_stmt_view(*s);
    }
    match s {
        Stmt::Expression(e) => {
            let mut text = "Expression(".to_owned();
            text.append(expr_text(e, numbers).as_str());
            text.append(")");
            text
        },
        Stmt::Value { name, type_label, initializer, mutable } => {
            let mut text = "Value { name: ".to_owned();
            text.append(quoted(name.as_str()).as_str());
            text.append(", type_name: ");
            text.append(quoted(type_label.as_str()).as_str());
            text.append(", initializer: ");
            text.append(expr_text(initializer, numbers).as_str());
            text.append(", mutable: ");
            text.append(bool_text(*mutable));
            text.append(" }");
            text
        },
        Stmt::Function { name, return_type, params, body } => {
            let mut text = "Function { name: ".to_owned();
            text.append(quoted(name.as_str()).as_str());
            text.append(", return_type: ");
            text.append(quoted(return_type.as_str()).as_str());
            text.append(", params: ");
            text.append(pairs_list(params).as_str());
            text.append(", body: ");
            text.append(stmts_list(body, numbers).as_str());
            text.append(" }");
            text
        },
        Stmt::If { condition, then_branch, else_branch } => {
            let mut text = "If { condition: ".to_owned();
            text.append(expr_text(condition, numbers).as_str());
            text.append(", then_branch: ");
            text.append(stmts_list(then_branch, numbers).as_str());
            text.append(", else_branch: ");
            text.append(option_stmts_text(else_branch, numbers).as_str());
            text.append(" }");
            text
        },
        Stmt::Unless { condition, body } => {
            let mut text = "Unless { condition: ".to_owned();
            text.append(expr_text(condition, numbers).as_str());
            text.append(", body: ");
            text.append(stmts_list(body, numbers).as_str());
            text.append(" }");
            text
        },
        Stmt::While { condition, body } => {
            let mut text = "While { condition: ".to_owned();
            text.append(expr_text(condition, numbers).as_str());
            text.append(", body: ");
            text.append(stmts_list(body, numbers).as_str());
            text.append(" }");
            text
        },
        Stmt::For { variable, iterable, body } => {
            let mut text = "For { variable: ".to_owned();
            text.append(quoted(variable.as_str()).as_str());
            text.append(", iterable: ");
            text.append(expr_text(iterable, numbers).as_str());
            text.append(", body: ");
            text.append(stmts_list(body, numbers).as_str());
            text.append(" }");
            text
        },
        Stmt::Of { value, cases, default } => {
            let mut text = "Of { value: ".to_owned();
            text.append(expr_text(value, numbers).as_str());
            text.append(", cases: ");
            text.append(cases_list(cases, numbers).as_str());
            text.append(", default: ");
            text.append(option_stmts_text(default, numbers).as_str());
            text.append(" }");
            text
        },
        Stmt::Change { name, value } => {
            let mut text = "Change { name: ".to_owned();
            text.append(quoted(name.as_str()).as_str());
            text.append(", value: ");
            text.append(expr_text(value, numbers).as_str());
            text.append(" }");
            text
        },
        Stmt::Break => {
            let text = "Break".to_owned();
            text
        },
        Stmt::Continue => {
            let text = "Continue".to_owned();
            text
        },
        Stmt::Produce(value) => {
            let mut text = "Produce(".to_owned();
            match value {
                Some(e) => {
                    text.append("Some(");
                    text.append(expr_text(e, numbers).as_str());
                    text.append(")");
                    proof {
                        let inner = render_expr(arithmetic_of(*numbers), e@);
                        assert(text@ =~= "Produce("@ + ("Some("@ + inner + ")"@));
                    }
                },
                None => {
                    text.append("None");
                },
            }
            text.append(")");
            text
        },
        Stmt::ModuleDeclaration { name, body } => {
            let mut text = "ModuleDeclaration { name: ".to_owned();
            text.append(quoted(name.as_str()).as_str());
            text.append(", body: ");
            text.append(stmts_list(body, numbers).as_str());
            text.append(" }");
            text
        },
        Stmt::TypeDefinition { name, definition } => {
            let mut text = "TypeDefinition { name: ".to_owned();
            text.append(quoted(name.as_str()).as_str());
            text.append(", definition: ");
            text.append(definition_text(definition).as_str());
            text.append(" }");
            text
        },
        Stmt::Import { path, specific_imports, alias } => {
            let mut text = "Import { module_path: ".to_owned();
            text.append(texts_list(path).as_str());
            text.append(", specific_imports: ");
            text.append(texts_list(specific_imports).as_str());
            text.append(", alias: ");
            match alias {
                Some(name) => {
                    let ghost before = text@;
                    text.append("Some(");
                    text.append(quoted(name.as_str()).as_str());
                    text.append(")");
                    proof {
                        assert(text@ =~= before + ("Some("@ + debug_text(name@) + ")"@));
                    }
                },
                None => {
                    text.append("None");
                },
            }
            text.append(" }");
            text
        },
        Stmt::Write(e) => {
            let mut text = "Write(".to_owned();
            text.append(expr_text(e, numbers).as_str());
            text.append(")");
            text
        },
    }
}

/// The list of the statements.
fn stmts_list<F: Fn(NumberOp) -> NumberAnswer>(v: &Vec<Stmt>, numbers: &F) -> (r: String)
    requires
        dependable(*numbers),
    ensures
        r@ == listed(render_stmts(arithmetic_of(*numbers), stmts_view(v@))),
    decreases v, 0nat,
{
    let ghost a = arithmetic_of(*numbers);
    let mut items: Vec<String> = Vec::new();
    let mut i: usize = 0;
    while i < v.len()
        invariant
            dependable(*numbers),
            a == arithmetic_of(*numbers),
            i <= v.len(),
            items.len() == i,
            forall|j: int| 0 <= j < i ==> (#[trigger] items@[j])@ == render_stmt(a, v@[j]@),
        decreases v.len() - i,
    {
        items.push(stmt_text(&v[i], numbers));
        i += 1;
    }
    proof {
        lemma_texts_index(items@);
        lemma_stmts_view_index(v@);
        assert(texts(items@) =~= render_stmts(a, stmts_view(v@))) by {
            reveal(render_stmts);
            reveal(render_stmt);
        }
    }
    list(&items)
}

/// The list of the cases of a switch.
fn cases_list<F: Fn(NumberOp) -> NumberAnswer>(v: &Vec<(Vec<Expr>, Vec<Stmt>)>, numbers: &F) -> (r:
    String)
    requires
        dependable(*numbers),
    ensures
        r@ == listed(render_cases(arithmetic_of(*numbers), cases_view(v@))),
    decreases v, 0nat,
{
    let ghost a = arithmetic_of(*numbers);
    let mut items: Vec<String> = Vec::new();
    let mut i: usize = 0;
    while i < v.len()
        invariant
            dependable(*numbers),
            a == arithmetic_of(*numbers),
            i <= v.len(),
            items.len() == i,
            forall|j: int|
                0 <= j < i ==> (#[trigger] items@[j])@ == "("@ + listed(
                    render_exprs(a, exprs_view(v@[j].0@)),
                ) + ", "@ + listed(render_stmts(a, stmts_view(v@[j].1@))) + ")"@,
        decreases v.len() - i,
    {
        let mut text = "(".to_owned();
        text.append(exprs_list(&v[i].0, numbers).as_str());
        text.append(", ");
        text.append(stmts_list(&v[i].1, numbers).as_str());
        text.append(")");
        items.push(text);
        i += 1;
    }
    proof {
        lemma_texts_index(items@);
        assert(texts(items@) =~= render_cases(a, cases_view(v@))) by {
            reveal(render_cases);
            reveal(render_stmts);
            reveal(cases_view);
            reveal(stmts_view);
            reveal(exprs_view);
        }
    }
    list(&items)
}

/// The printed form of `value`.
pub fn render_value<F: Fn(NumberOp) -> NumberAnswer>(value: &Value, numbers: &F) -> (r: String)
    requires
        dependable(*numbers),
    ensures
        r@ == render(arithmetic_of(*numbers), value@),
{
    match value {
        Value::Number(bits) => {
            let mut text = "Number(".to_owned();
            text.append(show(numbers, *bits).as_str());
            text.append(")");
            text
        },
        Value::String(inner) => {
            let mut text = "String(".to_owned();
            text.append(quoted(inner.as_str()).as_str());
            text.append(")");
            text
        },
        Value::Boolean(b) => {
            let mut text = "Boolean(".to_owned();
            text.append(bool_text(*b));
            text.append(")");
            text
        },
        Value::Function { name, params, body } => {
            let mut text = "Function { name: ".to_owned();
            text.append(quoted(name.as_str()).as_str());
            text.append(", params: ");
            text.append(pairs_list(params).as_str());
            text.append(", body: ");
            text.append(stmts_list(body, numbers).as_str());
            text.append(" }");
            text
        },
        Value::Nil => "Nil".to_owned(),
    }
}

/// The line that printing `value` writes.
pub fn display_line<F: Fn(NumberOp) -> NumberAnswer>(value: &Value, numbers: &F) -> (r: String)
    requires
        dependable(*numbers),
    ensures
        r@ == display(arithmetic_of(*numbers), value@),
{
    match value {
        Value::String(text) => text.clone(),
        _ => render_value(value, numbers),
    }
}

} // verus!
