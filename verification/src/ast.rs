use crate::token::{Token, TokenView};
use vstd::prelude::*;

verus! {

/// A literal as it stands in the source. A number keeps its decimal spelling
/// until it is evaluated.
#[derive(Debug)]
pub enum Literal {
    Number(String),
    Integer(i64),
    String(String),
    Decision(bool),
    Nothing,
}

/// The mathematical value of a literal.
pub enum LiteralView {
    Number(Seq<char>),
    Integer(i64),
    String(Seq<char>),
    Decision(bool),
    Nothing,
}

/// A structural description of a type. Types are parsed, never enforced.
#[derive(Debug)]
pub enum Type {
    Primitive(String),
    Custom(String),
    List(Box<Type>),
    Mapping(Box<Type>, Box<Type>),
    Tuple(Vec<Type>),
    Union(Vec<Type>),
    Function { parameters: Vec<Type>, return_type: Box<Type> },
}

/// The mathematical value of a type.
pub enum TypeView {
    Primitive(Seq<char>),
    Custom(Seq<char>),
    List(Box<TypeView>),
    Mapping(Box<TypeView>, Box<TypeView>),
    Tuple(Seq<TypeView>),
    Union(Seq<TypeView>),
    Function { parameters: Seq<TypeView>, return_type: Box<TypeView> },
}

/// The right-hand side of a type definition.
#[derive(Debug)]
pub enum TypeDefinition {
    Alias(Type),
    Record { fields: Vec<(String, String)> },
    Variant { variants: Vec<(String, Vec<(String, String)>)> },
}

/// The mathematical value of a type definition.
pub enum TypeDefinitionView {
    Alias(TypeView),
    Record { fields: Seq<(Seq<char>, Seq<char>)> },
    Variant { variants: Seq<(Seq<char>, Seq<(Seq<char>, Seq<char>)>)> },
}

/// An expression node. Each node owns its children.
#[derive(Debug)]
pub enum Expr {
    Binary { left: Box<Expr>, operator: Token, right: Box<Expr> },
    Grouping(Box<Expr>),
    Literal(Literal),
    Unary { operator: Token, right: Box<Expr> },
    Variable(String),
    FunctionCall { name: String, arguments: Vec<Expr>, named_arguments: Vec<(String, Expr)> },
    TypeFunctionCall { object: Box<Expr>, function: String },
    List(Vec<Expr>),
    Mapping(Vec<(Expr, Expr)>),
    Record { type_label: String, fields: Vec<(String, Expr)> },
    TypeAnnotation { expr: Box<Expr>, type_label: String },
    Lambda { params: Vec<(String, String)>, body: Box<Expr> },
    AccessExpression { object: Box<Expr>, index: Box<Expr> },
}

/// The mathematical value of an expression: the same tree over sequences and
/// texts.
pub enum ExprView {
    Binary { left: Box<ExprView>, operator: TokenView, right: Box<ExprView> },
    Grouping(Box<ExprView>),
    Literal(LiteralView),
    Unary { operator: TokenView, right: Box<ExprView> },
    Variable(Seq<char>),
    FunctionCall {
        name: Seq<char>,
        arguments: Seq<ExprView>,
        named_arguments: Seq<(Seq<char>, ExprView)>,
    },
    TypeFunctionCall { object: Box<ExprView>, function: Seq<char> },
    List(Seq<ExprView>),
    Mapping(Seq<(ExprView, ExprView)>),
    Record { type_label: Seq<char>, fields: Seq<(Seq<char>, ExprView)> },
    TypeAnnotation { expr: Box<ExprView>, type_label: Seq<char> },
    Lambda { params: Seq<(Seq<char>, Seq<char>)>, body: Box<ExprView> },
    AccessExpression { object: Box<ExprView>, index: Box<ExprView> },
}

/// A statement node.
#[derive(Debug)]
pub enum Stmt {
    Expression(Expr),
    Value { name: String, type_label: String, initializer: Expr, mutable: bool },
    Function { name: String, return_type: String, params: Vec<(String, String)>, body: Vec<Stmt> },
    If { condition: Expr, then_branch: Vec<Stmt>, else_branch: Option<Vec<Stmt>> },
    Unless { condition: Expr, body: Vec<Stmt> },
    While { condition: Expr, body: Vec<Stmt> },
    For { variable: String, iterable: Expr, body: Vec<Stmt> },
    Of { value: Expr, cases: Vec<(Vec<Expr>, Vec<Stmt>)>, default: Option<Vec<Stmt>> },
    Change { name: String, value: Expr },
    Break,
    Continue,
    Produce(Option<Expr>),
    ModuleDeclaration { name: String, body: Vec<Stmt> },
    TypeDefinition { name: String, definition: TypeDefinition },
    Import { path: Vec<String>, specific_imports: Vec<String>, alias: Option<String> },
    Write(Expr),
}

/// The mathematical value of a statement: the same tree over sequences and
/// texts.
pub enum StmtView {
    Expression(ExprView),
    Value { name: Seq<char>, type_label: Seq<char>, initializer: ExprView, mutable: bool },
    Function {
        name: Seq<char>,
        return_type: Seq<char>,
        params: Seq<(Seq<char>, Seq<char>)>,
        body: Seq<StmtView>,
    },
    If { condition: ExprView, then_branch: Seq<StmtView>, else_branch: Option<Seq<StmtView>> },
    Unless { condition: ExprView, body: Seq<StmtView> },
    While { condition: ExprView, body: Seq<StmtView> },
    For { variable: Seq<char>, iterable: ExprView, body: Seq<StmtView> },
    Of {
        value: ExprView,
        cases: Seq<(Seq<ExprView>, Seq<StmtView>)>,
        default: Option<Seq<StmtView>>,
    },
    Change { name: Seq<char>, value: ExprView },
    Break,
    Continue,
    Produce(Option<ExprView>),
    ModuleDeclaration { name: Seq<char>, body: Seq<StmtView> },
    TypeDefinition { name: Seq<char>, definition: TypeDefinitionView },
    Import {
        path: Seq<Seq<char>>,
        specific_imports: Seq<Seq<char>>,
        alias: Option<Seq<char>>,
    },
    Write(ExprView),
}

/// The texts of a list of strings.
#[verifier::opaque]
pub open spec fn texts(v: Seq<String>) -> Seq<Seq<char>> {
    Seq::new(v.len(), |i: int| v[i]@)
}

/// The texts of a list of pairs of strings.
#[verifier::opaque]
pub open spec fn text_pairs(v: Seq<(String, String)>) -> Seq<(Seq<char>, Seq<char>)> {
    Seq::new(v.len(), |i: int| (v[i].0@, v[i].1@))
}

/// The views of the variants of a variant type, each a name with its fields.
#[verifier::opaque]
pub open spec fn variants_view(v: Seq<(String, Vec<(String, String)>)>) -> Seq<
    (Seq<char>, Seq<(Seq<char>, Seq<char>)>),
> {
    Seq::new(v.len(), |i: int| (v[i].0@, text_pairs(v[i].1@)))
}

/// The texts of no strings are no texts.
pub proof fn lemma_texts_empty()
    ensures
        texts(Seq::empty()) == Seq::<Seq<char>>::empty(),
{
    reveal(texts);
    assert(texts(Seq::empty()) =~= Seq::<Seq<char>>::empty());
}

/// The texts of a list with one more string are the texts of the list with
/// one more text.
pub proof fn lemma_texts_push(v: Seq<String>, last: String)
    ensures
        texts(v.push(last)) == texts(v).push(last@),
{
    reveal(texts);
    assert(texts(v.push(last)) =~= texts(v).push(last@));
}

/// The texts of no pairs are no texts.
pub proof fn lemma_text_pairs_empty()
    ensures
        text_pairs(Seq::empty()) == Seq::<(Seq<char>, Seq<char>)>::empty(),
{
    reveal(text_pairs);
    assert(text_pairs(Seq::empty()) =~= Seq::<(Seq<char>, Seq<char>)>::empty());
}

/// The texts of a list with one more pair are the texts of the list with one
/// more pair of texts.
pub proof fn lemma_text_pairs_push(v: Seq<(String, String)>, last: (String, String))
    ensures
        text_pairs(v.push(last)) == text_pairs(v).push((last.0@, last.1@)),
{
    reveal(text_pairs);
    assert(text_pairs(v.push(last)) =~= text_pairs(v).push((last.0@, last.1@)));
}

/// The texts of a list of pairs are as many as the pairs, each the texts of
/// the pair in its place.
pub proof fn lemma_text_pairs_index(v: Seq<(String, String)>)
    ensures
        text_pairs(v).len() == v.len(),
        forall|i: int| 0 <= i < v.len() ==> (#[trigger] text_pairs(v)[i]) == (v[i].0@, v[i].1@),
{
    reveal(text_pairs);
}

/// The views of no variants are no views.
pub proof fn lemma_variants_view_empty()
    ensures
        variants_view(Seq::empty()) == Seq::<(Seq<char>, Seq<(Seq<char>, Seq<char>)>)>::empty(),
{
    reveal(variants_view);
    assert(variants_view(Seq::empty()) =~= Seq::<
        (Seq<char>, Seq<(Seq<char>, Seq<char>)>),
    >::empty());
}

/// The views of a list with one more variant are the views of the list with
/// the view of that variant added.
pub proof fn lemma_variants_view_push(
    v: Seq<(String, Vec<(String, String)>)>,
    last: (String, Vec<(String, String)>),
)
    ensures
        variants_view(v.push(last)) == variants_view(v).push((last.0@, text_pairs(last.1@))),
{
    reveal(variants_view);
    assert(variants_view(v.push(last)) =~= variants_view(v).push((last.0@, text_pairs(last.1@))));
}

impl View for Literal {
    type V = LiteralView;

    open spec fn view(&self) -> LiteralView {
        match self {
            Literal::Number(s) => LiteralView::Number(s@),
            Literal::Integer(i) => LiteralView::Integer(*i),
            Literal::String(s) => LiteralView::String(s@),
            Literal::Decision(b) => LiteralView::Decision(*b),
            Literal::Nothing => LiteralView::Nothing,
        }
    }
}

/// The view of a type.
#[verifier::opaque]
pub open spec fn type_view(t: Type) -> TypeView
    decreases t,
{
    match t {
        Type::Primitive(s) => TypeView::Primitive(s@),
        Type::Custom(s) => TypeView::Custom(s@),
        Type::List(inner) => TypeView::List(Box::new(type_view(*inner))),
        Type::Mapping(k, v) => TypeView::Mapping(
            Box::new(type_view(*k)),
            Box::new(type_view(*v)),
        ),
        Type::Tuple(items) => TypeView::Tuple(types_view(items@)),
        Type::Union(items) => TypeView::Union(types_view(items@)),
        Type::Function { parameters, return_type } => TypeView::Function {
            parameters: types_view(parameters@),
            return_type: Box::new(type_view(*return_type)),
        },
    }
}

/// The views of a list of types.
#[verifier::opaque]
pub open spec fn types_view(v: Seq<Type>) -> Seq<TypeView>
    decreases v,
{
    Seq::new(
        v.len(),
        |i: int|
            if 0 <= i < v.len() {
                type_view(v[i])
            } else {
                TypeView::Tuple(Seq::empty())
            },
    )
}

impl View for Type {
    type V = TypeView;

    open spec fn view(&self) -> TypeView {
        type_view(*self)
    }
}

impl View for TypeDefinition {
    type V = TypeDefinitionView;

    open spec fn view(&self) -> TypeDefinitionView {
        match self {
            TypeDefinition::Alias(t) => TypeDefinitionView::Alias(t@),
            TypeDefinition::Record { fields } => TypeDefinitionView::Record {
                fields: text_pairs(fields@),
            },
            TypeDefinition::Variant { variants } => TypeDefinitionView::Variant {
                variants: variants_view(variants@),
            },
        }
    }
}

/// The view of an expression.
#[verifier::opaque]
pub open spec fn expr_view(e: Expr) -> ExprView
    decreases e,
{
    match e {
        Expr::Binary { left, operator, right } => ExprView::Binary {
            left: Box::new(expr_view(*left)),
            operator: operator@,
            right: Box::new(expr_view(*right)),
        },
        Expr::Grouping(inner) => ExprView::Grouping(Box::new(expr_view(*inner))),
        Expr::Literal(l) => ExprView::Literal(l@),
        Expr::Unary { operator, right } => ExprView::Unary {
            operator: operator@,
            right: Box::new(expr_view(*right)),
        },
        Expr::Variable(name) => ExprView::Variable(name@),
        Expr::FunctionCall { name, arguments, named_arguments } => ExprView::FunctionCall {
            name: name@,
            arguments: exprs_view(arguments@),
            named_arguments: named_exprs_view(named_arguments@),
        },
        Expr::TypeFunctionCall { object, function } => ExprView::TypeFunctionCall {
            object: Box::new(expr_view(*object)),
            function: function@,
        },
        Expr::List(items) => ExprView::List(exprs_view(items@)),
        Expr::Mapping(entries) => ExprView::Mapping(entries_view(entries@)),
        Expr::Record { type_label, fields } => ExprView::Record {
            type_label: type_label@,
            fields: named_exprs_view(fields@),
        },
        Expr::TypeAnnotation { expr, type_label } => ExprView::TypeAnnotation {
            expr: Box::new(expr_view(*expr)),
            type_label: type_label@,
        },
        Expr::Lambda { params, body } => ExprView::Lambda {
            params: text_pairs(params@),
            body: Box::new(expr_view(*body)),
        },
        Expr::AccessExpression { object, index } => ExprView::AccessExpression {
            object: Box::new(expr_view(*object)),
            index: Box::new(expr_view(*index)),
        },
    }
}

/// The views of a list of expressions.
#[verifier::opaque]
pub open spec fn exprs_view(v: Seq<Expr>) -> Seq<ExprView>
    decreases v,
{
    Seq::new(
        v.len(),
        |i: int|
            if 0 <= i < v.len() {
                expr_view(v[i])
            } else {
                ExprView::Literal(LiteralView::Nothing)
            },
    )
}

/// The views of a list of named expressions.
#[verifier::opaque]
pub open spec fn named_exprs_view(v: Seq<(String, Expr)>) -> Seq<(Seq<char>, ExprView)>
    decreases v,
{
    Seq::new(
        v.len(),
        |i: int|
            if 0 <= i < v.len() {
                (v[i].0@, expr_view(v[i].1))
            } else {
                (Seq::empty(), ExprView::Literal(LiteralView::Nothing))
            },
    )
}

/// The views of the entries of a map literal.
#[verifier::opaque]
pub open spec fn entries_view(v: Seq<(Expr, Expr)>) -> Seq<(ExprView, ExprView)>
    decreases v,
{
    Seq::new(
        v.len(),
        |i: int|
            if 0 <= i < v.len() {
                (expr_view(v[i].0), expr_view(v[i].1))
            } else {
                (ExprView::Literal(LiteralView::Nothing), ExprView::Literal(LiteralView::Nothing))
            },
    )
}

impl View for Expr {
    type V = ExprView;

    open spec fn view(&self) -> ExprView {
        expr_view(*self)
    }
}

/// The view of an expression that may be absent.
pub open spec fn option_expr_view(e: Option<Expr>) -> Option<ExprView> {
    match e {
        Some(e) => Some(e@),
        None => None,
    }
}

/// The view of a list of statements that may be absent.
pub open spec fn option_stmts_view(v: Option<Vec<Stmt>>) -> Option<Seq<StmtView>> {
    match v {
        Some(body) => Some(stmts_view(body@)),
        None => None,
    }
}

/// The text of a string that may be absent.
pub open spec fn option_text(s: Option<String>) -> Option<Seq<char>> {
    match s {
        Some(s) => Some(s@),
        None => None,
    }
}

/// The view of a statement.
#[verifier::opaque]
pub open spec fn stmt_view(s: Stmt) -> StmtView
    decreases s,
{
    match s {
        Stmt::Expression(e) => StmtView::Expression(e@),
        Stmt::Value { name, type_label, initializer, mutable } => StmtView::Value {
            name: name@,
            type_label: type_label@,
            initializer: initializer@,
            mutable,
        },
        Stmt::Function { name, return_type, params, body } => StmtView::Function {
            name: name@,
            return_type: return_type@,
            params: text_pairs(params@),
            body: stmts_view(body@),
        },
        Stmt::If { condition, then_branch, else_branch } => StmtView::If {
            condition: condition@,
            then_branch: stmts_view(then_branch@),
            else_branch: match else_branch {
                Some(b) => Some(stmts_view(b@)),
                None => None,
            },
        },
        Stmt::Unless { condition, body } => StmtView::Unless {
            condition: condition@,
            body: stmts_view(body@),
        },
        Stmt::While { condition, body } => StmtView::While {
            condition: condition@,
            body: stmts_view(body@),
        },
        Stmt::For { variable, iterable, body } => StmtView::For {
            variable: variable@,
            iterable: iterable@,
            body: stmts_view(body@),
        },
        Stmt::Of { value, cases, default } => StmtView::Of {
            value: value@,
            cases: cases_view(cases@),
            default: match default {
                Some(b) => Some(stmts_view(b@)),
                None => None,
            },
        },
        Stmt::Change { name, value } => StmtView::Change { name: name@, value: value@ },
        Stmt::Break => StmtView::Break,
        Stmt::Continue => StmtView::Continue,
        Stmt::Produce(value) => StmtView::Produce(option_expr_view(value)),
        Stmt::ModuleDeclaration { name, body } => StmtView::ModuleDeclaration {
            name: name@,
            body: stmts_view(body@),
        },
        Stmt::TypeDefinition { name, definition } => StmtView::TypeDefinition {
            name: name@,
            definition: definition@,
        },
        Stmt::Import { path, specific_imports, alias } => StmtView::Import {
            path: texts(path@),
            specific_imports: texts(specific_imports@),
            alias: option_text(alias),
        },
        Stmt::Write(e) => StmtView::Write(e@),
    }
}

/// The views of a list of statements.
#[verifier::opaque]
pub open spec fn stmts_view(v: Seq<Stmt>) -> Seq<StmtView>
    decreases v,
{
    Seq::new(
        v.len(),
        |i: int|
            if 0 <= i < v.len() {
                stmt_view(v[i])
            } else {
                StmtView::Break
            },
    )
}

/// The views of the cases of a switch.
#[verifier::opaque]
pub open spec fn cases_view(v: Seq<(Vec<Expr>, Vec<Stmt>)>) -> Seq<(Seq<ExprView>, Seq<StmtView>)>
    decreases v,
{
    Seq::new(
        v.len(),
        |i: int|
            if 0 <= i < v.len() {
                (exprs_view(v[i].0@), stmts_view(v[i].1@))
            } else {
                (Seq::empty(), Seq::empty())
            },
    )
}

impl View for Stmt {
    type V = StmtView;

    open spec fn view(&self) -> StmtView {
        stmt_view(*self)
    }
}

/// One level of the view of an expression: the view of the node over the
/// views of its children.
pub proof fn lemma_expr_view(e: Expr)
    ensures
        e@ == ({
            match e {
                Expr::Binary { left, operator, right } => ExprView::Binary {
                    left: Box::new(expr_view(*left)),
                    operator: operator@,
                    right: Box::new(expr_view(*right)),
                },
                Expr::Grouping(inner) => ExprView::Grouping(Box::new(expr_view(*inner))),
                Expr::Literal(l) => ExprView::Literal(l@),
                Expr::Unary { operator, right } => ExprView::Unary {
                    operator: operator@,
                    right: Box::new(expr_view(*right)),
                },
                Expr::Variable(name) => ExprView::Variable(name@),
                Expr::FunctionCall { name, arguments, named_arguments } => ExprView::FunctionCall {
                    name: name@,
                    arguments: exprs_view(arguments@),
                    named_arguments: named_exprs_view(named_arguments@),
                },
                Expr::TypeFunctionCall { object, function } => ExprView::TypeFunctionCall {
                    object: Box::new(expr_view(*object)),
                    function: function@,
                },
                Expr::List(items) => ExprView::List(exprs_view(items@)),
                Expr::Mapping(entries) => ExprView::Mapping(entries_view(entries@)),
                Expr::Record { type_label, fields } => ExprView::Record {
                    type_label: type_label@,
                    fields: named_exprs_view(fields@),
                },
                Expr::TypeAnnotation { expr, type_label } => ExprView::TypeAnnotation {
                    expr: Box::new(expr_view(*expr)),
                    type_label: type_label@,
                },
                Expr::Lambda { params, body } => ExprView::Lambda {
                    params: text_pairs(params@),
                    body: Box::new(expr_view(*body)),
                },
                Expr::AccessExpression { object, index } => ExprView::AccessExpression {
                    object: Box::new(expr_view(*object)),
                    index: Box::new(expr_view(*index)),
                },
            }
        }),
{
    reveal_with_fuel(expr_view, 2);
    reveal_with_fuel(exprs_view, 2);
    reveal_with_fuel(named_exprs_view, 2);
    reveal_with_fuel(entries_view, 2);
}

/// One level of the view of a statement.
pub proof fn lemma_stmt_view(s: Stmt)
    ensures
        s@ == ({
            match s {
                Stmt::Expression(e) => StmtView::Expression(e@),
                Stmt::Value { name, type_label, initializer, mutable } => StmtView::Value {
                    name: name@,
                    type_label: type_label@,
                    initializer: initializer@,
                    mutable,
                },
                Stmt::Function { name, return_type, params, body } => StmtView::Function {
                    name: name@,
                    return_type: return_type@,
                    params: text_pairs(params@),
                    body: stmts_view(body@),
                },
                Stmt::If { condition, then_branch, else_branch } => StmtView::If {
                    condition: condition@,
                    then_branch: stmts_view(then_branch@),
                    else_branch: match else_branch {
                        Some(b) => Some(stmts_view(b@)),
                        None => None,
                    },
                },
                Stmt::Unless { condition, body } => StmtView::Unless {
                    condition: condition@,
                    body: stmts_view(body@),
                },
                Stmt::While { condition, body } => StmtView::While {
                    condition: condition@,
                    body: stmts_view(body@),
                },
                Stmt::For { variable, iterable, body } => StmtView::For {
                    variable: variable@,
                    iterable: iterable@,
                    body: stmts_view(body@),
                },
                Stmt::Of { value, cases, default } => StmtView::Of {
                    value: value@,
                    cases: cases_view(cases@),
                    default: match default {
                        Some(b) => Some(stmts_view(b@)),
                        None => None,
                    },
                },
                Stmt::Change { name, value } => StmtView::Change { name: name@, value: value@ },
                Stmt::Break => StmtView::Break,
                Stmt::Continue => StmtView::Continue,
                Stmt::Produce(value) => StmtView::Produce(option_expr_view(value)),
                Stmt::ModuleDeclaration { name, body } => StmtView::ModuleDeclaration {
                    name: name@,
                    body: stmts_view(body@),
                },
                Stmt::TypeDefinition { name, definition } => StmtView::TypeDefinition {
                    name: name@,
                    definition: definition@,
                },
                Stmt::Import { path, specific_imports, alias } => StmtView::Import {
                    path: texts(path@),
                    specific_imports: texts(specific_imports@),
                    alias: option_text(alias),
                },
                Stmt::Write(e) => StmtView::Write(e@),
            }
        }),
{
    reveal_with_fuel(stmt_view, 2);
    reveal_with_fuel(stmts_view, 2);
    reveal_with_fuel(cases_view, 2);
}

/// One level of the view of a type.
pub proof fn lemma_type_view(t: Type)
    ensures
        t@ == ({
            match t {
                Type::Primitive(s) => TypeView::Primitive(s@),
                Type::Custom(s) => TypeView::Custom(s@),
                Type::List(inner) => TypeView::List(Box::new(type_view(*inner))),
                Type::Mapping(k, v) => TypeView::Mapping(
                    Box::new(type_view(*k)),
                    Box::new(type_view(*v)),
                ),
                Type::Tuple(items) => TypeView::Tuple(types_view(items@)),
                Type::Union(items) => TypeView::Union(types_view(items@)),
                Type::Function { parameters, return_type } => TypeView::Function {
                    parameters: types_view(parameters@),
                    return_type: Box::new(type_view(*return_type)),
                },
            }
        }),
{
    reveal_with_fuel(type_view, 2);
    reveal_with_fuel(types_view, 2);
}

/// The views of a list of expressions are as many as the expressions, each
/// the view of the expression in its place.
pub proof fn lemma_exprs_view_index(v: Seq<Expr>)
    ensures
        exprs_view(v).len() == v.len(),
        forall|i: int| 0 <= i < v.len() ==> (#[trigger] exprs_view(v)[i]) == v[i]@,
{
    reveal(exprs_view);
    reveal(expr_view);
}

/// The views of a list of statements are as many as the statements, each the
/// view of the statement in its place.
pub proof fn lemma_stmts_view_index(v: Seq<Stmt>)
    ensures
        stmts_view(v).len() == v.len(),
        forall|i: int| 0 <= i < v.len() ==> (#[trigger] stmts_view(v)[i]) == v[i]@,
{
    reveal(stmts_view);
    reveal(stmt_view);
}

/// The views of no expressions are no views.
pub proof fn lemma_exprs_view_empty()
    ensures
        exprs_view(Seq::empty()) == Seq::<ExprView>::empty(),
{
    reveal(exprs_view);
    reveal(expr_view);
    assert(exprs_view(Seq::empty()) =~= Seq::<ExprView>::empty());
}

/// The views of a list with one more expression are the views of the list with the
/// view of that one added.
pub proof fn lemma_exprs_view_push(v: Seq<Expr>, last: Expr)
    ensures
        exprs_view(v.push(last)) == exprs_view(v).push(last@),
{
    reveal(exprs_view);
    reveal(expr_view);
    assert(exprs_view(v.push(last)) =~= exprs_view(v).push(last@));
}

/// The views of no named expressions are no views.
pub proof fn lemma_named_exprs_view_empty()
    ensures
        named_exprs_view(Seq::empty()) == Seq::<(Seq<char>, ExprView)>::empty(),
{
    reveal(named_exprs_view);
    reveal(expr_view);
    assert(named_exprs_view(Seq::empty()) =~= Seq::<(Seq<char>, ExprView)>::empty());
}

/// The views of a list with one more named expression are the views of the list with the
/// view of that one added.
pub proof fn lemma_named_exprs_view_push(v: Seq<(String, Expr)>, last: (String, Expr))
    ensures
        named_exprs_view(v.push(last)) == named_exprs_view(v).push((last.0@, last.1@)),
{
    reveal(named_exprs_view);
    reveal(expr_view);
    assert(named_exprs_view(v.push(last)) =~= named_exprs_view(v).push((last.0@, last.1@)));
}

/// The views of no entries are no views.
pub proof fn lemma_entries_view_empty()
    ensures
        entries_view(Seq::empty()) == Seq::<(ExprView, ExprView)>::empty(),
{
    reveal(entries_view);
    reveal(expr_view);
    assert(entries_view(Seq::empty()) =~= Seq::<(ExprView, ExprView)>::empty());
}

/// The views of a list with one more entry are the views of the list with the
/// view of that one added.
pub proof fn lemma_entries_view_push(v: Seq<(Expr, Expr)>, last: (Expr, Expr))
    ensures
        entries_view(v.push(last)) == entries_view(v).push((last.0@, last.1@)),
{
    reveal(entries_view);
    reveal(expr_view);
    assert(entries_view(v.push(last)) =~= entries_view(v).push((last.0@, last.1@)));
}

/// The views of no statements are no views.
pub proof fn lemma_stmts_view_empty()
    ensures
        stmts_view(Seq::empty()) == Seq::<StmtView>::empty(),
{
    reveal(stmts_view);
    reveal(stmt_view);
    assert(stmts_view(Seq::empty()) =~= Seq::<StmtView>::empty());
}

/// The views of a list with one more statement are the views of the list with the
/// view of that one added.
pub proof fn lemma_stmts_view_push(v: Seq<Stmt>, last: Stmt)
    ensures
        stmts_view(v.push(last)) == stmts_view(v).push(last@),
{
    reveal(stmts_view);
    reveal(stmt_view);
    assert(stmts_view(v.push(last)) =~= stmts_view(v).push(last@));
}

/// The views of no cases are no views.
pub proof fn lemma_cases_view_empty()
    ensures
        cases_view(Seq::empty()) == Seq::<(Seq<ExprView>, Seq<StmtView>)>::empty(),
{
    reveal(cases_view);
    reveal(stmts_view);
    reveal(exprs_view);
    assert(cases_view(Seq::empty()) =~= Seq::<(Seq<ExprView>, Seq<StmtView>)>::empty());
}

/// The views of a list with one more case are the views of the list with the
/// view of that one added.
pub proof fn lemma_cases_view_push(v: Seq<(Vec<Expr>, Vec<Stmt>)>, last: (Vec<Expr>, Vec<Stmt>))
    ensures
        cases_view(v.push(last)) == cases_view(v).push((exprs_view(last.0@), stmts_view(last.1@))),
{
    reveal(cases_view);
    reveal(stmts_view);
    reveal(exprs_view);
    assert(cases_view(v.push(last)) =~= cases_view(v).push((exprs_view(last.0@), stmts_view(last.1@))));
}

/// The views of no types are no views.
pub proof fn lemma_types_view_empty()
    ensures
        types_view(Seq::empty()) == Seq::<TypeView>::empty(),
{
    reveal(types_view);
    reveal(type_view);
    assert(types_view(Seq::empty()) =~= Seq::<TypeView>::empty());
}

/// The views of a list with one more type are the views of the list with the
/// view of that one added.
pub proof fn lemma_types_view_push(v: Seq<Type>, last: Type)
    ensures
        types_view(v.push(last)) == types_view(v).push(last@),
{
    reveal(types_view);
    reveal(type_view);
    assert(types_view(v.push(last)) =~= types_view(v).push(last@));
}

impl Clone for Literal {
    fn clone(&self) -> (r: Self)
        ensures
            r@ == self@,
    {
        match self {
            Literal::Number(s) => Literal::Number(s.clone()),
            Literal::Integer(i) => Literal::Integer(*i),
            Literal::String(s) => Literal::String(s.clone()),
            Literal::Decision(b) => Literal::Decision(*b),
            Literal::Nothing => Literal::Nothing,
        }
    }
}

/// A copy of a list of strings.
pub fn clone_texts(v: &Vec<String>) -> (r: Vec<String>)
    ensures
        texts(r@) == texts(v@),
{
    let mut r: Vec<String> = Vec::new();
    let mut i: usize = 0;
    proof {
        lemma_texts_empty();
        assert(v@.subrange(0, 0) =~= Seq::empty());
    }
    while i < v.len()
        invariant
            i <= v.len(),
            texts(r@) == texts(v@.subrange(0, i as int)),
        decreases v.len() - i,
    {
        let item = v[i].clone();
        proof {
            lemma_texts_push(r@, item);
            lemma_texts_push(v@.subrange(0, i as int), v@[i as int]);
            assert(v@.subrange(0, i + 1) =~= v@.subrange(0, i as int).push(v@[i as int]));
        }
        r.push(item);
        i += 1;
    }
    assert(v@.subrange(0, v.len() as int) =~= v@);
    r
}

/// A copy of a list of pairs of strings.
pub fn clone_text_pairs(v: &Vec<(String, String)>) -> (r: Vec<(String, String)>)
    ensures
        text_pairs(r@) == text_pairs(v@),
{
    let mut r: Vec<(String, String)> = Vec::new();
    let mut i: usize = 0;
    proof {
        lemma_text_pairs_empty();
        assert(v@.subrange(0, 0) =~= Seq::empty());
    }
    while i < v.len()
        invariant
            i <= v.len(),
            text_pairs(r@) == text_pairs(v@.subrange(0, i as int)),
        decreases v.len() - i,
    {
        let item = (v[i].0.clone(), v[i].1.clone());
        proof {
            lemma_text_pairs_push(r@, item);
            lemma_text_pairs_push(v@.subrange(0, i as int), v@[i as int]);
            assert(v@.subrange(0, i + 1) =~= v@.subrange(0, i as int).push(v@[i as int]));
        }
        r.push(item);
        i += 1;
    }
    assert(v@.subrange(0, v.len() as int) =~= v@);
    r
}

/// A copy of the variants of a variant type.
pub fn clone_variants(v: &Vec<(String, Vec<(String, String)>)>) -> (r: Vec<(String, Vec<(String, String)>)>)
    ensures
        variants_view(r@) == variants_view(v@),
{
    let mut r: Vec<(String, Vec<(String, String)>)> = Vec::new();
    let mut i: usize = 0;
    proof {
        lemma_variants_view_empty();
        assert(v@.subrange(0, 0) =~= Seq::empty());
    }
    while i < v.len()
        invariant
            i <= v.len(),
            variants_view(r@) == variants_view(v@.subrange(0, i as int)),
        decreases v.len() - i,
    {
        let item = (v[i].0.clone(), clone_text_pairs(&v[i].1));
        proof {
            lemma_variants_view_push(r@, item);
            lemma_variants_view_push(v@.subrange(0, i as int), v@[i as int]);
            assert(v@.subrange(0, i + 1) =~= v@.subrange(0, i as int).push(v@[i as int]));
        }
        r.push(item);
        i += 1;
    }
    assert(v@.subrange(0, v.len() as int) =~= v@);
    r
}

/// A copy of a list of types.
pub fn clone_types(v: &Vec<Type>) -> (r: Vec<Type>)
    ensures
        types_view(r@) == types_view(v@),
    decreases v,
{
    let mut r: Vec<Type> = Vec::new();
    let mut i: usize = 0;
    proof {
        lemma_types_view_empty();
        assert(v@.subrange(0, 0) =~= Seq::empty());
    }
    while i < v.len()
        invariant
            i <= v.len(),
            types_view(r@) == types_view(v@.subrange(0, i as int)),
        decreases v.len() - i,
    {
        let item = v[i].clone();
        proof {
            lemma_types_view_push(r@, item);
            lemma_types_view_push(v@.subrange(0, i as int), v@[i as int]);
            assert(v@.subrange(0, i + 1) =~= v@.subrange(0, i as int).push(v@[i as int]));
        }
        r.push(item);
        i += 1;
    }
    assert(v@.subrange(0, v.len() as int) =~= v@);
    r
}

impl Clone for Type {
    fn clone(&self) -> (r: Self)
        ensures
            r@ == self@,
        decreases self,
    {
        let r = match self {
            Type::Primitive(s) => Type::Primitive(s.clone()),
            Type::Custom(s) => Type::Custom(s.clone()),
            Type::List(inner) => Type::List(Box::new((**inner).clone())),
            Type::Mapping(k, v) => Type::Mapping(Box::new((**k).clone()), Box::new((**v).clone())),
            Type::Tuple(items) => Type::Tuple(clone_types(items)),
            Type::Union(items) => Type::Union(clone_types(items)),
            Type::Function { parameters, return_type } => Type::Function {
                parameters: clone_types(parameters),
                return_type: Box::new((**return_type).clone()),
            },
        };
        proof {
            lemma_type_view(*self);
            lemma_type_view(r);
        }
        r
    }
}

impl Clone for TypeDefinition {
    fn clone(&self) -> (r: Self)
        ensures
            r@ == self@,
    {
        match self {
            TypeDefinition::Alias(t) => TypeDefinition::Alias(t.clone()),
            TypeDefinition::Record { fields } => TypeDefinition::Record {
                fields: clone_text_pairs(fields),
            },
            TypeDefinition::Variant { variants } => TypeDefinition::Variant {
                variants: clone_variants(variants),
            },
        }
    }
}

/// A copy of a list of expressions.
pub fn clone_exprs(v: &Vec<Expr>) -> (r: Vec<Expr>)
    ensures
        exprs_view(r@) == exprs_view(v@),
    decreases v,
{
    let mut r: Vec<Expr> = Vec::new();
    let mut i: usize = 0;
    proof {
        lemma_exprs_view_empty();
        assert(v@.subrange(0, 0) =~= Seq::empty());
    }
    while i < v.len()
        invariant
            i <= v.len(),
            exprs_view(r@) == exprs_view(v@.subrange(0, i as int)),
        decreases v.len() - i,
    {
        let item = v[i].clone();
        proof {
            lemma_exprs_view_push(r@, item);
            lemma_exprs_view_push(v@.subrange(0, i as int), v@[i as int]);
            assert(v@.subrange(0, i + 1) =~= v@.subrange(0, i as int).push(v@[i as int]));
        }
        r.push(item);
        i += 1;
    }
    assert(v@.subrange(0, v.len() as int) =~= v@);
    r
}

/// A copy of a list of named expressions.
pub fn clone_named_exprs(v: &Vec<(String, Expr)>) -> (r: Vec<(String, Expr)>)
    ensures
        named_exprs_view(r@) == named_exprs_view(v@),
    decreases v,
{
    let mut r: Vec<(String, Expr)> = Vec::new();
    let mut i: usize = 0;
    proof {
        lemma_named_exprs_view_empty();
        assert(v@.subrange(0, 0) =~= Seq::empty());
    }
    while i < v.len()
        invariant
            i <= v.len(),
            named_exprs_view(r@) == named_exprs_view(v@.subrange(0, i as int)),
        decreases v.len() - i,
    {
        let item = (v[i].0.clone(), v[i].1.clone());
        proof {
            lemma_named_exprs_view_push(r@, item);
            lemma_named_exprs_view_push(v@.subrange(0, i as int), v@[i as int]);
            assert(v@.subrange(0, i + 1) =~= v@.subrange(0, i as int).push(v@[i as int]));
        }
        r.push(item);
        i += 1;
    }
    assert(v@.subrange(0, v.len() as int) =~= v@);
    r
}

/// A copy of the entries of a map literal.
pub fn clone_entries(v: &Vec<(Expr, Expr)>) -> (r: Vec<(Expr, Expr)>)
    ensures
        entries_view(r@) == entries_view(v@),
    decreases v,
{
    let mut r: Vec<(Expr, Expr)> = Vec::new();
    let mut i: usize = 0;
    proof {
        lemma_entries_view_empty();
        assert(v@.subrange(0, 0) =~= Seq::empty());
    }
    while i < v.len()
        invariant
            i <= v.len(),
            entries_view(r@) == entries_view(v@.subrange(0, i as int)),
        decreases v.len() - i,
    {
        let item = (v[i].0.clone(), v[i].1.clone());
        proof {
            lemma_entries_view_push(r@, item);
            lemma_entries_view_push(v@.subrange(0, i as int), v@[i as int]);
            assert(v@.subrange(0, i + 1) =~= v@.subrange(0, i as int).push(v@[i as int]));
        }
        r.push(item);
        i += 1;
    }
    assert(v@.subrange(0, v.len() as int) =~= v@);
    r
}

impl Clone for Expr {
    fn clone(&self) -> (r: Self)
        ensures
            r@ == self@,
        decreases self,
    {
        let r = match self {
            Expr::Binary { left, operator, right } => Expr::Binary {
                left: Box::new((**left).clone()),
                operator: operator.clone(),
                right: Box::new((**right).clone()),
            },
            Expr::Grouping(inner) => Expr::Grouping(Box::new((**inner).clone())),
            Expr::Literal(l) => Expr::Literal(l.clone()),
            Expr::Unary { operator, right } => Expr::Unary {
                operator: operator.clone(),
                right: Box::new((**right).clone()),
            },
            Expr::Variable(name) => Expr::Variable(name.clone()),
            Expr::FunctionCall { name, arguments, named_arguments } => Expr::FunctionCall {
                name: name.clone(),
                arguments: clone_exprs(arguments),
                named_arguments: clone_named_exprs(named_arguments),
            },
            Expr::TypeFunctionCall { object, function } => Expr::TypeFunctionCall {
                object: Box::new((**object).clone()),
                function: function.clone(),
            },
            Expr::List(items) => Expr::List(clone_exprs(items)),
            Expr::Mapping(entries) => Expr::Mapping(clone_entries(entries)),
            Expr::Record { type_label, fields } => Expr::Record {
                type_label: type_label.clone(),
                fields: clone_named_exprs(fields),
            },
            Expr::TypeAnnotation { expr, type_label } => Expr::TypeAnnotation {
                expr: Box::new((**expr).clone()),
                type_label: type_label.clone(),
            },
            Expr::Lambda { params, body } => Expr::Lambda {
                params: clone_text_pairs(params),
                body: Box::new((**body).clone()),
            },
            Expr::AccessExpression { object, index } => Expr::AccessExpression {
                object: Box::new((**object).clone()),
                index: Box::new((**index).clone()),
            },
        };
        proof {
            lemma_expr_view(*self);
            lemma_expr_view(r);
        }
        r
    }
}

/// A copy of a list of statements.
pub fn clone_stmts(v: &Vec<Stmt>) -> (r: Vec<Stmt>)
    ensures
        stmts_view(r@) == stmts_view(v@),
    decreases v,
{
    let mut r: Vec<Stmt> = Vec::new();
    let mut i: usize = 0;
    proof {
        lemma_stmts_view_empty();
        assert(v@.subrange(0, 0) =~= Seq::empty());
    }
    while i < v.len()
        invariant
            i <= v.len(),
            stmts_view(r@) == stmts_view(v@.subrange(0, i as int)),
        decreases v.len() - i,
    {
        let item = v[i].clone();
        proof {
            lemma_stmts_view_push(r@, item);
            lemma_stmts_view_push(v@.subrange(0, i as int), v@[i as int]);
            assert(v@.subrange(0, i + 1) =~= v@.subrange(0, i as int).push(v@[i as int]));
        }
        r.push(item);
        i += 1;
    }
    assert(v@.subrange(0, v.len() as int) =~= v@);
    r
}

/// A copy of the cases of a switch.
pub fn clone_cases(v: &Vec<(Vec<Expr>, Vec<Stmt>)>) -> (r: Vec<(Vec<Expr>, Vec<Stmt>)>)
    ensures
        cases_view(r@) == cases_view(v@),
    decreases v,
{
    let mut r: Vec<(Vec<Expr>, Vec<Stmt>)> = Vec::new();
    let mut i: usize = 0;
    proof {
        lemma_cases_view_empty();
        assert(v@.subrange(0, 0) =~= Seq::empty());
    }
    while i < v.len()
        invariant
            i <= v.len(),
            cases_view(r@) == cases_view(v@.subrange(0, i as int)),
        decreases v.len() - i,
    {
        let item = (clone_exprs(&v[i].0), clone_stmts(&v[i].1));
        proof {
            lemma_cases_view_push(r@, item);
            lemma_cases_view_push(v@.subrange(0, i as int), v@[i as int]);
            assert(v@.subrange(0, i + 1) =~= v@.subrange(0, i as int).push(v@[i as int]));
        }
        r.push(item);
        i += 1;
    }
    assert(v@.subrange(0, v.len() as int) =~= v@);
    r
}

/// A copy of a list of statements that may be absent.
pub fn clone_option_stmts(v: &Option<Vec<Stmt>>) -> (r: Option<Vec<Stmt>>)
    ensures
        option_stmts_view(r) == option_stmts_view(*v),
    decreases v,
{
    match v {
        Some(body) => Some(clone_stmts(body)),
        None => None,
    }
}

impl Clone for Stmt {
    fn clone(&self) -> (r: Self)
        ensures
            r@ == self@,
        decreases self,
    {
        let r = match self {
            Stmt::Expression(e) => Stmt::Expression(e.clone()),
            Stmt::Value { name, type_label, initializer, mutable } => Stmt::Value {
                name: name.clone(),
                type_label: type_label.clone(),
                initializer: initializer.clone(),
                mutable: *mutable,
            },
            Stmt::Function { name, return_type, params, body } => Stmt::Function {
                name: name.clone(),
                return_type: return_type.clone(),
                params: clone_text_pairs(params),
                body: clone_stmts(body),
            },
            Stmt::If { condition, then_branch, else_branch } => Stmt::If {
                condition: condition.clone(),
                then_branch: clone_stmts(then_branch),
                else_branch: clone_option_stmts(else_branch),
            },
            Stmt::Unless { condition, body } => Stmt::Unless {
                condition: condition.clone(),
                body: clone_stmts(body),
            },
            Stmt::While { condition, body } => Stmt::While {
                condition: condition.clone(),
                body: clone_stmts(body),
            },
            Stmt::For { variable, iterable, body } => Stmt::For {
                variable: variable.clone(),
                iterable: iterable.clone(),
                body: clone_stmts(body),
            },
            Stmt::Of { value, cases, default } => Stmt::Of {
                value: value.clone(),
                cases: clone_cases(cases),
                default: clone_option_stmts(default),
            },
            Stmt::Change { name, value } => Stmt::Change {
                name: name.clone(),
                value: value.clone(),
            },
            Stmt::Break => Stmt::Break,
            Stmt::Continue => Stmt::Continue,
            Stmt::Produce(value) => Stmt::Produce(
                match value {
                    Some(e) => Some(e.clone()),
                    None => None,
                },
            ),
            Stmt::ModuleDeclaration { name, body } => Stmt::ModuleDeclaration {
                name: name.clone(),
                body: clone_stmts(body),
            },
            Stmt::TypeDefinition { name, definition } => Stmt::TypeDefinition {
                name: name.clone(),
                definition: definition.clone(),
            },
            Stmt::Import { path, specific_imports, alias } => Stmt::Import {
                path: clone_texts(path),
                specific_imports: clone_texts(specific_imports),
                alias: match alias {
                    Some(s) => Some(s.clone()),
                    None => None,
                },
            },
            Stmt::Write(e) => Stmt::Write(e.clone()),
        };
        proof {
            lemma_stmt_view(*self);
            lemma_stmt_view(r);
        }
        r
    }
}

} // verus!
