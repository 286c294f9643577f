use crate::ast::{clone_stmts, clone_text_pairs, stmts_view, text_pairs, Stmt, StmtView};
use vstd::prelude::*;

verus! {

/// A value at run time. A number is held as the bit pattern of an IEEE 754
/// double-precision value.
#[derive(Debug)]
pub enum Value {
    Number(u64),
    String(String),
    Boolean(bool),
    Function { name: String, params: Vec<(String, String)>, body: Vec<Stmt> },
    Nil,
}

/// The mathematical value of a run-time value.
pub enum ValueView {
    Number(u64),
    String(Seq<char>),
    Boolean(bool),
    Function { name: Seq<char>, params: Seq<(Seq<char>, Seq<char>)>, body: Seq<StmtView> },
    Nil,
}

impl View for Value {
    type V = ValueView;

    open spec fn view(&self) -> ValueView {
        match self {
            Value::Number(bits) => ValueView::Number(*bits),
            Value::String(text) => ValueView::String(text@),
            Value::Boolean(b) => ValueView::Boolean(*b),
            Value::Function { name, params, body } => ValueView::Function {
                name: name@,
                params: text_pairs(params@),
                body: stmts_view(body@),
            },
            Value::Nil => ValueView::Nil,
        }
    }
}

impl Clone for Value {
    fn clone(&self) -> (r: Self)
        ensures
            r@ == self@,
    {
        match self {
            Value::Number(bits) => Value::Number(*bits),
            Value::String(text) => Value::String(text.clone()),
            Value::Boolean(b) => Value::Boolean(*b),
            Value::Function { name, params, body } => Value::Function {
                name: name.clone(),
                params: clone_text_pairs(params),
                body: clone_stmts(body),
            },
            Value::Nil => Value::Nil,
        }
    }
}

/// Whether a value counts as true: every value but `Nil` and the boolean
/// false.
pub open spec fn truthy(value: ValueView) -> bool {
    match value {
        ValueView::Boolean(b) => b,
        ValueView::Nil => false,
        _ => true,
    }
}

impl Value {
    /// Whether this value counts as true.
    pub fn is_truthy(&self) -> (r: bool)
        ensures
            r == truthy(self@),
    {
        match self {
            Value::Boolean(b) => *b,
            Value::Nil => false,
            _ => true,
        }
    }
}

} // verus!
