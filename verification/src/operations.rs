//! The operators of the language on values.
use crate::ast::Literal;
use crate::number::{
    arithmetic_of, dependable, difference, from_integer, number_at_most, number_equal,
    number_is_zero, number_less, number_negated, product, ratio, read, sum, NumberAnswer, NumberOp,
};
use crate::semantics;
use crate::token::TokenKind;
use crate::value::{Value, ValueView};
use vstd::prelude::*;
use vstd::string::StringExecFns;

verus! {

/// `r` is `expected`, seen through the views of values and messages.
pub open spec fn is_result(
    r: Result<Value, String>,
    expected: Result<ValueView, Seq<char>>,
) -> bool {
    match (r, expected) {
        (Ok(value), Ok(view)) => value@ == view,
        (Err(message), Err(text)) => message@ == text,
        _ => false,
    }
}

/// The value of a literal.
pub fn literal_to_value<F: Fn(NumberOp) -> NumberAnswer>(literal: &Literal, numbers: &F) -> (r:
    Value)
    requires
        dependable(*numbers),
    ensures
        r@ == semantics::literal_value(arithmetic_of(*numbers), literal@),
{
    match literal {
        Literal::Number(text) => Value::Number(read(numbers, text.as_str())),
        Literal::Integer(i) => Value::Number(from_integer(numbers, *i)),
        Literal::String(text) => Value::String(text.clone()),
        Literal::Decision(b) => Value::Boolean(*b),
        Literal::Nothing => Value::Nil,
    }
}

/// Whether two values are equal.
pub fn is_equal(left: &Value, right: &Value) -> (r: bool)
    ensures
        r == semantics::values_equal(left@, right@),
{
    match (left, right) {
        (Value::Number(l), Value::Number(r)) => number_equal(*l, *r),
        (Value::String(l), Value::String(r)) => *l == *r,
        (Value::Boolean(l), Value::Boolean(r)) => *l == *r,
        (Value::Nil, Value::Nil) => true,
        _ => false,
    }
}

/// The sum of two numbers or the concatenation of two strings.
pub fn binary_plus<F: Fn(NumberOp) -> NumberAnswer>(left: Value, right: Value, numbers: &F) -> (r:
    Result<Value, String>)
    requires
        dependable(*numbers),
    ensures
        is_result(r, semantics::plus(arithmetic_of(*numbers), left@, right@)),
{
    match (left, right) {
        (Value::Number(l), Value::Number(r)) => Ok(Value::Number(sum(numbers, l, r))),
        (Value::String(l), Value::String(r)) => Ok(Value::String(l.concat(r.as_str()))),
        _ => Err("Operands must be two numbers or two strings.".to_owned()),
    }
}

/// The concatenation of two strings.
pub fn concatenate(left: Value, right: Value) -> (r: Result<Value, String>)
    ensures
        is_result(r, semantics::concatenation(left@, right@)),
{
    match (left, right) {
        (Value::String(l), Value::String(r)) => Ok(Value::String(l.concat(r.as_str()))),
        _ => Err("Operands must be two strings.".to_owned()),
    }
}

/// The quotient of two numbers.
pub fn binary_divide<F: Fn(NumberOp) -> NumberAnswer>(left: Value, right: Value, numbers: &F) -> (r:
    Result<Value, String>)
    requires
        dependable(*numbers),
    ensures
        is_result(r, semantics::quotient(arithmetic_of(*numbers), left@, right@)),
{
    match (left, right) {
        (Value::Number(l), Value::Number(r)) => {
            if number_is_zero(r) {
                Err("Division by zero.".to_owned())
            } else {
                Ok(Value::Number(ratio(numbers, l, r)))
            }
        },
        _ => Err("Operands must be numbers.".to_owned()),
    }
}

/// What an operator that takes two numbers makes of them.
fn of_numbers<F: Fn(NumberOp) -> NumberAnswer>(
    kind: TokenKind,
    left: u64,
    right: u64,
    numbers: &F,
) -> (r: Value)
    requires
        dependable(*numbers),
        semantics::takes_numbers(kind),
    ensures
        semantics::of_numbers(arithmetic_of(*numbers), kind, left, right) == Some(r@),
{
    if kind == TokenKind::Minus {
        Value::Number(difference(numbers, left, right))
    } else if kind == TokenKind::Star {
        Value::Number(product(numbers, left, right))
    } else if kind == TokenKind::Greater {
        Value::Boolean(number_less(right, left))
    } else if kind == TokenKind::Less {
        Value::Boolean(number_less(left, right))
    } else if kind == TokenKind::GreaterEqual {
        Value::Boolean(number_at_most(right, left))
    } else {
        Value::Boolean(number_at_most(left, right))
    }
}

/// What the binary operator of tag `kind` makes of two values.
pub fn binary_operation<F: Fn(NumberOp) -> NumberAnswer>(
    kind: TokenKind,
    left: Value,
    right: Value,
    numbers: &F,
) -> (r: Result<Value, String>)
    requires
        dependable(*numbers),
    ensures
        is_result(r, semantics::binary(arithmetic_of(*numbers), kind, left@, right@)),
{
    if kind == TokenKind::Plus {
        binary_plus(left, right, numbers)
    } else if kind == TokenKind::Ampersand {
        concatenate(left, right)
    } else if kind == TokenKind::Slash {
        binary_divide(left, right, numbers)
    } else if kind == TokenKind::Is || kind == TokenKind::EqualEqual {
        Ok(Value::Boolean(is_equal(&left, &right)))
    } else if kind == TokenKind::NotEqual {
        Ok(Value::Boolean(!is_equal(&left, &right)))
    } else if kind == TokenKind::Minus || kind == TokenKind::Star || kind == TokenKind::Greater
        || kind == TokenKind::Less || kind == TokenKind::GreaterEqual || kind
        == TokenKind::LessEqual {
        match (left, right) {
            (Value::Number(l), Value::Number(r)) => Ok(of_numbers(kind, l, r, numbers)),
            _ => Err("Operands must be numbers.".to_owned()),
        }
    } else {
        Err("Invalid binary operator.".to_owned())
    }
}

/// What the prefix operator of tag `kind` makes of a value.
pub fn unary_operation(kind: TokenKind, value: Value) -> (r: Result<Value, String>)
    ensures
        is_result(r, semantics::unary(kind, value@)),
{
    if kind == TokenKind::Minus {
        match value {
            Value::Number(n) => Ok(Value::Number(number_negated(n))),
            _ => Err("Operand must be a number.".to_owned()),
        }
    } else if kind == TokenKind::ExclamationMark {
        Ok(Value::Boolean(!value.is_truthy()))
    } else {
        Err("Invalid unary operator.".to_owned())
    }
}

} // verus!
