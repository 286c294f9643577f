//! What a program means: the value and the effects of every expression and
//! statement, as total functions. A budget bounds how deep calls nest and how
//! many rounds a loop makes, so that every program has an outcome.
use crate::ast::{ExprView, LiteralView, StmtView};
use crate::environment::undefined_variable;
use crate::number::{at_most, equal, is_zero, less, negated, Arithmetic};
use crate::rendering::display;
use crate::token::TokenKind;
use crate::value::{truthy, ValueView};
use vstd::prelude::*;

verus! {

/// What a program can see and change: the bindings of the current scope and
/// the lines printed so far.
pub struct State {
    pub env: Map<Seq<char>, ValueView>,
    pub output: Seq<Seq<char>>,
}

/// How evaluating ends: in a state, with a value or with the message of the
/// error that stopped it.
pub struct Outcome {
    pub state: State,
    pub result: Result<ValueView, Seq<char>>,
}

/// How binding the arguments of a call ends: in a state, with the scope of the
/// call or with the message of the error that stopped it.
pub struct Binding {
    pub state: State,
    pub result: Result<Map<Seq<char>, ValueView>, Seq<char>>,
}

/// The outcome that ends in `state` with `value`.
pub open spec fn yields(state: State, value: ValueView) -> Outcome {
    Outcome { state, result: Ok(value) }
}

/// The outcome that ends in `state` with the error `message`.
pub open spec fn fails(state: State, message: Seq<char>) -> Outcome {
    Outcome { state, result: Err(message) }
}

/// The message for a call or a round that the budget does not cover.
pub open spec fn limit_reached() -> Seq<char> {
    "Evaluation limit reached."@
}

/// The message for a call of a name that is bound to no function.
pub open spec fn not_implemented(name: Seq<char>) -> Seq<char> {
    "Function '"@ + name + "' not implemented"@
}

/// The message for a parameter without an argument.
pub open spec fn missing_argument(parameter: Seq<char>) -> Seq<char> {
    "Missing argument for parameter '"@ + parameter + "'"@
}

/// The message for an operator on numbers that is given something else.
pub open spec fn operands_must_be_numbers() -> Seq<char> {
    "Operands must be numbers."@
}

/// The value of a literal.
pub open spec fn literal_value(a: Arithmetic, literal: LiteralView) -> ValueView {
    match literal {
        LiteralView::Number(text) => ValueView::Number((a.read)(text)),
        LiteralView::Integer(i) => ValueView::Number((a.from_integer)(i)),
        LiteralView::String(text) => ValueView::String(text),
        LiteralView::Decision(b) => ValueView::Boolean(b),
        LiteralView::Nothing => ValueView::Nil,
    }
}

/// Whether two values are equal: values of one kind by what they hold, values
/// of different kinds never. Functions are never equal.
pub open spec fn values_equal(left: ValueView, right: ValueView) -> bool {
    match (left, right) {
        (ValueView::Number(l), ValueView::Number(r)) => equal(l, r),
        (ValueView::String(l), ValueView::String(r)) => l == r,
        (ValueView::Boolean(l), ValueView::Boolean(r)) => l == r,
        (ValueView::Nil, ValueView::Nil) => true,
        _ => false,
    }
}

/// The sum of two numbers or the concatenation of two strings.
pub open spec fn plus(a: Arithmetic, left: ValueView, right: ValueView) -> Result<
    ValueView,
    Seq<char>,
> {
    match (left, right) {
        (ValueView::Number(l), ValueView::Number(r)) => Ok(ValueView::Number((a.add)(l, r))),
        (ValueView::String(l), ValueView::String(r)) => Ok(ValueView::String(l + r)),
        _ => Err("Operands must be two numbers or two strings."@),
    }
}

/// The concatenation of two strings.
pub open spec fn concatenation(left: ValueView, right: ValueView) -> Result<ValueView, Seq<char>> {
    match (left, right) {
        (ValueView::String(l), ValueView::String(r)) => Ok(ValueView::String(l + r)),
        _ => Err("Operands must be two strings."@),
    }
}

/// The quotient of two numbers. A divisor that is zero is an error.
pub open spec fn quotient(a: Arithmetic, left: ValueView, right: ValueView) -> Result<
    ValueView,
    Seq<char>,
> {
    match (left, right) {
        (ValueView::Number(l), ValueView::Number(r)) => if is_zero(r) {
            Err("Division by zero."@)
        } else {
            Ok(ValueView::Number((a.divide)(l, r)))
        },
        _ => Err(operands_must_be_numbers()),
    }
}

/// What a binary operator of tag `kind`, other than `+`, `&` and `/`, makes of
/// two numbers; nothing where `kind` is no such operator.
pub open spec fn of_numbers(a: Arithmetic, kind: TokenKind, left: u64, right: u64) -> Option<
    ValueView,
> {
    if kind == TokenKind::Minus {
        Some(ValueView::Number((a.subtract)(left, right)))
    } else if kind == TokenKind::Star {
        Some(ValueView::Number((a.multiply)(left, right)))
    } else if kind == TokenKind::Greater {
        Some(ValueView::Boolean(less(right, left)))
    } else if kind == TokenKind::Less {
        Some(ValueView::Boolean(less(left, right)))
    } else if kind == TokenKind::GreaterEqual {
        Some(ValueView::Boolean(at_most(right, left)))
    } else if kind == TokenKind::LessEqual {
        Some(ValueView::Boolean(at_most(left, right)))
    } else {
        None
    }
}

/// Whether `kind` is an operator that takes two numbers and nothing else.
pub open spec fn takes_numbers(kind: TokenKind) -> bool {
    kind == TokenKind::Minus || kind == TokenKind::Star || kind == TokenKind::Greater || kind
        == TokenKind::Less || kind == TokenKind::GreaterEqual || kind == TokenKind::LessEqual
}

/// What the binary operator of tag `kind` makes of two values.
pub open spec fn binary(
    a: Arithmetic,
    kind: TokenKind,
    left: ValueView,
    right: ValueView,
) -> Result<ValueView, Seq<char>> {
    if kind == TokenKind::Plus {
        plus(a, left, right)
    } else if kind == TokenKind::Ampersand {
        concatenation(left, right)
    } else if kind == TokenKind::Slash {
        quotient(a, left, right)
    } else if kind == TokenKind::Is || kind == TokenKind::EqualEqual {
        Ok(ValueView::Boolean(values_equal(left, right)))
    } else if kind == TokenKind::NotEqual {
        Ok(ValueView::Boolean(!values_equal(left, right)))
    } else if takes_numbers(kind) {
        match (left, right) {
            (ValueView::Number(l), ValueView::Number(r)) => Ok(of_numbers(a, kind, l, r)->0),
            _ => Err(operands_must_be_numbers()),
        }
    } else {
        Err("Invalid binary operator."@)
    }
}

/// What the prefix operator of tag `kind` makes of a value.
pub open spec fn unary(kind: TokenKind, value: ValueView) -> Result<ValueView, Seq<char>> {
    if kind == TokenKind::Minus {
        match value {
            ValueView::Number(n) => Ok(ValueView::Number(negated(n))),
            _ => Err("Operand must be a number."@),
        }
    } else if kind == TokenKind::ExclamationMark {
        Ok(ValueView::Boolean(!truthy(value)))
    } else {
        Err("Invalid unary operator."@)
    }
}

/// The value of the variable `name`.
pub open spec fn read_variable(state: State, name: Seq<char>) -> Outcome {
    if state.env.contains_key(name) {
        yields(state, state.env[name])
    } else {
        fails(state, undefined_variable(name))
    }
}

/// Whether `name` names the built-in that prints.
pub open spec fn is_print(name: Seq<char>) -> bool {
    name == "print"@ || name == "write"@
}

/// The state after one more line is printed.
pub open spec fn printed(state: State, line: Seq<char>) -> State {
    State { env: state.env, output: state.output.push(line) }
}

/// The state with `name` bound to `value`.
pub open spec fn bound(state: State, name: Seq<char>, value: ValueView) -> State {
    State { env: state.env.insert(name, value), output: state.output }
}

/// The value of an expression and the state it leaves.
#[verifier::opaque]
pub open spec fn eval_expr(a: Arithmetic, fuel: nat, state: State, e: ExprView) -> Outcome
    decreases fuel, 0nat, e, 3nat,
{
    match e {
        ExprView::Binary { .. } => eval_binary(a, fuel, state, e),
        ExprView::Grouping(inner) => eval_expr(a, fuel, state, *inner),
        ExprView::Literal(literal) => yields(state, literal_value(a, literal)),
        ExprView::Unary { .. } => eval_unary(a, fuel, state, e),
        ExprView::Variable(name) => read_variable(state, name),
        ExprView::FunctionCall { .. } => eval_call(a, fuel, state, e),
        _ => yields(state, ValueView::Nil),
    }
}

/// A binary operation: the left operand, then the right, then the operator.
#[verifier::opaque]
pub open spec fn eval_binary(a: Arithmetic, fuel: nat, state: State, e: ExprView) -> Outcome
    decreases fuel, 0nat, e, 2nat,
{
    match e {
        ExprView::Binary { left, operator, right } => {
            let l = eval_expr(a, fuel, state, *left);
            match l.result {
                Err(_) => l,
                Ok(left_value) => {
                    let r = eval_expr(a, fuel, l.state, *right);
                    match r.result {
                        Err(_) => r,
                        Ok(right_value) => Outcome {
                            state: r.state,
                            result: binary(a, operator.kind, left_value, right_value),
                        },
                    }
                },
            }
        },
        _ => yields(state, ValueView::Nil),
    }
}

/// A prefix operation: the operand, then the operator.
#[verifier::opaque]
pub open spec fn eval_unary(a: Arithmetic, fuel: nat, state: State, e: ExprView) -> Outcome
    decreases fuel, 0nat, e, 2nat,
{
    match e {
        ExprView::Unary { operator, right } => {
            let r = eval_expr(a, fuel, state, *right);
            match r.result {
                Err(_) => r,
                Ok(value) => Outcome { state: r.state, result: unary(operator.kind, value) },
            }
        },
        _ => yields(state, ValueView::Nil),
    }
}

/// The function that `name` is bound to: its parameters and its body.
pub open spec fn function_named(state: State, name: Seq<char>) -> Option<
    (Seq<(Seq<char>, Seq<char>)>, Seq<StmtView>),
> {
    if state.env.contains_key(name) {
        match state.env[name] {
            ValueView::Function { params, body, .. } => Some((params, body)),
            _ => None,
        }
    } else {
        None
    }
}

/// A call: of the built-in that prints, or of the function that the name is
/// bound to.
#[verifier::opaque]
pub open spec fn eval_call(a: Arithmetic, fuel: nat, state: State, e: ExprView) -> Outcome
    decreases fuel, 0nat, e, 2nat,
{
    match e {
        ExprView::FunctionCall { name, .. } => if is_print(name) {
            eval_print(a, fuel, state, e)
        } else {
            match function_named(state, name) {
                Some((params, body)) => call_function(a, fuel, state, e, params, body),
                None => fails(state, not_implemented(name)),
            }
        },
        _ => yields(state, ValueView::Nil),
    }
}

/// A call of the built-in that prints: it prints its first argument, if it
/// has one, and yields nothing.
#[verifier::opaque]
pub open spec fn eval_print(a: Arithmetic, fuel: nat, state: State, e: ExprView) -> Outcome
    decreases fuel, 0nat, e, 1nat,
{
    match e {
        ExprView::FunctionCall { arguments, .. } => if arguments.len() == 0 {
            yields(state, ValueView::Nil)
        } else {
            let v = eval_expr(a, fuel, state, arguments[0]);
            match v.result {
                Err(_) => v,
                Ok(value) => yields(printed(v.state, display(a, value)), ValueView::Nil),
            }
        },
        _ => yields(state, ValueView::Nil),
    }
}

/// The scope of a call: the parameters from place `i` on, each bound to the
/// value of the argument in its place, added to `scope`. The arguments are
/// evaluated in order, in the scope of the caller; a parameter without an
/// argument is an error; arguments beyond the parameters are not evaluated.
#[verifier::opaque]
pub open spec fn bind_arguments(
    a: Arithmetic,
    fuel: nat,
    state: State,
    params: Seq<(Seq<char>, Seq<char>)>,
    arguments: Seq<ExprView>,
    i: nat,
    scope: Map<Seq<char>, ValueView>,
) -> Binding
    decreases fuel, 0nat, arguments, params.len() - i,
{
    if i >= params.len() {
        Binding { state, result: Ok(scope) }
    } else if i >= arguments.len() {
        Binding { state, result: Err(missing_argument(params[i as int].0)) }
    } else {
        let v = eval_expr(a, fuel, state, arguments[i as int]);
        match v.result {
            Err(message) => Binding { state: v.state, result: Err(message) },
            Ok(value) => bind_arguments(
                a,
                fuel,
                v.state,
                params,
                arguments,
                i + 1,
                scope.insert(params[i as int].0, value),
            ),
        }
    }
}

/// The state in which a function body runs: the scope of the call, and the
/// lines printed so far.
pub open spec fn entered(state: State, scope: Map<Seq<char>, ValueView>) -> State {
    State { env: scope, output: state.output }
}

/// The outcome of a call, back in the scope of the caller: the result of the
/// body and the lines it printed; the bindings of the caller as they were.
pub open spec fn returned(caller: State, body: Outcome) -> Outcome {
    Outcome {
        state: State { env: caller.env, output: body.state.output },
        result: body.result,
    }
}

/// A call of a function with the parameters `params` and the body `body`:
/// the arguments are bound in a scope of their own, the body runs in it with
/// one unit less of the budget, and its last value is the value of the call.
/// The scope of the caller is back in place afterwards, however the body
/// ends.
#[verifier::opaque]
pub open spec fn call_function(
    a: Arithmetic,
    fuel: nat,
    state: State,
    e: ExprView,
    params: Seq<(Seq<char>, Seq<char>)>,
    body: Seq<StmtView>,
) -> Outcome
    decreases fuel, 0nat, e, 1nat,
{
    match e {
        ExprView::FunctionCall { arguments, .. } => {
            let binding = bind_arguments(a, fuel, state, params, arguments, 0, Map::empty());
            match binding.result {
                Err(message) => fails(binding.state, message),
                Ok(scope) => if fuel == 0 {
                    fails(binding.state, limit_reached())
                } else {
                    returned(
                        binding.state,
                        exec_block(
                            a,
                            (fuel - 1) as nat,
                            entered(binding.state, scope),
                            body,
                            0,
                            ValueView::Nil,
                        ),
                    )
                },
            }
        },
        _ => yields(state, ValueView::Nil),
    }
}

/// The effect and the value of a statement.
#[verifier::opaque]
pub open spec fn exec_stmt(a: Arithmetic, fuel: nat, state: State, s: StmtView) -> Outcome
    decreases fuel, 1nat, s, 3nat,
{
    match s {
        StmtView::Expression(e) => eval_expr(a, fuel, state, e),
        StmtView::Function { name, params, body, .. } => yields(
            bound(state, name, ValueView::Function { name, params, body }),
            ValueView::Nil,
        ),
        StmtView::Value { .. } => exec_value(a, fuel, state, s),
        StmtView::Change { .. } => exec_change(a, fuel, state, s),
        StmtView::Produce(value) => match value {
            Some(e) => eval_expr(a, fuel, state, e),
            None => yields(state, ValueView::Nil),
        },
        StmtView::If { .. } => exec_if(a, fuel, state, s),
        StmtView::Unless { .. } => exec_unless(a, fuel, state, s),
        StmtView::While { .. } => run_while(a, fuel, state, s, ValueView::Nil),
        StmtView::Write(_) => exec_write(a, fuel, state, s),
        _ => yields(state, ValueView::Nil),
    }
}

/// A binding: the initializer is evaluated and the name bound to its value,
/// which is also the value of the statement.
#[verifier::opaque]
pub open spec fn exec_value(a: Arithmetic, fuel: nat, state: State, s: StmtView) -> Outcome
    decreases fuel, 1nat, s, 2nat,
{
    match s {
        StmtView::Value { name, initializer, .. } => {
            let v = eval_expr(a, fuel, state, initializer);
            match v.result {
                Err(_) => v,
                Ok(value) => yields(bound(v.state, name, value), value),
            }
        },
        _ => yields(state, ValueView::Nil),
    }
}

/// A reassignment: the new value is evaluated and given to the name, which
/// must be bound.
#[verifier::opaque]
pub open spec fn exec_change(a: Arithmetic, fuel: nat, state: State, s: StmtView) -> Outcome
    decreases fuel, 1nat, s, 2nat,
{
    match s {
        StmtView::Change { name, value } => {
            let v = eval_expr(a, fuel, state, value);
            match v.result {
                Err(_) => v,
                Ok(value) => if v.state.env.contains_key(name) {
                    yields(bound(v.state, name, value), value)
                } else {
                    fails(v.state, undefined_variable(name))
                },
            }
        },
        _ => yields(state, ValueView::Nil),
    }
}

/// A conditional: the condition, then the branch it selects; without a
/// branch to run it yields nothing.
#[verifier::opaque]
pub open spec fn exec_if(a: Arithmetic, fuel: nat, state: State, s: StmtView) -> Outcome
    decreases fuel, 1nat, s, 2nat,
{
    match s {
        StmtView::If { condition, then_branch, else_branch } => {
            let c = eval_expr(a, fuel, state, condition);
            match c.result {
                Err(_) => c,
                Ok(value) => if truthy(value) {
                    exec_block(a, fuel, c.state, then_branch, 0, ValueView::Nil)
                } else {
                    match else_branch {
                        Some(branch) => exec_block(a, fuel, c.state, branch, 0, ValueView::Nil),
                        None => yields(c.state, ValueView::Nil),
                    }
                },
            }
        },
        _ => yields(state, ValueView::Nil),
    }
}

/// A negated conditional: the body runs where the condition does not hold.
#[verifier::opaque]
pub open spec fn exec_unless(a: Arithmetic, fuel: nat, state: State, s: StmtView) -> Outcome
    decreases fuel, 1nat, s, 2nat,
{
    match s {
        StmtView::Unless { condition, body } => {
            let c = eval_expr(a, fuel, state, condition);
            match c.result {
                Err(_) => c,
                Ok(value) => if !truthy(value) {
                    exec_block(a, fuel, c.state, body, 0, ValueView::Nil)
                } else {
                    yields(c.state, ValueView::Nil)
                },
            }
        },
        _ => yields(state, ValueView::Nil),
    }
}

/// A print statement: the value is evaluated and printed as one line.
#[verifier::opaque]
pub open spec fn exec_write(a: Arithmetic, fuel: nat, state: State, s: StmtView) -> Outcome
    decreases fuel, 1nat, s, 2nat,
{
    match s {
        StmtView::Write(e) => {
            let v = eval_expr(a, fuel, state, e);
            match v.result {
                Err(_) => v,
                Ok(value) => yields(printed(v.state, display(a, value)), ValueView::Nil),
            }
        },
        _ => yields(state, ValueView::Nil),
    }
}

/// The statements of `statements` from place `i` on, in order, after a
/// statement that yielded `last`: the value is that of the last statement
/// run, and the first error stops the run.
#[verifier::opaque]
pub open spec fn exec_block(
    a: Arithmetic,
    fuel: nat,
    state: State,
    statements: Seq<StmtView>,
    i: nat,
    last: ValueView,
) -> Outcome
    decreases fuel, 1nat, statements, statements.len() - i,
{
    if i >= statements.len() {
        yields(state, last)
    } else {
        let o = exec_stmt(a, fuel, state, statements[i as int]);
        match o.result {
            Err(_) => o,
            Ok(value) => exec_block(a, fuel, o.state, statements, i + 1, value),
        }
    }
}

/// The loop `s` after a round that yielded `last`: the condition is evaluated
/// before every round; where it does not hold the loop ends with `last`,
/// else the body runs and the loop goes on with one unit less of the budget.
/// A round that the budget does not cover does not start.
#[verifier::opaque]
pub open spec fn run_while(
    a: Arithmetic,
    fuel: nat,
    state: State,
    s: StmtView,
    last: ValueView,
) -> Outcome
    decreases fuel, 1nat, s, 2nat,
{
    match s {
        StmtView::While { condition, body } => {
            let c = eval_expr(a, fuel, state, condition);
            match c.result {
                Err(_) => c,
                Ok(value) => if !truthy(value) {
                    yields(c.state, last)
                } else if fuel == 0 {
                    fails(c.state, limit_reached())
                } else {
                    let round = exec_block(a, fuel, c.state, body, 0, ValueView::Nil);
                    match round.result {
                        Err(_) => round,
                        Ok(value) => run_while(a, (fuel - 1) as nat, round.state, s, value),
                    }
                },
            }
        },
        _ => yields(state, last),
    }
}

/// The outcome of a program: its statements in order; the value is that of
/// the last statement, or nothing for an empty program.
pub open spec fn interpret(
    a: Arithmetic,
    fuel: nat,
    state: State,
    statements: Seq<StmtView>,
) -> Outcome {
    exec_block(a, fuel, state, statements, 0, ValueView::Nil)
}

} // verus!
