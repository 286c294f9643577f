//! What holds of every program: properties of the semantics that callers may
//! rely on, each proved from the definitions.
use crate::ast::{ExprView, LiteralView, StmtView};
use crate::environment::undefined_variable;
use crate::number::{is_zero, negated, Arithmetic};
use crate::semantics::{
    bind_arguments, binary, bound, call_function, entered, eval_binary, eval_call, eval_expr,
    eval_print, eval_unary, exec_block, exec_change, exec_stmt, exec_value, fails, function_named,
    interpret, is_print, literal_value, missing_argument, not_implemented, run_while, unary,
    yields, Binding, Outcome, State,
};
use crate::token::TokenKind;
use crate::value::{truthy, ValueView};
use crate::{evaluates, Evaluation};
use vstd::prelude::*;

verus! {

/// Whether `e` is a closed arithmetic expression: numbers joined by `+`, `-`,
/// `*` and `/`, with groupings and negations.
pub open spec fn is_arithmetic(e: ExprView) -> bool
    decreases e,
{
    match e {
        ExprView::Literal(LiteralView::Number(_)) => true,
        ExprView::Grouping(inner) => is_arithmetic(*inner),
        ExprView::Unary { operator, right } => operator.kind == TokenKind::Minus && is_arithmetic(
            *right,
        ),
        ExprView::Binary { left, operator, right } => (operator.kind == TokenKind::Plus
            || operator.kind == TokenKind::Minus || operator.kind == TokenKind::Star
            || operator.kind == TokenKind::Slash) && is_arithmetic(*left) && is_arithmetic(*right),
        _ => false,
    }
}

/// What the operator of tag `kind` makes of two numbers.
pub open spec fn applied(a: Arithmetic, kind: TokenKind, left: u64, right: u64) -> Result<
    u64,
    Seq<char>,
> {
    if kind == TokenKind::Plus {
        Ok((a.add)(left, right))
    } else if kind == TokenKind::Minus {
        Ok((a.subtract)(left, right))
    } else if kind == TokenKind::Star {
        Ok((a.multiply)(left, right))
    } else if is_zero(right) {
        Err("Division by zero."@)
    } else {
        Ok((a.divide)(left, right))
    }
}

/// The number that a closed arithmetic expression comes to: the operators
/// applied to the numbers, from the leaves up, the left operand first.
pub open spec fn arithmetic_value(a: Arithmetic, e: ExprView) -> Result<u64, Seq<char>>
    decreases e,
{
    match e {
        ExprView::Literal(LiteralView::Number(text)) => Ok((a.read)(text)),
        ExprView::Grouping(inner) => arithmetic_value(a, *inner),
        ExprView::Unary { right, .. } => match arithmetic_value(a, *right) {
            Ok(n) => Ok(negated(n)),
            Err(message) => Err(message),
        },
        ExprView::Binary { left, operator, right } => match arithmetic_value(a, *left) {
            Err(message) => Err(message),
            Ok(l) => match arithmetic_value(a, *right) {
                Err(message) => Err(message),
                Ok(r) => applied(a, operator.kind, l, r),
            },
        },
        _ => Ok(0),
    }
}

/// A number as a value, an error as it is.
pub open spec fn as_number(r: Result<u64, Seq<char>>) -> Result<ValueView, Seq<char>> {
    match r {
        Ok(n) => Ok(ValueView::Number(n)),
        Err(message) => Err(message),
    }
}

/// A closed arithmetic expression evaluates to what the operators make of its
/// numbers, in every state and with every budget, and it changes nothing.
pub proof fn lemma_arithmetic(a: Arithmetic, fuel: nat, state: State, e: ExprView)
    requires
        is_arithmetic(e),
    ensures
        eval_expr(a, fuel, state, e) == (Outcome {
            state,
            result: as_number(arithmetic_value(a, e)),
        }),
    decreases e,
{
    match e {
        ExprView::Grouping(inner) => {
            lemma_arithmetic(a, fuel, state, *inner);
            assert(eval_expr(a, fuel, state, e) == eval_expr(a, fuel, state, *inner)) by {
                reveal_with_fuel(eval_expr, 1);
            }
        },
        ExprView::Unary { operator, right } => {
            lemma_arithmetic(a, fuel, state, *right);
            let operand = eval_expr(a, fuel, state, *right);
            assert(eval_unary(a, fuel, state, e) == match operand.result {
                Err(_) => operand,
                Ok(value) => Outcome { state: operand.state, result: unary(operator.kind, value) },
            }) by {
                reveal_with_fuel(eval_unary, 1);
                reveal_with_fuel(eval_expr, 1);
            }
            assert(eval_expr(a, fuel, state, e) == eval_unary(a, fuel, state, e)) by {
                reveal_with_fuel(eval_expr, 1);
                reveal_with_fuel(eval_unary, 1);
            }
        },
        ExprView::Binary { left, operator, right } => {
            lemma_arithmetic(a, fuel, state, *left);
            lemma_arithmetic(a, fuel, state, *right);
            let l = eval_expr(a, fuel, state, *left);
            let r = eval_expr(a, fuel, state, *right);
            assert(eval_binary(a, fuel, state, e) == match l.result {
                Err(_) => l,
                Ok(left_value) => match r.result {
                    Err(_) => r,
                    Ok(right_value) => Outcome {
                        state: r.state,
                        result: binary(a, operator.kind, left_value, right_value),
                    },
                },
            }) by {
                reveal_with_fuel(eval_binary, 1);
                reveal_with_fuel(eval_expr, 1);
            }
            assert(eval_expr(a, fuel, state, e) == eval_binary(a, fuel, state, e)) by {
                reveal_with_fuel(eval_expr, 1);
                reveal_with_fuel(eval_binary, 1);
            }
        },
        _ => {
            let value = literal_value(a, e->Literal_0);
            assert(eval_expr(a, fuel, state, e) == yields(state, value)) by {
                reveal_with_fuel(eval_expr, 1);
            }
        },
    }
}

/// Dividing by a number that is zero is an error, whatever the arithmetic: no
/// quotient is computed.
pub proof fn lemma_division_by_zero(a: Arithmetic, left: u64, right: u64)
    requires
        is_zero(right),
    ensures
        binary(a, TokenKind::Slash, ValueView::Number(left), ValueView::Number(right)) == Err::<
            ValueView,
            Seq<char>,
        >("Division by zero."@),
{
}

/// Two strings add up to the first followed by the second, with `+` and with
/// `&`. A string and a number do not add up, in either order.
pub proof fn lemma_concatenation(a: Arithmetic, left: Seq<char>, right: Seq<char>, n: u64)
    ensures
        binary(a, TokenKind::Plus, ValueView::String(left), ValueView::String(right)) == Ok::<
            ValueView,
            Seq<char>,
        >(ValueView::String(left + right)),
        binary(a, TokenKind::Ampersand, ValueView::String(left), ValueView::String(right)) == Ok::<
            ValueView,
            Seq<char>,
        >(ValueView::String(left + right)),
        binary(a, TokenKind::Plus, ValueView::String(left), ValueView::Number(n)) is Err,
        binary(a, TokenKind::Plus, ValueView::Number(n), ValueView::String(right)) is Err,
        binary(a, TokenKind::Ampersand, ValueView::String(left), ValueView::Number(n)) is Err,
        binary(a, TokenKind::Ampersand, ValueView::Number(n), ValueView::String(right)) is Err,
{
}

/// Evaluating an expression leaves the bindings of the scope as they were: a
/// call runs in a scope of its own, and the scope of the caller is back in
/// place when it ends, however it ends.
pub proof fn lemma_expression_keeps_bindings(a: Arithmetic, fuel: nat, state: State, e: ExprView)
    ensures
        eval_expr(a, fuel, state, e).state.env == state.env,
    decreases fuel, 0nat, e, 3nat,
{
    match e {
        ExprView::Binary { left, right, .. } => {
            lemma_expression_keeps_bindings(a, fuel, state, *left);
            let l = eval_expr(a, fuel, state, *left);
            lemma_expression_keeps_bindings(a, fuel, l.state, *right);
            assert(eval_binary(a, fuel, state, e).state.env == state.env) by {
                reveal_with_fuel(eval_binary, 1);
                reveal_with_fuel(eval_expr, 1);
            }
            assert(eval_expr(a, fuel, state, e) == eval_binary(a, fuel, state, e)) by {
                reveal_with_fuel(eval_expr, 1);
                reveal_with_fuel(eval_binary, 1);
            }
        },
        ExprView::Grouping(inner) => {
            lemma_expression_keeps_bindings(a, fuel, state, *inner);
            assert(eval_expr(a, fuel, state, e) == eval_expr(a, fuel, state, *inner)) by {
                reveal_with_fuel(eval_expr, 1);
            }
        },
        ExprView::Unary { right, .. } => {
            lemma_expression_keeps_bindings(a, fuel, state, *right);
            assert(eval_unary(a, fuel, state, e).state.env == state.env) by {
                reveal_with_fuel(eval_unary, 1);
                reveal_with_fuel(eval_expr, 1);
            }
            assert(eval_expr(a, fuel, state, e) == eval_unary(a, fuel, state, e)) by {
                reveal_with_fuel(eval_expr, 1);
                reveal_with_fuel(eval_unary, 1);
            }
        },
        ExprView::FunctionCall { name, arguments, .. } => {
            if is_print(name) {
                if arguments.len() > 0 {
                    lemma_expression_keeps_bindings(a, fuel, state, arguments[0]);
                }
                assert(eval_print(a, fuel, state, e).state.env == state.env) by {
                    reveal_with_fuel(eval_print, 1);
                    reveal_with_fuel(eval_expr, 1);
                }
            } else if function_named(state, name) is Some {
                let found = function_named(state, name)->0;
                lemma_binding_keeps_bindings(a, fuel, state, found.0, arguments, 0, Map::empty());
                let called = call_function(a, fuel, state, e, found.0, found.1);
                assert(called.state.env == state.env) by {
                    reveal_with_fuel(call_function, 1);
                    reveal_with_fuel(bind_arguments, 1);
                    reveal_with_fuel(exec_block, 1);
                }
            }
            assert(eval_call(a, fuel, state, e).state.env == state.env) by {
                reveal_with_fuel(eval_call, 1);
                reveal_with_fuel(eval_print, 1);
                reveal_with_fuel(call_function, 1);
            }
            assert(eval_expr(a, fuel, state, e) == eval_call(a, fuel, state, e)) by {
                reveal_with_fuel(eval_expr, 1);
                reveal_with_fuel(eval_call, 1);
            }
        },
        _ => {
            assert(eval_expr(a, fuel, state, e).state == state) by {
                reveal_with_fuel(eval_expr, 1);
            }
        },
    }
}

/// Binding the arguments of a call leaves the bindings of the caller as they
/// were.
pub proof fn lemma_binding_keeps_bindings(
    a: Arithmetic,
    fuel: nat,
    state: State,
    params: Seq<(Seq<char>, Seq<char>)>,
    arguments: Seq<ExprView>,
    i: nat,
    scope: Map<Seq<char>, ValueView>,
)
    ensures
        bind_arguments(a, fuel, state, params, arguments, i, scope).state.env == state.env,
    decreases fuel, 0nat, arguments, params.len() - i,
{
    reveal_with_fuel(bind_arguments, 1);
    reveal_with_fuel(eval_expr, 1);
    if i < params.len() && i < arguments.len() {
        lemma_expression_keeps_bindings(a, fuel, state, arguments[i as int]);
        let v = eval_expr(a, fuel, state, arguments[i as int]);
        if v.result is Ok {
            lemma_binding_keeps_bindings(
                a,
                fuel,
                v.state,
                params,
                arguments,
                i + 1,
                scope.insert(params[i as int].0, v.result->Ok_0),
            );
        }
    }
}

/// The program that binds `name` to the value of `first`, gives it the value
/// of `second`, and reads it.
pub open spec fn rebinding(
    name: Seq<char>,
    type_label: Seq<char>,
    mutable: bool,
    first: ExprView,
    second: ExprView,
) -> Seq<StmtView> {
    seq![
        StmtView::Value { name, type_label, initializer: first, mutable },
        StmtView::Change { name, value: second },
        StmtView::Expression(ExprView::Variable(name)),
    ]
}

/// A name that is bound and then given a new value reads as the new value,
/// the one assigned last.
pub proof fn lemma_rebinding(
    a: Arithmetic,
    fuel: nat,
    state: State,
    name: Seq<char>,
    type_label: Seq<char>,
    mutable: bool,
    first: ExprView,
    second: ExprView,
)
    requires
        eval_expr(a, fuel, state, first).result is Ok,
        eval_expr(
            a,
            fuel,
            bound(
                eval_expr(a, fuel, state, first).state,
                name,
                eval_expr(a, fuel, state, first).result->Ok_0,
            ),
            second,
        ).result is Ok,
    ensures
        interpret(a, fuel, state, rebinding(name, type_label, mutable, first, second)).result
            == eval_expr(
            a,
            fuel,
            bound(
                eval_expr(a, fuel, state, first).state,
                name,
                eval_expr(a, fuel, state, first).result->Ok_0,
            ),
            second,
        ).result,
{
    let program = rebinding(name, type_label, mutable, first, second);
    let one = eval_expr(a, fuel, state, first);
    let defined = bound(one.state, name, one.result->Ok_0);
    let two = eval_expr(a, fuel, defined, second);
    let changed = bound(two.state, name, two.result->Ok_0);
    lemma_expression_keeps_bindings(a, fuel, defined, second);
    reveal_with_fuel(exec_block, 4);
    reveal_with_fuel(exec_stmt, 1);
    reveal_with_fuel(exec_value, 1);
    reveal_with_fuel(exec_change, 1);
    reveal_with_fuel(eval_expr, 1);
    assert(exec_stmt(a, fuel, state, program[0]) == yields(defined, one.result->Ok_0));
    assert(two.state.env.contains_key(name));
    assert(exec_stmt(a, fuel, defined, program[1]) == yields(changed, two.result->Ok_0));
    assert(exec_stmt(a, fuel, changed, program[2]) == yields(changed, two.result->Ok_0));
}

/// Giving a value to a name that is not bound is an error: the name stays
/// unbound, and every binding stays as it was.
pub proof fn lemma_change_of_unbound(
    a: Arithmetic,
    fuel: nat,
    state: State,
    name: Seq<char>,
    value: ExprView,
)
    requires
        !state.env.contains_key(name),
        eval_expr(a, fuel, state, value).result is Ok,
    ensures
        exec_stmt(a, fuel, state, StmtView::Change { name, value }) == fails(
            eval_expr(a, fuel, state, value).state,
            undefined_variable(name),
        ),
        !exec_stmt(a, fuel, state, StmtView::Change { name, value }).state.env.contains_key(name),
        exec_stmt(a, fuel, state, StmtView::Change { name, value }).state.env == state.env,
{
    lemma_expression_keeps_bindings(a, fuel, state, value);
    reveal_with_fuel(exec_stmt, 2);
    reveal_with_fuel(exec_change, 1);
    reveal_with_fuel(eval_expr, 1);
}

/// Reading a name that is not bound is an error, never a value.
pub proof fn lemma_read_of_unbound(a: Arithmetic, fuel: nat, state: State, name: Seq<char>)
    requires
        !state.env.contains_key(name),
    ensures
        eval_expr(a, fuel, state, ExprView::Variable(name)) == fails(
            state,
            undefined_variable(name),
        ),
{
    reveal_with_fuel(eval_expr, 1);
}

/// Nothing and the boolean false are the only values that do not count as
/// true; the number zero counts as true.
pub proof fn lemma_truthiness(value: ValueView)
    ensures
        !truthy(value) <==> value == ValueView::Nil || value == ValueView::Boolean(false),
        value is Number ==> truthy(value),
{
}

/// The function that yields its one parameter unchanged.
pub open spec fn identity(name: Seq<char>, parameter: (Seq<char>, Seq<char>)) -> ValueView {
    ValueView::Function {
        name,
        params: seq![parameter],
        body: seq![StmtView::Expression(ExprView::Variable(parameter.0))],
    }
}

/// A call of the function that yields its parameter, with a literal as the
/// argument, yields the value of the literal and changes nothing.
pub proof fn lemma_identity_call(
    a: Arithmetic,
    fuel: nat,
    state: State,
    name: Seq<char>,
    parameter: (Seq<char>, Seq<char>),
    literal: LiteralView,
    named_arguments: Seq<(Seq<char>, ExprView)>,
)
    requires
        fuel > 0,
        !is_print(name),
        state.env.contains_key(name),
        state.env[name] == identity(name, parameter),
    ensures
        eval_expr(
            a,
            fuel,
            state,
            ExprView::FunctionCall {
                name,
                arguments: seq![ExprView::Literal(literal)],
                named_arguments,
            },
        ) == yields(state, literal_value(a, literal)),
{
    let arguments = seq![ExprView::Literal(literal)];
    let params = seq![parameter];
    let call = ExprView::FunctionCall { name, arguments, named_arguments };
    let value = literal_value(a, literal);
    let scope = Map::<Seq<char>, ValueView>::empty().insert(parameter.0, value);
    let reading = ExprView::Variable(parameter.0);
    let body = seq![StmtView::Expression(reading)];
    let inside = entered(state, scope);
    let inner = (fuel - 1) as nat;
    assert(eval_expr(a, fuel, state, arguments[0]) == yields(state, value)) by {
        reveal_with_fuel(eval_expr, 1);
    }
    assert(bind_arguments(a, fuel, state, params, arguments, 1, scope) == (Binding {
        state,
        result: Ok(scope),
    })) by {
        reveal_with_fuel(bind_arguments, 1);
    }
    assert(bind_arguments(a, fuel, state, params, arguments, 0, Map::empty()) == (Binding {
        state,
        result: Ok(scope),
    })) by {
        reveal_with_fuel(bind_arguments, 1);
        reveal_with_fuel(eval_expr, 1);
    }
    assert(eval_expr(a, inner, inside, reading) == yields(inside, value)) by {
        reveal_with_fuel(eval_expr, 1);
    }
    assert(exec_stmt(a, inner, inside, body[0]) == yields(inside, value)) by {
        reveal_with_fuel(exec_stmt, 1);
        reveal_with_fuel(eval_expr, 1);
    }
    assert(exec_block(a, inner, inside, body, 1, value) == yields(inside, value)) by {
        reveal_with_fuel(exec_block, 1);
    }
    assert(exec_block(a, inner, inside, body, 0, ValueView::Nil) == yields(inside, value)) by {
        reveal_with_fuel(exec_block, 1);
        reveal_with_fuel(exec_stmt, 1);
    }
    assert(call_function(a, fuel, state, call, params, body) == yields(state, value)) by {
        reveal_with_fuel(call_function, 1);
        reveal_with_fuel(bind_arguments, 1);
        reveal_with_fuel(exec_block, 1);
    }
    assert(eval_call(a, fuel, state, call) == yields(state, value)) by {
        reveal_with_fuel(eval_call, 1);
        reveal_with_fuel(call_function, 1);
    }
    assert(eval_expr(a, fuel, state, call) == eval_call(a, fuel, state, call)) by {
        reveal_with_fuel(eval_expr, 1);
        reveal_with_fuel(eval_call, 1);
    }
}

/// A call with fewer arguments than the function has parameters is an error
/// that names the first parameter without an argument.
pub proof fn lemma_missing_argument(
    a: Arithmetic,
    fuel: nat,
    state: State,
    name: Seq<char>,
    parameter: (Seq<char>, Seq<char>),
    named_arguments: Seq<(Seq<char>, ExprView)>,
)
    requires
        !is_print(name),
        state.env.contains_key(name),
        state.env[name] == identity(name, parameter),
    ensures
        eval_expr(
            a,
            fuel,
            state,
            ExprView::FunctionCall { name, arguments: Seq::empty(), named_arguments },
        ) == fails(state, missing_argument(parameter.0)),
{
    let arguments = Seq::<ExprView>::empty();
    let params = seq![parameter];
    let body = seq![StmtView::Expression(ExprView::Variable(parameter.0))];
    let call = ExprView::FunctionCall { name, arguments, named_arguments };
    assert(bind_arguments(a, fuel, state, params, arguments, 0, Map::empty()) == (Binding {
        state,
        result: Err(missing_argument(parameter.0)),
    })) by {
        reveal_with_fuel(bind_arguments, 1);
    }
    assert(call_function(a, fuel, state, call, params, body) == fails(
        state,
        missing_argument(parameter.0),
    )) by {
        reveal_with_fuel(call_function, 1);
        reveal_with_fuel(bind_arguments, 1);
    }
    assert(eval_call(a, fuel, state, call) == fails(state, missing_argument(parameter.0))) by {
        reveal_with_fuel(eval_call, 1);
        reveal_with_fuel(call_function, 1);
    }
    assert(eval_expr(a, fuel, state, call) == eval_call(a, fuel, state, call)) by {
        reveal_with_fuel(eval_expr, 1);
        reveal_with_fuel(eval_call, 1);
    }
}

/// A call of a name that is bound to no function, and is not the built-in
/// that prints, is an error that names it.
pub proof fn lemma_call_of_unbound(
    a: Arithmetic,
    fuel: nat,
    state: State,
    name: Seq<char>,
    arguments: Seq<ExprView>,
    named_arguments: Seq<(Seq<char>, ExprView)>,
)
    requires
        !is_print(name),
        !state.env.contains_key(name),
    ensures
        eval_expr(a, fuel, state, ExprView::FunctionCall { name, arguments, named_arguments })
            == fails(state, not_implemented(name)),
{
    let call = ExprView::FunctionCall { name, arguments, named_arguments };
    assert(eval_call(a, fuel, state, call) == fails(state, not_implemented(name))) by {
        reveal_with_fuel(eval_call, 1);
    }
    assert(eval_expr(a, fuel, state, call) == eval_call(a, fuel, state, call)) by {
        reveal_with_fuel(eval_expr, 1);
        reveal_with_fuel(eval_call, 1);
    }
}

/// A loop whose condition does not hold at the start runs its body not once:
/// it ends in the state that evaluating the condition left, with nothing.
pub proof fn lemma_while_not_entered(
    a: Arithmetic,
    fuel: nat,
    state: State,
    condition: ExprView,
    body: Seq<StmtView>,
)
    requires
        eval_expr(a, fuel, state, condition).result is Ok,
        !truthy(eval_expr(a, fuel, state, condition).result->Ok_0),
    ensures
        exec_stmt(a, fuel, state, StmtView::While { condition, body }) == yields(
            eval_expr(a, fuel, state, condition).state,
            ValueView::Nil,
        ),
{
    reveal_with_fuel(exec_stmt, 2);
    reveal_with_fuel(eval_expr, 1);
}

/// After every round of a loop the condition is evaluated again: a loop whose
/// condition holds and whose body runs through goes on as the same loop from
/// the state that the body left, with one unit less of the budget and the
/// value of the body as the value so far.
pub proof fn lemma_while_round(
    a: Arithmetic,
    fuel: nat,
    state: State,
    condition: ExprView,
    body: Seq<StmtView>,
    last: ValueView,
)
    requires
        fuel > 0,
        eval_expr(a, fuel, state, condition).result is Ok,
        truthy(eval_expr(a, fuel, state, condition).result->Ok_0),
        exec_block(
            a,
            fuel,
            eval_expr(a, fuel, state, condition).state,
            body,
            0,
            ValueView::Nil,
        ).result is Ok,
    ensures
        ({
            let round = exec_block(
                a,
                fuel,
                eval_expr(a, fuel, state, condition).state,
                body,
                0,
                ValueView::Nil,
            );
            run_while(a, fuel, state, StmtView::While { condition, body }, last) == run_while(
                a,
                (fuel - 1) as nat,
                round.state,
                StmtView::While { condition, body },
                round.result->Ok_0,
            )
        }),
{
    reveal_with_fuel(run_while, 1);
    reveal_with_fuel(eval_expr, 1);
    reveal_with_fuel(exec_block, 1);
}

/// Where a loop stands after `k` rounds from `state`: the state that the body
/// of the last round left and the value of that body, or `state` and `last`
/// where `k` is zero. In each of the rounds the condition is evaluated and
/// holds, the budget covers the round, and the body runs through; there is no
/// such place where one of them does not.
pub open spec fn after_rounds(
    a: Arithmetic,
    fuel: nat,
    state: State,
    condition: ExprView,
    body: Seq<StmtView>,
    last: ValueView,
    k: nat,
) -> Option<(State, ValueView)>
    decreases k,
{
    if k == 0 {
        Some((state, last))
    } else {
        let c = eval_expr(a, fuel, state, condition);
        let round = exec_block(a, fuel, c.state, body, 0, ValueView::Nil);
        if fuel > 0 && c.result is Ok && truthy(c.result->Ok_0) && round.result is Ok {
            after_rounds(
                a,
                (fuel - 1) as nat,
                round.state,
                condition,
                body,
                round.result->Ok_0,
                (k - 1) as nat,
            )
        } else {
            None
        }
    }
}

/// A loop that has the value `last` so far, whose condition holds `k` times
/// in a row and then does not, runs its body `k` times and evaluates its
/// condition once more: it ends in the state that this last evaluation left,
/// with the value of the last round, or with `last` where `k` is zero.
pub proof fn lemma_while_rounds_from(
    a: Arithmetic,
    fuel: nat,
    state: State,
    condition: ExprView,
    body: Seq<StmtView>,
    last: ValueView,
    k: nat,
)
    requires
        after_rounds(a, fuel, state, condition, body, last, k) is Some,
        ({
            let (reached, value) = after_rounds(a, fuel, state, condition, body, last, k)->0;
            let c = eval_expr(a, (fuel - k) as nat, reached, condition);
            c.result is Ok && !truthy(c.result->Ok_0)
        }),
    ensures
        fuel >= k,
        ({
            let (reached, value) = after_rounds(a, fuel, state, condition, body, last, k)->0;
            run_while(a, fuel, state, StmtView::While { condition, body }, last) == yields(
                eval_expr(a, (fuel - k) as nat, reached, condition).state,
                value,
            )
        }),
    decreases k,
{
    if k == 0 {
        reveal_with_fuel(run_while, 1);
        reveal_with_fuel(eval_expr, 1);
        reveal_with_fuel(exec_block, 1);
    } else {
        let c = eval_expr(a, fuel, state, condition);
        let round = exec_block(a, fuel, c.state, body, 0, ValueView::Nil);
        lemma_while_round(a, fuel, state, condition, body, last);
        lemma_while_rounds_from(
            a,
            (fuel - 1) as nat,
            round.state,
            condition,
            body,
            round.result->Ok_0,
            (k - 1) as nat,
        );
    }
}

/// A loop whose condition holds `k` times in a row and then does not runs its
/// body exactly `k` times, and evaluates its condition before each round and
/// once after the last. It yields the value of the last round, or nothing
/// where `k` is zero.
pub proof fn lemma_while_rounds(
    a: Arithmetic,
    fuel: nat,
    state: State,
    condition: ExprView,
    body: Seq<StmtView>,
    k: nat,
)
    requires
        after_rounds(a, fuel, state, condition, body, ValueView::Nil, k) is Some,
        ({
            let (reached, value) = after_rounds(
                a,
                fuel,
                state,
                condition,
                body,
                ValueView::Nil,
                k,
            )->0;
            let c = eval_expr(a, (fuel - k) as nat, reached, condition);
            c.result is Ok && !truthy(c.result->Ok_0)
        }),
    ensures
        ({
            let (reached, value) = after_rounds(
                a,
                fuel,
                state,
                condition,
                body,
                ValueView::Nil,
                k,
            )->0;
            &&& exec_stmt(a, fuel, state, StmtView::While { condition, body }) == yields(
                eval_expr(a, (fuel - k) as nat, reached, condition).state,
                value,
            )
            &&& k == 0 ==> value == ValueView::Nil
        }),
{
    lemma_while_rounds_from(a, fuel, state, condition, body, ValueView::Nil, k);
    reveal_with_fuel(exec_stmt, 1);
    reveal_with_fuel(run_while, 1);
}

/// Evaluating the same source in the same state, with the same arithmetic and
/// budget, comes to the same result and the same state: nothing else decides.
/// So do two fresh instances on one source.
pub proof fn lemma_same_source_same_result(
    first: Result<String, String>,
    first_after: State,
    second: Result<String, String>,
    second_after: State,
    expected: Evaluation,
)
    requires
        evaluates(first, first_after, expected),
        evaluates(second, second_after, expected),
    ensures
        first_after == second_after,
        first is Ok <==> second is Ok,
        first is Ok ==> first->Ok_0@ == second->Ok_0@,
        first is Err ==> first->Err_0@ == second->Err_0@,
{
}

} // verus!
