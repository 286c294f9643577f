use crate::ast::{
    clone_stmts, clone_text_pairs, exprs_view, lemma_expr_view, lemma_exprs_view_index,
    lemma_stmt_view,
    lemma_stmts_view_index, lemma_text_pairs_index, lemma_texts_empty, lemma_texts_push,
    stmts_view, text_pairs, texts, Expr, Stmt,
};
use crate::environment::{undefined_variable_message, Environment};
use crate::number::{arithmetic_of, dependable, NumberAnswer, NumberOp};
use crate::operations::{binary_operation, is_result, literal_to_value, unary_operation};
use crate::rendering::display_line;
use crate::semantics;
use crate::semantics::{Binding, Outcome, State};
use crate::value::{Value, ValueView};
use vstd::prelude::*;
use vstd::string::StringExecFns;

verus! {

/// A tree-walking evaluator. It holds the bindings of the current scope, the
/// lines that the program has printed and nobody has taken yet, and the
/// budget of every run.
pub struct Interpreter {
    environment: Environment,
    output: Vec<String>,
    limit: u64,
}

/// `r` and the state `after` are the outcome `expected`.
pub open spec fn settles(r: Result<Value, String>, after: State, expected: Outcome) -> bool {
    after == expected.state && is_result(r, expected.result)
}

/// `r` and the state `after` are the binding `expected`.
pub open spec fn binds(r: Result<Environment, String>, after: State, expected: Binding) -> bool {
    after == expected.state && match (r, expected.result) {
        (Ok(scope), Ok(view)) => scope@ == view,
        (Err(message), Err(text)) => message@ == text,
        _ => false,
    }
}

/// The message for a call of a name that is bound to no function.
fn not_implemented_message(name: &str) -> (message: String)
    ensures
        message@ == semantics::not_implemented(name@),
{
    let mut message = "Function '".to_owned();
    message.append(name);
    message.append("' not implemented");
    message
}

/// The message for a parameter without an argument.
fn missing_argument_message(parameter: &str) -> (message: String)
    ensures
        message@ == semantics::missing_argument(parameter@),
{
    let mut message = "Missing argument for parameter '".to_owned();
    message.append(parameter);
    message.append("'");
    message
}

/// Whether `name` names the built-in that prints.
fn is_print_name(name: &String) -> (r: bool)
    ensures
        r == semantics::is_print(name@),
{
    *name == "print".to_owned() || *name == "write".to_owned()
}

impl Interpreter {
    /// What the program can see and change.
    pub closed spec fn state(&self) -> State {
        State { env: self.environment@, output: texts(self.output@) }
    }

    /// The budget of every run: how deep calls may nest and how many rounds a
    /// loop may make.
    pub closed spec fn limit(&self) -> nat {
        self.limit as nat
    }

    /// An evaluator with no bindings, no output and the largest budget.
    pub fn new() -> (interpreter: Interpreter)
        ensures
            interpreter.state() == (State { env: Map::empty(), output: Seq::empty() }),
            interpreter.limit() == u64::MAX,
    {
        Interpreter::with_limit(u64::MAX)
    }

    /// An evaluator with no bindings, no output and the budget `limit`.
    pub fn with_limit(limit: u64) -> (interpreter: Interpreter)
        ensures
            interpreter.state() == (State { env: Map::empty(), output: Seq::empty() }),
            interpreter.limit() == limit,
    {
        proof {
            lemma_texts_empty();
        }
        Interpreter { environment: Environment::new(), output: Vec::new(), limit }
    }

    /// Hands out the lines printed since the last call, and forgets them.
    pub fn take_output(&mut self) -> (lines: Vec<String>)
        ensures
            texts(lines@) == old(self).state().output,
            final(self).state() == (State { env: old(self).state().env, output: Seq::empty() }),
            final(self).limit() == old(self).limit(),
    {
        let mut lines: Vec<String> = Vec::new();
        proof {
            lemma_texts_empty();
        }
        core::mem::swap(&mut self.output, &mut lines);
        lines
    }

    /// Prints one line.
    fn print_line(&mut self, line: String)
        ensures
            final(self).state() == semantics::printed(old(self).state(), line@),
            final(self).limit() == old(self).limit(),
    {
        proof {
            lemma_texts_push(self.output@, line);
        }
        self.output.push(line);
    }

    /// Reads the variable `name`.
    fn read_variable(&self, name: &String) -> (r: Result<Value, String>)
        ensures
            settles(r, self.state(), semantics::read_variable(self.state(), name@)),
    {
        match self.environment.get(name.as_str()) {
            Some(value) => Ok(value),
            None => Err(undefined_variable_message(name.as_str())),
        }
    }

    /// Evaluates an expression in the current scope, with the budget `fuel`.
    /// It yields the value of the expression, or the message of the first
    /// error; what a built-in printed is added to the output.
    pub fn evaluate<F: Fn(NumberOp) -> NumberAnswer>(
        &mut self,
        expr: &Expr,
        numbers: &F,
        fuel: u64,
    ) -> (r: Result<Value, String>)
        requires
            dependable(*numbers),
        ensures
            settles(
                r,
                final(self).state(),
                semantics::eval_expr(
                    arithmetic_of(*numbers),
                    fuel as nat,
                    old(self).state(),
                    expr@,
                ),
            ),
            final(self).limit() == old(self).limit(),
        decreases fuel, 0nat, expr, 3nat,
    {
        proof {
            reveal_with_fuel(semantics::eval_expr, 1);
            reveal_with_fuel(semantics::eval_binary, 1);
            reveal_with_fuel(semantics::eval_unary, 1);
            reveal_with_fuel(semantics::eval_call, 1);
            lemma_expr_view(*expr);
        }
        match expr {
            Expr::Binary { .. } => self.evaluate_binary(expr, numbers, fuel),
            Expr::Grouping(inner) => self.evaluate(&**inner, numbers, fuel),
            Expr::Literal(literal) => Ok(literal_to_value(literal, numbers)),
            Expr::Unary { .. } => self.evaluate_unary(expr, numbers, fuel),
            Expr::Variable(name) => self.read_variable(name),
            Expr::FunctionCall { .. } => self.evaluate_call(expr, numbers, fuel),
            _ => Ok(Value::Nil),
        }
    }

    /// Evaluates a binary operation.
    fn evaluate_binary<F: Fn(NumberOp) -> NumberAnswer>(
        &mut self,
        expr: &Expr,
        numbers: &F,
        fuel: u64,
    ) -> (r: Result<Value, String>)
        requires
            dependable(*numbers),
        ensures
            settles(
                r,
                final(self).state(),
                semantics::eval_binary(
                    arithmetic_of(*numbers),
                    fuel as nat,
                    old(self).state(),
                    expr@,
                ),
            ),
            final(self).limit() == old(self).limit(),
        decreases fuel, 0nat, expr, 2nat,
    {
        proof {
            reveal_with_fuel(semantics::eval_binary, 1);
            reveal_with_fuel(semantics::eval_expr, 1);
            lemma_expr_view(*expr);
        }
        match expr {
            Expr::Binary { left, operator, right } => {
                let left_value = match self.evaluate(&**left, numbers, fuel) {
                    Ok(value) => value,
                    Err(message) => {
                        return Err(message);
                    },
                };
                let right_value = match self.evaluate(&**right, numbers, fuel) {
                    Ok(value) => value,
                    Err(message) => {
                        return Err(message);
                    },
                };
                binary_operation(operator.kind(), left_value, right_value, numbers)
            },
            _ => Ok(Value::Nil),
        }
    }

    /// Evaluates a prefix operation.
    fn evaluate_unary<F: Fn(NumberOp) -> NumberAnswer>(
        &mut self,
        expr: &Expr,
        numbers: &F,
        fuel: u64,
    ) -> (r: Result<Value, String>)
        requires
            dependable(*numbers),
        ensures
            settles(
                r,
                final(self).state(),
                semantics::eval_unary(
                    arithmetic_of(*numbers),
                    fuel as nat,
                    old(self).state(),
                    expr@,
                ),
            ),
            final(self).limit() == old(self).limit(),
        decreases fuel, 0nat, expr, 2nat,
    {
        proof {
            reveal_with_fuel(semantics::eval_unary, 1);
            reveal_with_fuel(semantics::eval_expr, 1);
            lemma_expr_view(*expr);
        }
        match expr {
            Expr::Unary { operator, right } => {
                let value = match self.evaluate(&**right, numbers, fuel) {
                    Ok(value) => value,
                    Err(message) => {
                        return Err(message);
                    },
                };
                unary_operation(operator.kind(), value)
            },
            _ => Ok(Value::Nil),
        }
    }

    /// Evaluates a call.
    fn evaluate_call<F: Fn(NumberOp) -> NumberAnswer>(
        &mut self,
        expr: &Expr,
        numbers: &F,
        fuel: u64,
    ) -> (r: Result<Value, String>)
        requires
            dependable(*numbers),
        ensures
            settles(
                r,
                final(self).state(),
                semantics::eval_call(
                    arithmetic_of(*numbers),
                    fuel as nat,
                    old(self).state(),
                    expr@,
                ),
            ),
            final(self).limit() == old(self).limit(),
        decreases fuel, 0nat, expr, 2nat,
    {
        proof {
            reveal_with_fuel(semantics::eval_call, 1);
            reveal_with_fuel(semantics::eval_print, 1);
            reveal_with_fuel(semantics::call_function, 1);
            lemma_expr_view(*expr);
        }
        match expr {
            Expr::FunctionCall { name, .. } => {
                if is_print_name(name) {
                    return self.evaluate_print(expr, numbers, fuel);
                }
                match self.environment.get(name.as_str()) {
                    Some(Value::Function { name: _, params, body }) => self.call_function(
                        expr,
                        numbers,
                        fuel,
                        params,
                        body,
                    ),
                    _ => Err(not_implemented_message(name.as_str())),
                }
            },
            _ => Ok(Value::Nil),
        }
    }

    /// Evaluates a call of the built-in that prints.
    fn evaluate_print<F: Fn(NumberOp) -> NumberAnswer>(
        &mut self,
        expr: &Expr,
        numbers: &F,
        fuel: u64,
    ) -> (r: Result<Value, String>)
        requires
            dependable(*numbers),
        ensures
            settles(
                r,
                final(self).state(),
                semantics::eval_print(
                    arithmetic_of(*numbers),
                    fuel as nat,
                    old(self).state(),
                    expr@,
                ),
            ),
            final(self).limit() == old(self).limit(),
        decreases fuel, 0nat, expr, 1nat,
    {
        proof {
            reveal_with_fuel(semantics::eval_print, 1);
            reveal_with_fuel(semantics::eval_expr, 1);
            lemma_expr_view(*expr);
        }
        match expr {
            Expr::FunctionCall { arguments, .. } => {
                proof {
                    lemma_exprs_view_index(arguments@);
                }
                if arguments.len() == 0 {
                    return Ok(Value::Nil);
                }
                let value = match self.evaluate(&arguments[0], numbers, fuel) {
                    Ok(value) => value,
                    Err(message) => {
                        return Err(message);
                    },
                };
                self.print_line(display_line(&value, numbers));
                Ok(Value::Nil)
            },
            _ => Ok(Value::Nil),
        }
    }

    /// Binds the parameters of a call to the values of its arguments, in a
    /// scope of their own.
    fn bind_arguments<F: Fn(NumberOp) -> NumberAnswer>(
        &mut self,
        params: &Vec<(String, String)>,
        arguments: &Vec<Expr>,
        numbers: &F,
        fuel: u64,
    ) -> (r: Result<Environment, String>)
        requires
            dependable(*numbers),
        ensures
            binds(
                r,
                final(self).state(),
                semantics::bind_arguments(
                    arithmetic_of(*numbers),
                    fuel as nat,
                    old(self).state(),
                    text_pairs(params@),
                    exprs_view(arguments@),
                    0,
                    Map::empty(),
                ),
            ),
            final(self).limit() == old(self).limit(),
        decreases fuel, 0nat, arguments, 0nat,
    {
        proof {
            reveal_with_fuel(semantics::bind_arguments, 1);
        }
        let ghost a = arithmetic_of(*numbers);
        let ghost names = text_pairs(params@);
        let ghost values = exprs_view(arguments@);
        let ghost goal = semantics::bind_arguments(
            a,
            fuel as nat,
            self.state(),
            names,
            values,
            0,
            Map::empty(),
        );
        let mut scope = Environment::new();
        let mut i: usize = 0;
        proof {
            lemma_text_pairs_index(params@);
            lemma_exprs_view_index(arguments@);
        }
        while i < params.len()
            invariant
                dependable(*numbers),
                a == arithmetic_of(*numbers),
                names == text_pairs(params@),
                values == exprs_view(arguments@),
                names.len() == params.len(),
                values.len() == arguments.len(),
                forall|j: int|
                    0 <= j < params.len() ==> (#[trigger] names[j]) == (
                        params@[j].0@,
                        params@[j].1@,
                    ),
                forall|j: int|
                    0 <= j < arguments.len() ==> (#[trigger] values[j]) == arguments@[j]@,
                i <= params.len(),
                self.limit() == old(self).limit(),
                goal == semantics::bind_arguments(
                    a,
                    fuel as nat,
                    old(self).state(),
                    names,
                    values,
                    0,
                    Map::empty(),
                ),
                semantics::bind_arguments(
                    a,
                    fuel as nat,
                    self.state(),
                    names,
                    values,
                    i as nat,
                    scope@,
                ) == goal,
            decreases params.len() - i,
        {
            proof {
                reveal_with_fuel(semantics::bind_arguments, 1);
                reveal_with_fuel(semantics::eval_expr, 1);
            }
            let ghost rest = semantics::bind_arguments(
                a,
                fuel as nat,
                self.state(),
                names,
                values,
                i as nat,
                scope@,
            );
            if i >= arguments.len() {
                return Err(missing_argument_message(params[i].0.as_str()));
            }
            let value = match self.evaluate(&arguments[i], numbers, fuel) {
                Ok(value) => value,
                Err(message) => {
                    return Err(message);
                },
            };
            scope.define(params[i].0.clone(), value);
            i += 1;
            proof {
                let now = semantics::bind_arguments(
                    a,
                    fuel as nat,
                    self.state(),
                    names,
                    values,
                    i as nat,
                    scope@,
                );
                assert(rest == now);
            }
        }
        Ok(scope)
    }

    /// Calls a function with the parameters `params` and the body `body`.
    fn call_function<F: Fn(NumberOp) -> NumberAnswer>(
        &mut self,
        expr: &Expr,
        numbers: &F,
        fuel: u64,
        params: Vec<(String, String)>,
        body: Vec<Stmt>,
    ) -> (r: Result<Value, String>)
        requires
            dependable(*numbers),
        ensures
            settles(
                r,
                final(self).state(),
                semantics::call_function(
                    arithmetic_of(*numbers),
                    fuel as nat,
                    old(self).state(),
                    expr@,
                    text_pairs(params@),
                    stmts_view(body@),
                ),
            ),
            final(self).limit() == old(self).limit(),
        decreases fuel, 0nat, expr, 1nat,
    {
        proof {
            reveal_with_fuel(semantics::call_function, 1);
            reveal_with_fuel(semantics::bind_arguments, 1);
            reveal_with_fuel(semantics::exec_block, 1);
            lemma_expr_view(*expr);
        }
        match expr {
            Expr::FunctionCall { arguments, .. } => {
                let mut scope = match self.bind_arguments(&params, arguments, numbers, fuel) {
                    Ok(scope) => scope,
                    Err(message) => {
                        return Err(message);
                    },
                };
                if fuel == 0 {
                    return Err("Evaluation limit reached.".to_owned());
                }
                core::mem::swap(&mut self.environment, &mut scope);
                let result = self.execute_block(&body, numbers, fuel - 1);
                self.environment = scope;
                result
            },
            _ => Ok(Value::Nil),
        }
    }

    /// Executes a statement in the current scope, with the budget `fuel`. It
    /// yields the value of the statement, or the message of the first error;
    /// what it bound, changed and printed stays.
    pub fn execute<F: Fn(NumberOp) -> NumberAnswer>(
        &mut self,
        stmt: &Stmt,
        numbers: &F,
        fuel: u64,
    ) -> (r: Result<Value, String>)
        requires
            dependable(*numbers),
        ensures
            settles(
                r,
                final(self).state(),
                semantics::exec_stmt(
                    arithmetic_of(*numbers),
                    fuel as nat,
                    old(self).state(),
                    stmt@,
                ),
            ),
            final(self).limit() == old(self).limit(),
        decreases fuel, 1nat, stmt, 3nat,
    {
        proof {
            reveal_with_fuel(semantics::exec_stmt, 1);
            reveal_with_fuel(semantics::eval_expr, 1);
            reveal_with_fuel(semantics::exec_value, 1);
            reveal_with_fuel(semantics::exec_change, 1);
            reveal_with_fuel(semantics::exec_if, 1);
            reveal_with_fuel(semantics::exec_unless, 1);
            reveal_with_fuel(semantics::run_while, 1);
            reveal_with_fuel(semantics::exec_write, 1);
            lemma_stmt_view(*stmt);
        }
        match stmt {
            Stmt::Expression(e) => self.evaluate(e, numbers, fuel),
            Stmt::Function { name, return_type: _, params, body } => {
                let function = Value::Function {
                    name: name.clone(),
                    params: clone_text_pairs(params),
                    body: clone_stmts(body),
                };
                self.environment.define(name.clone(), function);
                Ok(Value::Nil)
            },
            Stmt::Value { .. } => self.execute_value(stmt, numbers, fuel),
            Stmt::Change { .. } => self.execute_change(stmt, numbers, fuel),
            Stmt::Produce(value) => match value {
                Some(e) => self.evaluate(e, numbers, fuel),
                None => Ok(Value::Nil),
            },
            Stmt::If { .. } => self.execute_if(stmt, numbers, fuel),
            Stmt::Unless { .. } => self.execute_unless(stmt, numbers, fuel),
            Stmt::While { .. } => self.run_while(stmt, numbers, fuel),
            Stmt::Write(_) => self.execute_write(stmt, numbers, fuel),
            _ => Ok(Value::Nil),
        }
    }

    /// Executes a binding.
    fn execute_value<F: Fn(NumberOp) -> NumberAnswer>(
        &mut self,
        stmt: &Stmt,
        numbers: &F,
        fuel: u64,
    ) -> (r: Result<Value, String>)
        requires
            dependable(*numbers),
        ensures
            settles(
                r,
                final(self).state(),
                semantics::exec_value(
                    arithmetic_of(*numbers),
                    fuel as nat,
                    old(self).state(),
                    stmt@,
                ),
            ),
            final(self).limit() == old(self).limit(),
        decreases fuel, 1nat, stmt, 2nat,
    {
        proof {
            reveal_with_fuel(semantics::exec_value, 1);
            reveal_with_fuel(semantics::eval_expr, 1);
            lemma_stmt_view(*stmt);
        }
        match stmt {
            Stmt::Value { name, type_label: _, initializer, mutable: _ } => {
                let value = match self.evaluate(initializer, numbers, fuel) {
                    Ok(value) => value,
                    Err(message) => {
                        return Err(message);
                    },
                };
                self.environment.define(name.clone(), value.clone());
                Ok(value)
            },
            _ => Ok(Value::Nil),
        }
    }

    /// Executes a reassignment.
    fn execute_change<F: Fn(NumberOp) -> NumberAnswer>(
        &mut self,
        stmt: &Stmt,
        numbers: &F,
        fuel: u64,
    ) -> (r: Result<Value, String>)
        requires
            dependable(*numbers),
        ensures
            settles(
                r,
                final(self).state(),
                semantics::exec_change(
                    arithmetic_of(*numbers),
                    fuel as nat,
                    old(self).state(),
                    stmt@,
                ),
            ),
            final(self).limit() == old(self).limit(),
        decreases fuel, 1nat, stmt, 2nat,
    {
        proof {
            reveal_with_fuel(semantics::exec_change, 1);
            reveal_with_fuel(semantics::eval_expr, 1);
            lemma_stmt_view(*stmt);
        }
        match stmt {
            Stmt::Change { name, value } => {
                let value = match self.evaluate(value, numbers, fuel) {
                    Ok(value) => value,
                    Err(message) => {
                        return Err(message);
                    },
                };
                match self.environment.assign(name.as_str(), value.clone()) {
                    Ok(_) => Ok(value),
                    Err(message) => Err(message),
                }
            },
            _ => Ok(Value::Nil),
        }
    }

    /// Executes a conditional.
    fn execute_if<F: Fn(NumberOp) -> NumberAnswer>(
        &mut self,
        stmt: &Stmt,
        numbers: &F,
        fuel: u64,
    ) -> (r: Result<Value, String>)
        requires
            dependable(*numbers),
        ensures
            settles(
                r,
                final(self).state(),
                semantics::exec_if(arithmetic_of(*numbers), fuel as nat, old(self).state(), stmt@),
            ),
            final(self).limit() == old(self).limit(),
        decreases fuel, 1nat, stmt, 2nat,
    {
        proof {
            reveal_with_fuel(semantics::exec_if, 1);
            reveal_with_fuel(semantics::eval_expr, 1);
            reveal_with_fuel(semantics::exec_block, 1);
            lemma_stmt_view(*stmt);
        }
        match stmt {
            Stmt::If { condition, then_branch, else_branch } => {
                let value = match self.evaluate(condition, numbers, fuel) {
                    Ok(value) => value,
                    Err(message) => {
                        return Err(message);
                    },
                };
                if value.is_truthy() {
                    self.execute_block(then_branch, numbers, fuel)
                } else {
                    match else_branch {
                        Some(branch) => self.execute_block(branch, numbers, fuel),
                        None => Ok(Value::Nil),
                    }
                }
            },
            _ => Ok(Value::Nil),
        }
    }

    /// Executes a negated conditional.
    fn execute_unless<F: Fn(NumberOp) -> NumberAnswer>(
        &mut self,
        stmt: &Stmt,
        numbers: &F,
        fuel: u64,
    ) -> (r: Result<Value, String>)
        requires
            dependable(*numbers),
        ensures
            settles(
                r,
                final(self).state(),
                semantics::exec_unless(
                    arithmetic_of(*numbers),
                    fuel as nat,
                    old(self).state(),
                    stmt@,
                ),
            ),
            final(self).limit() == old(self).limit(),
        decreases fuel, 1nat, stmt, 2nat,
    {
        proof {
            reveal_with_fuel(semantics::exec_unless, 1);
            reveal_with_fuel(semantics::eval_expr, 1);
            reveal_with_fuel(semantics::exec_block, 1);
            lemma_stmt_view(*stmt);
        }
        match stmt {
            Stmt::Unless { condition, body } => {
                let value = match self.evaluate(condition, numbers, fuel) {
                    Ok(value) => value,
                    Err(message) => {
                        return Err(message);
                    },
                };
                if !value.is_truthy() {
                    self.execute_block(body, numbers, fuel)
                } else {
                    Ok(Value::Nil)
                }
            },
            _ => Ok(Value::Nil),
        }
    }

    /// Executes a print statement.
    fn execute_write<F: Fn(NumberOp) -> NumberAnswer>(
        &mut self,
        stmt: &Stmt,
        numbers: &F,
        fuel: u64,
    ) -> (r: Result<Value, String>)
        requires
            dependable(*numbers),
        ensures
            settles(
                r,
                final(self).state(),
                semantics::exec_write(
                    arithmetic_of(*numbers),
                    fuel as nat,
                    old(self).state(),
                    stmt@,
                ),
            ),
            final(self).limit() == old(self).limit(),
        decreases fuel, 1nat, stmt, 2nat,
    {
        proof {
            reveal_with_fuel(semantics::exec_write, 1);
            reveal_with_fuel(semantics::eval_expr, 1);
            lemma_stmt_view(*stmt);
        }
        match stmt {
            Stmt::Write(e) => {
                let value = match self.evaluate(e, numbers, fuel) {
                    Ok(value) => value,
                    Err(message) => {
                        return Err(message);
                    },
                };
                self.print_line(display_line(&value, numbers));
                Ok(Value::Nil)
            },
            _ => Ok(Value::Nil),
        }
    }

    /// Executes statements in order.
    fn execute_block<F: Fn(NumberOp) -> NumberAnswer>(
        &mut self,
        statements: &Vec<Stmt>,
        numbers: &F,
        fuel: u64,
    ) -> (r: Result<Value, String>)
        requires
            dependable(*numbers),
        ensures
            settles(
                r,
                final(self).state(),
                semantics::exec_block(
                    arithmetic_of(*numbers),
                    fuel as nat,
                    old(self).state(),
                    stmts_view(statements@),
                    0,
                    ValueView::Nil,
                ),
            ),
            final(self).limit() == old(self).limit(),
        decreases fuel, 1nat, statements, 0nat,
    {
        proof {
            reveal_with_fuel(semantics::exec_block, 1);
            reveal_with_fuel(semantics::exec_stmt, 1);
        }
        let ghost goal = semantics::exec_block(
            arithmetic_of(*numbers),
            fuel as nat,
            self.state(),
            stmts_view(statements@),
            0,
            ValueView::Nil,
        );
        let ghost a = arithmetic_of(*numbers);
        let ghost views = stmts_view(statements@);
        let mut last = Value::Nil;
        let mut i: usize = 0;
        proof {
            lemma_stmts_view_index(statements@);
        }
        while i < statements.len()
            invariant
                dependable(*numbers),
                a == arithmetic_of(*numbers),
                views == stmts_view(statements@),
                views.len() == statements.len(),
                forall|j: int|
                    0 <= j < statements.len() ==> (#[trigger] views[j]) == statements@[j]@,
                i <= statements.len(),
                self.limit() == old(self).limit(),
                goal == semantics::exec_block(
                    a,
                    fuel as nat,
                    old(self).state(),
                    views,
                    0,
                    ValueView::Nil,
                ),
                semantics::exec_block(a, fuel as nat, self.state(), views, i as nat, last@) == goal,
            decreases statements.len() - i,
        {
            proof {
                reveal_with_fuel(semantics::exec_block, 1);
                reveal_with_fuel(semantics::exec_stmt, 1);
            }
            let ghost rest = semantics::exec_block(
                a,
                fuel as nat,
                self.state(),
                views,
                i as nat,
                last@,
            );
            last = match self.execute(&statements[i], numbers, fuel) {
                Ok(value) => value,
                Err(message) => {
                    return Err(message);
                },
            };
            i += 1;
            proof {
                let now = semantics::exec_block(
                    a,
                    fuel as nat,
                    self.state(),
                    views,
                    i as nat,
                    last@,
                );
                assert(rest == now);
            }
        }
        Ok(last)
    }

    /// Runs a loop.
    fn run_while<F: Fn(NumberOp) -> NumberAnswer>(
        &mut self,
        stmt: &Stmt,
        numbers: &F,
        fuel: u64,
    ) -> (r: Result<Value, String>)
        requires
            dependable(*numbers),
        ensures
            settles(
                r,
                final(self).state(),
                semantics::run_while(
                    arithmetic_of(*numbers),
                    fuel as nat,
                    old(self).state(),
                    stmt@,
                    ValueView::Nil,
                ),
            ),
            final(self).limit() == old(self).limit(),
        decreases fuel, 1nat, stmt, 2nat,
    {
        proof {
            reveal_with_fuel(semantics::run_while, 1);
            reveal_with_fuel(semantics::eval_expr, 1);
            reveal_with_fuel(semantics::exec_block, 1);
        }
        let ghost goal = semantics::run_while(
            arithmetic_of(*numbers),
            fuel as nat,
            self.state(),
            stmt@,
            ValueView::Nil,
        );
        let ghost a = arithmetic_of(*numbers);
        let mut last = Value::Nil;
        let mut remaining = fuel;
        loop
            invariant
                dependable(*numbers),
                a == arithmetic_of(*numbers),
                remaining <= fuel,
                self.limit() == old(self).limit(),
                goal == semantics::run_while(
                    a,
                    fuel as nat,
                    old(self).state(),
                    stmt@,
                    ValueView::Nil,
                ),
                semantics::run_while(a, remaining as nat, self.state(), stmt@, last@) == goal,
            decreases remaining,
        {
            proof {
                reveal_with_fuel(semantics::run_while, 1);
                reveal_with_fuel(semantics::eval_expr, 1);
                reveal_with_fuel(semantics::exec_block, 1);
            }
            let ghost rest = semantics::run_while(a, remaining as nat, self.state(), stmt@, last@);
            proof {
                lemma_stmt_view(*stmt);
            }
            match stmt {
                Stmt::While { condition, body } => {
                    let value = match self.evaluate(condition, numbers, remaining) {
                        Ok(value) => value,
                        Err(message) => {
                            return Err(message);
                        },
                    };
                    if !value.is_truthy() {
                        return Ok(last);
                    }
                    if remaining == 0 {
                        return Err("Evaluation limit reached.".to_owned());
                    }
                    last = match self.execute_block(body, numbers, remaining) {
                        Ok(value) => value,
                        Err(message) => {
                            return Err(message);
                        },
                    };
                    remaining -= 1;
                    proof {
                        let now = semantics::run_while(
                            a,
                            remaining as nat,
                            self.state(),
                            stmt@,
                            last@,
                        );
                        assert(rest == now);
                    }
                },
                _ => {
                    return Ok(last);
                },
            }
        }
    }

    /// Runs a program: its statements in order, against the bindings that
    /// earlier programs left. It yields the value of the last statement, or
    /// the message of the first error, which ends the run.
    pub fn interpret<F: Fn(NumberOp) -> NumberAnswer>(
        &mut self,
        statements: Vec<Stmt>,
        numbers: &F,
    ) -> (r: Result<Value, String>)
        requires
            dependable(*numbers),
        ensures
            settles(
                r,
                final(self).state(),
                semantics::interpret(
                    arithmetic_of(*numbers),
                    old(self).limit(),
                    old(self).state(),
                    stmts_view(statements@),
                ),
            ),
            final(self).limit() == old(self).limit(),
    {
        let fuel = self.limit;
        self.execute_block(&statements, numbers, fuel)
    }
}

} // verus!
