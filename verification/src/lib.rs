//! A small expression-and-statement language: a scanner, a recursive-descent
//! parser and a tree-walking evaluator, each verified against a mathematical
//! description of what it computes.
//!
//! - [`lexicon`] states the lexical rules, [`lexer`] scans by them.
//! - [`grammar`] and [`grammar_items`] state the grammar, [`parser`] parses by
//!   it into the trees of [`ast`].
//! - [`semantics`] states what programs mean, [`evaluator`] runs them on the
//!   values of [`value`] in the scopes of [`environment`].
//! - [`number`] holds numbers as bit patterns; the arithmetic on them is
//!   supplied by the caller.
//! - [`laws`] proves what holds of every program.
pub mod ast;
pub mod environment;
pub mod evaluator;
pub mod grammar;
pub mod grammar_items;
pub mod laws;
pub mod lexer;
pub mod lexicon;
pub mod number;
pub mod operations;
pub mod parser;
pub mod rendering;
pub mod semantics;
pub mod token;
pub mod value;

use crate::evaluator::Interpreter;
use crate::number::{arithmetic_of, dependable, Arithmetic, NumberAnswer, NumberOp};
use crate::parser::Parser;
use crate::rendering::{render, render_value};
use crate::semantics::State;
use vstd::prelude::*;

verus! {

/// The language behind one door: source text in, a printed value or an error
/// message out. Bindings and functions live on from one evaluation to the
/// next.
pub struct Wittgenlang {
    interpreter: Interpreter,
}

/// How one evaluation of a source text ends: in a state, with the printed
/// form of the program's value or with the message of the first error.
pub struct Evaluation {
    pub state: State,
    pub result: Result<Seq<char>, Seq<char>>,
}

/// What evaluating the source text `source` in `state` comes to: the text is
/// scanned and parsed as one program, which then runs. A text that does not
/// parse changes nothing.
pub open spec fn evaluation(
    a: Arithmetic,
    limit: nat,
    state: State,
    source: Seq<char>,
) -> Evaluation {
    match grammar::program(lexicon::tokens(source), 0, Seq::empty()) {
        Err(message) => Evaluation { state, result: Err(message) },
        Ok(statements) => {
            let outcome = semantics::interpret(a, limit, state, statements);
            Evaluation {
                state: outcome.state,
                result: match outcome.result {
                    Ok(value) => Ok(render(a, value)),
                    Err(message) => Err(message),
                },
            }
        },
    }
}

/// `r` and the state `after` are the evaluation `expected`.
pub open spec fn evaluates(r: Result<String, String>, after: State, expected: Evaluation) -> bool {
    after == expected.state && match (r, expected.result) {
        (Ok(text), Ok(view)) => text@ == view,
        (Err(message), Err(view)) => message@ == view,
        _ => false,
    }
}

impl Wittgenlang {
    /// What programs can see and change.
    pub closed spec fn state(&self) -> State {
        self.interpreter.state()
    }

    /// The budget of every evaluation.
    pub closed spec fn limit(&self) -> nat {
        self.interpreter.limit()
    }

    /// A fresh instance: no bindings, no output, the largest budget.
    pub fn new() -> (language: Wittgenlang)
        ensures
            language.state() == (State { env: Map::empty(), output: Seq::empty() }),
            language.limit() == u64::MAX,
    {
        Wittgenlang { interpreter: Interpreter::new() }
    }

    /// A fresh instance with the budget `limit`.
    pub fn with_limit(limit: u64) -> (language: Wittgenlang)
        ensures
            language.state() == (State { env: Map::empty(), output: Seq::empty() }),
            language.limit() == limit,
    {
        Wittgenlang { interpreter: Interpreter::with_limit(limit) }
    }

    /// Evaluates `input` as one program and yields the printed form of its
    /// value, or the message of the first error.
    pub fn evaluate<F: Fn(NumberOp) -> NumberAnswer>(&mut self, input: &str, numbers: &F) -> (r:
        Result<String, String>)
        requires
            dependable(*numbers),
        ensures
            evaluates(
                r,
                final(self).state(),
                evaluation(arithmetic_of(*numbers), old(self).limit(), old(self).state(), input@),
            ),
            final(self).limit() == old(self).limit(),
    {
        let mut parser = Parser::new(input);
        let statements = match parser.parse() {
            Ok(statements) => statements,
            Err(message) => {
                return Err(message);
            },
        };
        match self.interpreter.interpret(statements, numbers) {
            Ok(value) => Ok(render_value(&value, numbers)),
            Err(message) => Err(message),
        }
    }

    /// Hands out the lines printed since the last call, and forgets them.
    pub fn take_output(&mut self) -> (lines: Vec<String>)
        ensures
            crate::ast::texts(lines@) == old(self).state().output,
            final(self).state() == (State { env: old(self).state().env, output: Seq::empty() }),
            final(self).limit() == old(self).limit(),
    {
        self.interpreter.take_output()
    }

    /// A fresh instance, for a host that embeds the language.
    pub fn new_wasm() -> (language: Wittgenlang)
        ensures
            language.state() == (State { env: Map::empty(), output: Seq::empty() }),
            language.limit() == u64::MAX,
    {
        Wittgenlang::new()
    }

    /// Evaluates `input`, for a host that embeds the language.
    pub fn evaluate_wasm<F: Fn(NumberOp) -> NumberAnswer>(
        &mut self,
        input: &str,
        numbers: &F,
    ) -> (r: Result<String, String>)
        requires
            dependable(*numbers),
        ensures
            evaluates(
                r,
                final(self).state(),
                evaluation(arithmetic_of(*numbers), old(self).limit(), old(self).state(), input@),
            ),
            final(self).limit() == old(self).limit(),
    {
        self.evaluate(input, numbers)
    }
}

} // verus!
