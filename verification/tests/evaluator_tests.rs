use wittgenlang::ast::{Expr, Literal, Stmt};
use wittgenlang::evaluator::Interpreter;
use wittgenlang::number::{NumberAnswer, NumberOp};
use wittgenlang::parser::Parser;
use wittgenlang::rendering::render_value;
use wittgenlang::token::Token;
use wittgenlang::value::Value;
use wittgenlang::Wittgenlang;

/// The arithmetic of the machine's double-precision numbers.
fn doubles(op: NumberOp) -> NumberAnswer {
    let apply = |l: u64, r: u64, f: fn(f64, f64) -> f64| {
        NumberAnswer::Bits(f(f64::from_bits(l), f64::from_bits(r)).to_bits())
    };
    match op {
        NumberOp::Read(text) => NumberAnswer::Bits(text.parse::<f64>().unwrap().to_bits()),
        NumberOp::FromInteger(i) => NumberAnswer::Bits((i as f64).to_bits()),
        NumberOp::Add(l, r) => apply(l, r, |a, b| a + b),
        NumberOp::Subtract(l, r) => apply(l, r, |a, b| a - b),
        NumberOp::Multiply(l, r) => apply(l, r, |a, b| a * b),
        NumberOp::Divide(l, r) => apply(l, r, |a, b| a / b),
        NumberOp::Show(bits) => NumberAnswer::Text(format!("{:?}", f64::from_bits(bits))),
    }
}

fn run(source: &str) -> Result<String, String> {
    Wittgenlang::new().evaluate(source, &doubles)
}

/// A result with its value printed.
fn shown(result: Result<Value, String>) -> Result<String, String> {
    result.map(|value| render_value(&value, &doubles))
}

fn ok(text: &str) -> Result<String, String> {
    Ok(text.to_string())
}

fn error(text: &str) -> Result<String, String> {
    Err(text.to_string())
}

#[test]
fn arithmetic_follows_precedence() {
    assert_eq!(run("2 + 3 * 4"), ok("Number(14.0)"));
    assert_eq!(run("(2 + 3) * 4"), ok("Number(20.0)"));
    assert_eq!(run("10 - 4 - 3"), ok("Number(3.0)"));
    assert_eq!(run("1 / 4"), ok("Number(0.25)"));
    assert_eq!(run("1 / 3"), ok("Number(0.3333333333333333)"));
    assert_eq!(run("0.1 + 0.2"), ok("Number(0.30000000000000004)"));
    assert_eq!(run("7 - -2"), ok("Number(9.0)"));
    assert_eq!(run("- (2 + 3)"), ok("Number(-5.0)"));
}

#[test]
fn division_by_zero_is_an_error() {
    assert_eq!(run("1 / 0"), error("Division by zero."));
    assert_eq!(run("1 / (2 - 2)"), error("Division by zero."));
    assert_eq!(run("1 / -0"), error("Division by zero."));
    assert_eq!(run("0 / 1"), ok("Number(0.0)"));
}

#[test]
fn strings_concatenate_in_order() {
    assert_eq!(run("\"ab\" + \"cd\""), ok("String(\"abcd\")"));
    assert_eq!(run("\"ab\" & \"cd\""), ok("String(\"abcd\")"));
    assert_eq!(run("\"\" + \"\""), ok("String(\"\")"));
}

#[test]
fn a_string_and_a_number_do_not_mix() {
    assert_eq!(run("\"ab\" + 1"), error("Operands must be two numbers or two strings."));
    assert_eq!(run("1 + \"ab\""), error("Operands must be two numbers or two strings."));
    assert_eq!(run("\"ab\" & 1"), error("Operands must be two strings."));
    assert_eq!(run("1 & 2"), error("Operands must be two strings."));
    assert_eq!(run("\"a\" - \"b\""), error("Operands must be numbers."));
    assert_eq!(run("\"a\" * 2"), error("Operands must be numbers."));
    assert_eq!(run("\"a\" / 2"), error("Operands must be numbers."));
    assert_eq!(run("\"a\" < 2"), error("Operands must be numbers."));
    assert_eq!(run("- \"a\""), error("Operand must be a number."));
}

#[test]
fn a_binding_is_read_back_after_reassignment() {
    assert_eq!(run("x #Number is 1 change x to 2 x"), ok("Number(2.0)"));
    assert_eq!(run("x #Number is 1 change x to x + 1 change x to x * 10 x"), ok("Number(20.0)"));
    assert_eq!(run("x #Number is 1"), ok("Number(1.0)"));
    assert_eq!(run("x #Number is 1 change x to \"s\""), ok("String(\"s\")"));
    assert_eq!(run("x #Number is 1 x #Text is \"t\" x"), ok("String(\"t\")"));
}

#[test]
fn reassigning_an_unbound_name_is_an_error() {
    assert_eq!(run("change y to 1"), error("Undefined variable 'y'."));
    assert_eq!(run("x #Number is 1 change y to 1"), error("Undefined variable 'y'."));
}

#[test]
fn reading_an_unbound_name_is_an_error() {
    assert_eq!(run("z"), error("Undefined variable 'z'."));
    assert_eq!(run("1 + z"), error("Undefined variable 'z'."));
}

#[test]
fn only_nil_and_false_are_falsy() {
    assert_eq!(run("if 0 { 1 } else { 2 }"), ok("Number(1.0)"));
    assert_eq!(run("if \"\" { 1 } else { 2 }"), ok("Number(1.0)"));
    assert_eq!(run("if yes { 1 } else { 2 }"), ok("Number(1.0)"));
    assert_eq!(run("if no { 1 } else { 2 }"), ok("Number(2.0)"));
    assert_eq!(run("if nothing { 1 } else { 2 }"), ok("Number(2.0)"));
    assert_eq!(run("unless nothing { 1 }"), ok("Number(1.0)"));
    assert_eq!(run("unless 0 { 1 }"), ok("Nil"));
    assert_eq!(run("if no { 1 }"), ok("Nil"));
    assert_eq!(run("if yes { }"), ok("Nil"));
}

#[test]
fn a_function_returns_the_value_of_its_last_statement() {
    let source = "f #Any is 0 f by #Any { &x #Any x } f(5)";
    assert_eq!(run(source), ok("Number(5.0)"));
    assert_eq!(run("f #Any is 0 f by #Any { &x #Any x } f(\"s\")"), ok("String(\"s\")"));
    assert_eq!(
        run("f #Any is 0 f by #Any { &a #Any &b #Any 1 a - b } f(7, 2, 9)"),
        ok("Number(5.0)")
    );
    assert_eq!(run("f #Any is 0 f by #Any { } f()"), ok("Nil"));
}

#[test]
fn a_call_with_too_few_arguments_is_an_error() {
    assert_eq!(
        run("f #Any is 0 f by #Any { &x #Any x } f()"),
        error("Missing argument for parameter 'x'")
    );
    assert_eq!(
        run("f #Any is 0 f by #Any { &a #Any &b #Any a } f(1)"),
        error("Missing argument for parameter 'b'")
    );
}

#[test]
fn a_call_of_what_is_no_function_is_an_error() {
    assert_eq!(run("g(1)"), error("Function 'g' not implemented"));
    assert_eq!(run("x #Number is 1 x(1)"), error("Function 'x' not implemented"));
}

#[test]
fn a_function_sees_only_its_parameters() {
    assert_eq!(
        run("y #Number is 1 f #Any is 0 f by #Any { &x #Any y } f(5)"),
        error("Undefined variable 'y'.")
    );
    assert_eq!(
        run("f #Any is 0 f by #Any { &x #Any f(x) } f(5)"),
        error("Function 'f' not implemented")
    );
}

#[test]
fn the_scope_of_the_caller_is_back_after_a_call() {
    assert_eq!(
        run("x #Number is 1 f #Any is 0 f by #Any { &x #Any change x to 9 } f(5) x"),
        ok("Number(1.0)")
    );
    let mut language = Wittgenlang::new();
    assert_eq!(
        language.evaluate("x #Number is 1 f #Any is 0 f by #Any { &a #Any b } f(5)", &doubles),
        error("Undefined variable 'b'.")
    );
    assert_eq!(language.evaluate("x", &doubles), ok("Number(1.0)"));
    assert_eq!(language.evaluate("a", &doubles), error("Undefined variable 'a'."));
}

#[test]
fn a_loop_checks_its_condition_before_every_round() {
    assert_eq!(run("i #Number is 0 while i < 3 { change i to i + 1 } i"), ok("Number(3.0)"));
    assert_eq!(run("i #Number is 0 while i < 3 { change i to i + 1 }"), ok("Number(3.0)"));
    assert_eq!(
        run("i #Number is 0 s #Number is 0 while i < 4 { change i to i + 1 change s to s + i } s"),
        ok("Number(10.0)")
    );
}

#[test]
fn a_loop_whose_condition_starts_falsy_never_runs() {
    let mut language = Wittgenlang::new();
    assert_eq!(language.evaluate("while no { write(1) }", &doubles), ok("Nil"));
    assert_eq!(language.take_output(), Vec::<String>::new());
    assert_eq!(run("x #Number is 1 while nothing { change x to 2 } x"), ok("Number(1.0)"));
}

#[test]
fn the_same_source_gives_the_same_result() {
    let source = "x #Number is 2 y #Number is x * x + 1 / 3 write(y) y";
    let mut first = Wittgenlang::new();
    let mut second = Wittgenlang::new();
    let one = first.evaluate(source, &doubles);
    let two = second.evaluate(source, &doubles);
    assert_eq!(one, two);
    assert_eq!(one, ok("Number(4.333333333333333)"));
    assert_eq!(first.take_output(), second.take_output());
    assert_eq!(run("x"), error("Undefined variable 'x'."));
}

#[test]
fn bindings_live_on_between_evaluations() {
    let mut language = Wittgenlang::new();
    assert_eq!(language.evaluate("x #Number is 2", &doubles), ok("Number(2.0)"));
    assert_eq!(language.evaluate("x + 1", &doubles), ok("Number(3.0)"));
    assert_eq!(language.evaluate("f #Any is 0 f by #Any { &a #Any a * 2 }", &doubles), ok("Nil"));
    assert_eq!(language.evaluate("f(x)", &doubles), ok("Number(4.0)"));
}

#[test]
fn a_text_that_does_not_parse_changes_nothing() {
    let mut language = Wittgenlang::new();
    assert_eq!(language.evaluate("x #Number is 2 (", &doubles), error("Expected expression"));
    assert_eq!(language.evaluate("x", &doubles), error("Undefined variable 'x'."));
}

#[test]
fn printing_writes_one_line() {
    let mut language = Wittgenlang::new();
    assert_eq!(language.evaluate("write(\"hi\") write(3) write(yes) write(nothing)", &doubles), ok("Nil"));
    assert_eq!(
        language.take_output(),
        vec!["hi".to_string(), "Number(3.0)".to_string(), "Boolean(true)".to_string(), "Nil".to_string()]
    );
    assert_eq!(language.take_output(), Vec::<String>::new());
    assert_eq!(language.evaluate("print(\"a\", \"b\") print()", &doubles), ok("Nil"));
    assert_eq!(language.take_output(), vec!["a".to_string()]);
}

#[test]
fn what_was_printed_before_an_error_stands() {
    let mut language = Wittgenlang::new();
    assert_eq!(language.evaluate("write(1) write(z) write(2)", &doubles), error("Undefined variable 'z'."));
    assert_eq!(language.take_output(), vec!["Number(1.0)".to_string()]);
}

#[test]
fn comparisons_and_equality_give_booleans() {
    assert_eq!(run("1 < 2"), ok("Boolean(true)"));
    assert_eq!(run("2 < 1"), ok("Boolean(false)"));
    assert_eq!(run("2 > 1"), ok("Boolean(true)"));
    assert_eq!(run("2 >= 2"), ok("Boolean(true)"));
    assert_eq!(run("2 <= 1"), ok("Boolean(false)"));
    assert_eq!(run("-1 < 0"), ok("Boolean(true)"));
    assert_eq!(run("-1 < -2"), ok("Boolean(false)"));
    assert_eq!(run("1 == 1"), ok("Boolean(true)"));
    assert_eq!(run("1 is 1"), ok("Boolean(true)"));
    assert_eq!(run("1 == 2"), ok("Boolean(false)"));
    assert_eq!(run("0 == -0"), ok("Boolean(true)"));
    assert_eq!(run("\"a\" == \"a\""), ok("Boolean(true)"));
    assert_eq!(run("\"a\" == \"b\""), ok("Boolean(false)"));
    assert_eq!(run("yes == yes"), ok("Boolean(true)"));
    assert_eq!(run("nothing == nothing"), ok("Boolean(true)"));
    assert_eq!(run("1 !=\n2"), ok("Boolean(true)"));
    assert_eq!(run("1 !=\n1"), ok("Boolean(false)"));
}

#[test]
fn values_of_different_kinds_are_never_equal() {
    assert_eq!(run("1 == \"1\""), ok("Boolean(false)"));
    assert_eq!(run("0 == no"), ok("Boolean(false)"));
    assert_eq!(run("nothing == no"), ok("Boolean(false)"));
    assert_eq!(run("\"\" == nothing"), ok("Boolean(false)"));
}

#[test]
fn operators_without_a_meaning_are_reported() {
    assert_eq!(run("1 % 2"), error("Invalid binary operator."));
    assert_eq!(run("1 // 2"), error("Invalid binary operator."));
    assert_eq!(run("1 ^ 2"), error("Invalid binary operator."));
    assert_eq!(run("1 | 2"), error("Invalid binary operator."));
    assert_eq!(run("z % 2"), error("Undefined variable 'z'."));
}

#[test]
fn what_is_not_implemented_yields_nil() {
    assert_eq!(run("[1, 2]"), ok("Nil"));
    assert_eq!(run("x #Number is 1 x[0]"), ok("Nil"));
    assert_eq!(run("for x in 1 { z }"), ok("Nil"));
    assert_eq!(run("of 1 { 1 -> z }"), ok("Nil"));
    assert_eq!(run("import Math"), ok("Nil"));
    assert_eq!(run("see #Age is #Years"), ok("Nil"));
    assert_eq!(run("module m { z }"), ok("Nil"));
    assert_eq!(run("if yes { break }"), ok("Nil"));
    assert_eq!(run(""), ok("Nil"));
}

#[test]
fn produce_ends_nothing_but_yields_its_value() {
    assert_eq!(run("produce 1 2"), ok("Number(2.0)"));
    assert_eq!(run("if yes { produce 1 }"), ok("Number(1.0)"));
    assert_eq!(run("if yes { 1 produce }"), ok("Nil"));
}

#[test]
fn a_function_value_prints_in_full() {
    assert_eq!(
        run("f #Any is 0 f by #Any { &x #Any &y #Size x + 1.50 } f"),
        ok("Function { name: \"f\", params: [(\"x\", \"AnyType\"), (\"y\", \"Size\")], body: [Expression(Binary { left: Variable(\"x\"), operator: Plus, right: Literal(Number(1.5)) })] }")
    );
    assert_eq!(
        run("f #Any is 0 f by #Any { } f"),
        ok("Function { name: \"f\", params: [], body: [] }")
    );
}

#[test]
fn strings_print_with_escapes() {
    assert_eq!(run("\"a\tb\""), ok("String(\"a\\tb\")"));
    assert_eq!(run("\"\"\"say \"hi\"\n\"\"\""), ok("String(\"say \\\"hi\\\"\\n\")"));
}

#[test]
fn an_endless_loop_reaches_the_limit() {
    let mut language = Wittgenlang::with_limit(100);
    assert_eq!(language.evaluate("while yes { 1 }", &doubles), error("Evaluation limit reached."));
    let mut language = Wittgenlang::with_limit(3);
    assert_eq!(
        language.evaluate("i #Number is 0 while i < 3 { change i to i + 1 } i", &doubles),
        ok("Number(3.0)")
    );
    assert_eq!(
        language.evaluate("change i to 0 while i < 4 { change i to i + 1 } i", &doubles),
        error("Evaluation limit reached.")
    );
    assert_eq!(language.evaluate("i", &doubles), ok("Number(3.0)"));
    assert_eq!(
        Wittgenlang::with_limit(0).evaluate("while no { 1 }", &doubles),
        ok("Nil")
    );
}

#[test]
fn calls_nest_up_to_the_limit() {
    let source = "f #Any is 0 f by #Any { &x #Any x } f(f(f(1)))";
    assert_eq!(Wittgenlang::with_limit(1).evaluate(source, &doubles), ok("Number(1.0)"));
    assert_eq!(
        Wittgenlang::with_limit(0).evaluate(source, &doubles),
        error("Evaluation limit reached.")
    );
    assert_eq!(Wittgenlang::with_limit(0).evaluate("1 + 2", &doubles), ok("Number(3.0)"));
}

#[test]
fn the_embedding_entry_points_do_the_same() {
    let mut language = Wittgenlang::new_wasm();
    assert_eq!(language.evaluate_wasm("2 * 21", &doubles), ok("Number(42.0)"));
}

#[test]
fn an_expression_is_evaluated_on_its_own() {
    let mut interpreter = Interpreter::new();
    let sum = Expr::Binary {
        left: Box::new(Expr::Literal(Literal::Number("2".to_string()))),
        operator: Token::Plus,
        right: Box::new(Expr::Literal(Literal::Number("3".to_string()))),
    };
    assert_eq!(shown(interpreter.evaluate(&sum, &doubles, 10)), ok("Number(5.0)"));
    let read = Expr::Variable("x".to_string());
    assert_eq!(
        shown(interpreter.evaluate(&read, &doubles, 10)),
        error("Undefined variable 'x'.")
    );
    assert_eq!(shown(interpreter.evaluate(&read, &doubles, 0)), error("Undefined variable 'x'."));
}

#[test]
fn a_statement_is_executed_on_its_own() {
    let mut interpreter = Interpreter::new();
    let change = Stmt::Change {
        name: "x".to_string(),
        value: Expr::Literal(Literal::String("a".to_string())),
    };
    assert_eq!(
        shown(interpreter.execute(&change, &doubles, 10)),
        error("Undefined variable 'x'.")
    );
    let read = Expr::Variable("x".to_string());
    assert_eq!(
        shown(interpreter.evaluate(&read, &doubles, 10)),
        error("Undefined variable 'x'.")
    );
    let bind = Stmt::Value {
        name: "x".to_string(),
        type_label: "Any".to_string(),
        initializer: Expr::Literal(Literal::String("b".to_string())),
        mutable: true,
    };
    assert_eq!(shown(interpreter.execute(&bind, &doubles, 10)), ok("String(\"b\")"));
    assert_eq!(shown(interpreter.execute(&change, &doubles, 10)), ok("String(\"a\")"));
    assert_eq!(shown(interpreter.evaluate(&read, &doubles, 10)), ok("String(\"a\")"));
}

#[test]
fn a_loop_runs_its_body_as_often_as_its_condition_holds() {
    for rounds in 0..5u32 {
        let mut interpreter = Interpreter::new();
        let setup = format!("i #Number is 0 n #Number is {}", rounds);
        interpreter.interpret(Parser::new(&setup).parse().unwrap(), &doubles).unwrap();
        let mut program =
            Parser::new("while i < n { write(\"round\") change i to i + 1 }").parse().unwrap();
        let statement = program.remove(0);
        let result = interpreter.execute(&statement, &doubles, 100);
        let expected = if rounds == 0 { ok("Nil") } else { ok(&format!("Number({}.0)", rounds)) };
        assert_eq!(shown(result), expected);
        assert_eq!(interpreter.take_output().len(), rounds as usize);
    }
}

#[test]
fn a_map_literal_is_read_and_yields_nil() {
    assert_eq!(run("{a: 1}"), ok("Nil"));
    assert_eq!(run("{a: 1"), error("Expected '}' after map entries"));
}
