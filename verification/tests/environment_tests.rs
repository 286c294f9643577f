use wittgenlang::ast::{Expr, Literal, Stmt};
use wittgenlang::environment::Environment;
use wittgenlang::evaluator::Interpreter;
use wittgenlang::number::{NumberAnswer, NumberOp};
use wittgenlang::parser::Parser;
use wittgenlang::rendering::{decimal_text, display_line, render_value};
use wittgenlang::value::Value;

fn doubles(op: NumberOp) -> NumberAnswer {
    match op {
        NumberOp::Read(text) => NumberAnswer::Bits(text.parse::<f64>().unwrap().to_bits()),
        NumberOp::FromInteger(i) => NumberAnswer::Bits((i as f64).to_bits()),
        NumberOp::Add(l, r) => NumberAnswer::Bits((f64::from_bits(l) + f64::from_bits(r)).to_bits()),
        NumberOp::Subtract(l, r) => {
            NumberAnswer::Bits((f64::from_bits(l) - f64::from_bits(r)).to_bits())
        }
        NumberOp::Multiply(l, r) => {
            NumberAnswer::Bits((f64::from_bits(l) * f64::from_bits(r)).to_bits())
        }
        NumberOp::Divide(l, r) => NumberAnswer::Bits((f64::from_bits(l) / f64::from_bits(r)).to_bits()),
        NumberOp::Show(bits) => NumberAnswer::Text(format!("{:?}", f64::from_bits(bits))),
    }
}

fn shown(value: Option<Value>) -> String {
    format!("{:?}", value)
}

#[test]
fn a_fresh_scope_binds_nothing() {
    let scope = Environment::new();
    assert_eq!(shown(scope.get("x")), "None");
    assert_eq!(shown(scope.get("")), "None");
}

#[test]
fn defining_binds_and_rebinds() {
    let mut scope = Environment::new();
    scope.define("x".to_string(), Value::Boolean(true));
    scope.define("y".to_string(), Value::Nil);
    assert_eq!(shown(scope.get("x")), "Some(Boolean(true))");
    assert_eq!(shown(scope.get("y")), "Some(Nil)");
    scope.define("x".to_string(), Value::String("s".to_string()));
    assert_eq!(shown(scope.get("x")), "Some(String(\"s\"))");
    assert_eq!(shown(scope.get("y")), "Some(Nil)");
    assert_eq!(shown(scope.get("z")), "None");
}

#[test]
fn assigning_never_binds_a_new_name() {
    let mut scope = Environment::new();
    assert_eq!(
        scope.assign("x", Value::Nil),
        Err("Undefined variable 'x'.".to_string())
    );
    assert_eq!(shown(scope.get("x")), "None");
    scope.define("x".to_string(), Value::Nil);
    assert_eq!(scope.assign("x", Value::Boolean(false)), Ok(()));
    assert_eq!(shown(scope.get("x")), "Some(Boolean(false))");
    assert_eq!(
        scope.assign("y", Value::Nil),
        Err("Undefined variable 'y'.".to_string())
    );
}

#[test]
fn the_interpreter_threads_the_last_value() {
    let mut interpreter = Interpreter::new();
    let statements = Parser::new("1 2 x #Number is 3").parse().unwrap();
    let value = interpreter.interpret(statements, &doubles).unwrap();
    assert!(matches!(value, Value::Number(bits) if bits == 3.0f64.to_bits()));
    let value = interpreter.interpret(Vec::new(), &doubles).unwrap();
    assert!(matches!(value, Value::Nil));
    let statements = Parser::new("x / 0 change x to 9").parse().unwrap();
    assert_eq!(
        interpreter.interpret(statements, &doubles).err(),
        Some("Division by zero.".to_string())
    );
    let statements = Parser::new("x").parse().unwrap();
    let value = interpreter.interpret(statements, &doubles).unwrap();
    assert!(matches!(value, Value::Number(bits) if bits == 3.0f64.to_bits()));
}

#[test]
fn an_integer_literal_becomes_the_nearest_number() {
    let mut interpreter = Interpreter::with_limit(5);
    let program = vec![Stmt::Expression(Expr::Literal(Literal::Integer(-12)))];
    let value = interpreter.interpret(program, &doubles).unwrap();
    assert!(matches!(value, Value::Number(bits) if bits == (-12.0f64).to_bits()));
}

#[test]
fn a_copy_of_a_value_is_the_same_value() {
    let value = Value::Function {
        name: "f".to_string(),
        params: vec![("a".to_string(), "Any".to_string())],
        body: Parser::new("if a { b(1, c: [2]) } else { of x { 1 -> y otherwise -> z } }")
            .parse()
            .unwrap(),
    };
    assert_eq!(format!("{:?}", value.clone()), format!("{:?}", value));
    assert!(Value::Number(0).is_truthy());
    assert!(!Value::Nil.is_truthy());
    assert!(!Value::Boolean(false).is_truthy());
    assert!(Value::String(String::new()).is_truthy());
}

fn function_of(source: &str) -> Value {
    Value::Function {
        name: "f".to_string(),
        params: vec![("a".to_string(), "Any".to_string())],
        body: Parser::new(source).parse().unwrap(),
    }
}

/// The standard formatting of `value`, with the names of the data model where
/// the library's own differ.
fn standard(value: &Value) -> String {
    format!("{:?}", value)
        .replace("type_label: ", "type_name: ")
        .replace("Import { path: ", "Import { module_path: ")
        .replace("Mapping(", "Map(")
}

#[test]
fn a_tree_without_numbers_prints_as_the_standard_formatting_does() {
    let sources = [
        "",
        "x",
        "a is b a == c \"s\" yes no nothing",
        "- a * (b + c) / d // e % f ^ g & h | i < j <= k > l >= m",
        "[a, [b], []] f(a, b: c, \"d\") g() h(x)'y[z].w",
        "x #Text is \"a\" forNow y #Size is x change y to x",
        "if a { b } else if c { d } else { e } unless a { } while a { break continue }",
        "for x in xs { produce x } if a { produce }",
        "of x { a, b -> c d -> { e f } otherwise -> g } of y { }",
        "module m { write(a) import A import { b, c } from D.E as F }",
        "see #A is #B see #P is record { n #Text, a #Age } see #R is record { }",
        "see #F is variant { C(r #Number), B(w #Number, h #Size), D, E() }",
        "f by #Any { &a #Any &b #Size a(b) }",
        "{a: b, c: [d]} {k: {v: w}}",
    ];
    for source in sources {
        let value = function_of(source);
        assert_eq!(render_value(&value, &doubles), standard(&value), "{}", source);
    }
}

#[test]
fn a_tree_with_what_the_parser_never_builds_prints_too() {
    let value = Value::Function {
        name: "g".to_string(),
        params: Vec::new(),
        body: vec![
            Stmt::Expression(Expr::Literal(Literal::Integer(-120))),
            Stmt::Expression(Expr::Literal(Literal::Integer(i64::MIN))),
            Stmt::Expression(Expr::Literal(Literal::Integer(0))),
            Stmt::Expression(Expr::Record {
                type_label: "P".to_string(),
                fields: vec![("n".to_string(), Expr::Variable("x".to_string()))],
            }),
            Stmt::Expression(Expr::TypeAnnotation {
                expr: Box::new(Expr::Variable("x".to_string())),
                type_label: "T".to_string(),
            }),
            Stmt::Expression(Expr::Lambda {
                params: vec![("a".to_string(), "A".to_string())],
                body: Box::new(Expr::Mapping(vec![(
                    Expr::Variable("k".to_string()),
                    Expr::Variable("v".to_string()),
                )])),
            }),
            Stmt::Expression(Expr::Unary {
                operator: wittgenlang::token::Token::Identifier("odd".to_string()),
                right: Box::new(Expr::Variable("x".to_string())),
            }),
        ],
    };
    assert_eq!(render_value(&value, &doubles), standard(&value));
}

#[test]
fn a_tree_prints_with_the_names_of_the_data_model() {
    let value = function_of("x #Text is \"a\" import A {k: v}");
    assert_eq!(
        render_value(&value, &doubles),
        "Function { name: \"f\", params: [(\"a\", \"Any\")], body: [\
         Value { name: \"x\", type_name: \"TextType\", initializer: Literal(String(\"a\")), mutable: false }, \
         Import { module_path: [\"A\"], specific_imports: [], alias: None }, \
         Expression(Map([(Variable(\"k\"), Variable(\"v\"))]))] }"
    );
    let value = Value::Function {
        name: "g".to_string(),
        params: Vec::new(),
        body: vec![
            Stmt::Expression(Expr::Record { type_label: "P".to_string(), fields: Vec::new() }),
            Stmt::Expression(Expr::TypeAnnotation {
                expr: Box::new(Expr::Variable("x".to_string())),
                type_label: "T".to_string(),
            }),
        ],
    };
    assert_eq!(
        render_value(&value, &doubles),
        "Function { name: \"g\", params: [], body: [\
         Expression(Record { type_name: \"P\", fields: [] }), \
         Expression(TypeAnnotation { expr: Variable(\"x\"), type_name: \"T\" })] }"
    );
}

#[test]
fn numbers_in_a_tree_print_as_numbers() {
    let value = function_of("1 + 2.50 * -3");
    assert_eq!(
        render_value(&value, &doubles),
        "Function { name: \"f\", params: [(\"a\", \"Any\")], body: [Expression(Binary { left: Literal(Number(1.0)), operator: Plus, right: Binary { left: Literal(Number(2.5)), operator: Star, right: Literal(Number(-3.0)) } })] }"
    );
}

#[test]
fn integers_are_spelled_in_decimal() {
    for i in [0, 7, 10, -1, 99, -100, 1234567890123, i64::MAX, i64::MIN] {
        assert_eq!(decimal_text(i), i.to_string());
    }
}

#[test]
fn a_string_displays_as_it_is() {
    assert_eq!(display_line(&Value::String("a \"b\"".to_string()), &doubles), "a \"b\"");
    assert_eq!(display_line(&Value::Boolean(false), &doubles), "Boolean(false)");
    assert_eq!(render_value(&Value::String("a \"b\"".to_string()), &doubles), "String(\"a \\\"b\\\"\")");
}
