use wittgenlang::parser::Parser;

fn parsed(source: &str) -> String {
    let mut parser = Parser::new(source);
    match parser.parse() {
        Ok(statements) => format!("{:?}", statements),
        Err(message) => format!("error: {}", message),
    }
}

#[test]
fn parses_precedence() {
    assert_eq!(
        parsed("2 + 3 * 4"),
        "[Expression(Binary { left: Literal(Number(\"2\")), operator: Plus, right: Binary { left: Literal(Number(\"3\")), operator: Star, right: Literal(Number(\"4\")) } })]"
    );
}

#[test]
fn an_empty_program_has_no_statements() {
    assert_eq!(parsed(""), "[]");
    assert_eq!(parsed("! nothing but a comment"), "[]");
}

#[test]
fn binary_operators_fold_to_the_left() {
    assert_eq!(
        parsed("1 - 2 - 3"),
        "[Expression(Binary { left: Binary { left: Literal(Number(\"1\")), operator: Minus, right: Literal(Number(\"2\")) }, operator: Minus, right: Literal(Number(\"3\")) })]"
    );
}

#[test]
fn a_grouping_is_kept() {
    assert_eq!(
        parsed("(2 + 3) * 4"),
        "[Expression(Binary { left: Grouping(Binary { left: Literal(Number(\"2\")), operator: Plus, right: Literal(Number(\"3\")) }), operator: Star, right: Literal(Number(\"4\")) })]"
    );
}

#[test]
fn the_levels_bind_in_order() {
    assert_eq!(
        parsed("a | b == c < d + e * - f"),
        "[Expression(Binary { left: Variable(\"a\"), operator: Pipe, right: Binary { left: Variable(\"b\"), operator: EqualEqual, right: Binary { left: Variable(\"c\"), operator: Less, right: Binary { left: Variable(\"d\"), operator: Plus, right: Binary { left: Variable(\"e\"), operator: Star, right: Unary { operator: Minus, right: Variable(\"f\") } } } } } })]"
    );
}

#[test]
fn is_reads_as_equality() {
    assert_eq!(
        parsed("a is b"),
        "[Expression(Binary { left: Variable(\"a\"), operator: Is, right: Variable(\"b\") })]"
    );
}

#[test]
fn the_concatenation_operator_is_additive() {
    assert_eq!(
        parsed("a & b * c"),
        "[Expression(Binary { left: Variable(\"a\"), operator: Ampersand, right: Binary { left: Variable(\"b\"), operator: Star, right: Variable(\"c\") } })]"
    );
}

#[test]
fn every_factor_operator_is_read() {
    assert_eq!(
        parsed("a // b % c ^ d / e"),
        "[Expression(Binary { left: Binary { left: Binary { left: Binary { left: Variable(\"a\"), operator: IntegerDivide, right: Variable(\"b\") }, operator: Modulo, right: Variable(\"c\") }, operator: Power, right: Variable(\"d\") }, operator: Slash, right: Variable(\"e\") })]"
    );
}

#[test]
fn literals_are_read() {
    assert_eq!(
        parsed("yes no nothing 1.5 \"s\" \"\"\"m\"\"\""),
        "[Expression(Literal(Decision(true))), Expression(Literal(Decision(false))), Expression(Literal(Nothing)), Expression(Literal(Number(\"1.5\"))), Expression(Literal(String(\"s\"))), Expression(Literal(String(\"m\")))]"
    );
}

#[test]
fn a_call_takes_positional_and_named_arguments() {
    assert_eq!(
        parsed("f(1, b: 2, c, d: 4)"),
        "[Expression(FunctionCall { name: \"f\", arguments: [Literal(Number(\"1\")), Variable(\"c\")], named_arguments: [(\"b\", Literal(Number(\"2\"))), (\"d\", Literal(Number(\"4\")))] })]"
    );
    assert_eq!(
        parsed("f()"),
        "[Expression(FunctionCall { name: \"f\", arguments: [], named_arguments: [] })]"
    );
}

#[test]
fn postfix_forms_chain_from_the_left() {
    assert_eq!(
        parsed("a(x)'f[y].g"),
        "[Expression(FunctionCall { name: \"g\", arguments: [AccessExpression { object: TypeFunctionCall { object: FunctionCall { name: \"a\", arguments: [Variable(\"x\")], named_arguments: [] }, function: \"f\" }, index: Variable(\"y\") }], named_arguments: [] })]"
    );
}

#[test]
fn only_a_name_can_be_called() {
    assert_eq!(parsed("(f)(1)"), "error: Expected function name");
    assert_eq!(parsed("f(1"), "error: Expected ')' after arguments");
    assert_eq!(parsed("f(1: 2)"), "error: Expected parameter name for named argument");
    assert_eq!(parsed("a'1"), "error: Expected function name after apostrophe");
    assert_eq!(parsed("a.1"), "error: Expected method name after dot");
    assert_eq!(parsed("a[1"), "error: Expected ']' after index");
}

#[test]
fn a_list_literal_is_read() {
    assert_eq!(parsed("[]"), "[Expression(List([]))]");
    assert_eq!(
        parsed("[1, x]"),
        "[Expression(List([Literal(Number(\"1\")), Variable(\"x\")]))]"
    );
    assert_eq!(parsed("[1, x"), "error: Expected ']' after list elements");
}

#[test]
fn a_map_literal_opens_with_a_brace_a_name_and_a_colon() {
    assert_eq!(
        parsed("{a: 1}"),
        "[Expression(Mapping([(Variable(\"a\"), Literal(Number(\"1\")))]))]"
    );
    assert_eq!(
        parsed("{ a: 2, b: x }"),
        "[Expression(Mapping([(Variable(\"a\"), Literal(Number(\"2\"))), (Variable(\"b\"), Variable(\"x\"))]))]"
    );
    assert_eq!(
        parsed("{a: 1} b"),
        "[Expression(Mapping([(Variable(\"a\"), Literal(Number(\"1\")))])), Expression(Variable(\"b\"))]"
    );
}

#[test]
fn a_brace_without_a_name_and_a_colon_opens_no_map() {
    assert_eq!(parsed("{ 1: 2 }"), "error: Expected expression");
    assert_eq!(parsed("{ a 2 }"), "error: Expected expression");
    assert_eq!(parsed("{ }"), "error: Expected expression");
    assert_eq!(parsed("{ a: 2"), "error: Expected '}' after map entries");
    assert_eq!(parsed("{ a: 2, b }"), "error: Expected ':' after map key");
}

#[test]
fn a_missing_expression_is_reported() {
    assert_eq!(parsed("+"), "error: Expected expression");
    assert_eq!(parsed("1 +"), "error: Expected expression");
    assert_eq!(parsed("(1"), "error: Expected ')' after expression");
    assert_eq!(parsed("}"), "error: Expected expression");
}

#[test]
fn a_binding_names_its_type() {
    assert_eq!(
        parsed("x #Number is 1"),
        "[Value { name: \"x\", type_label: \"NumberType\", initializer: Literal(Number(\"1\")), mutable: false }]"
    );
    assert_eq!(
        parsed("p #Person is q"),
        "[Value { name: \"p\", type_label: \"Person\", initializer: Variable(\"q\"), mutable: false }]"
    );
    assert_eq!(
        parsed("forNow x #Text is \"a\""),
        "[Value { name: \"x\", type_label: \"TextType\", initializer: Literal(String(\"a\")), mutable: true }]"
    );
    assert_eq!(
        parsed("# x #Any is 1"),
        "[Value { name: \"x\", type_label: \"AnyType\", initializer: Literal(Number(\"1\")), mutable: false }]"
    );
}

#[test]
fn a_binding_reports_what_it_misses() {
    assert_eq!(parsed("forNow 1"), "error: Expected variable name");
    assert_eq!(parsed("forNow x is 1"), "error: Expected type annotation for variable");
    assert_eq!(parsed("x # 1"), "error: Expected type name after '#'");
    assert_eq!(parsed("x #Number 1"), "error: Expected 'is' after type annotation");
    assert_eq!(parsed("x #Number is"), "error: Expected expression");
    assert_eq!(parsed("x #Integer is 1"), "error: Expected expression");
}

#[test]
fn a_conditional_may_chain() {
    assert_eq!(
        parsed("if a { 1 } else if b { 2 } else { 3 }"),
        "[If { condition: Variable(\"a\"), then_branch: [Expression(Literal(Number(\"1\")))], else_branch: Some([If { condition: Variable(\"b\"), then_branch: [Expression(Literal(Number(\"2\")))], else_branch: Some([Expression(Literal(Number(\"3\")))]) }]) }]"
    );
    assert_eq!(
        parsed("if a { }"),
        "[If { condition: Variable(\"a\"), then_branch: [], else_branch: None }]"
    );
}

#[test]
fn a_conditional_reports_what_it_misses() {
    assert_eq!(parsed("if a 1"), "error: Expected '{' after if condition");
    assert_eq!(parsed("if a { 1"), "error: Expected '}' after if block");
    assert_eq!(parsed("if a { } else 1"), "error: Expected '{' after else");
    assert_eq!(parsed("if a { } else { 1"), "error: Expected '}' after else block");
}

#[test]
fn loops_are_read() {
    assert_eq!(
        parsed("while a { b }"),
        "[While { condition: Variable(\"a\"), body: [Expression(Variable(\"b\"))] }]"
    );
    assert_eq!(
        parsed("unless a { b }"),
        "[Unless { condition: Variable(\"a\"), body: [Expression(Variable(\"b\"))] }]"
    );
    assert_eq!(
        parsed("for x in xs { break continue }"),
        "[For { variable: \"x\", iterable: Variable(\"xs\"), body: [Break, Continue] }]"
    );
}

#[test]
fn loops_report_what_they_miss() {
    assert_eq!(parsed("while a b"), "error: Expected '{' after while condition");
    assert_eq!(parsed("while a { b"), "error: Expected '}' after while block");
    assert_eq!(parsed("unless a b"), "error: Expected '{' after unless condition");
    assert_eq!(parsed("unless a { b"), "error: Expected '}' after unless block");
    assert_eq!(parsed("for 1"), "error: Expected variable name after 'for'");
    assert_eq!(parsed("for x xs"), "error: Expected 'in' after for loop variable");
    assert_eq!(parsed("for x in xs 1"), "error: Expected '{' after for loop iterable");
    assert_eq!(parsed("for x in xs { 1"), "error: Expected '}' after for loop body");
}

#[test]
fn a_switch_has_cases_and_a_default() {
    assert_eq!(
        parsed("of x { 1, 2 -> a 3 -> { b c } otherwise -> d }"),
        "[Of { value: Variable(\"x\"), cases: [([Literal(Number(\"1\")), Literal(Number(\"2\"))], [Expression(Variable(\"a\"))]), ([Literal(Number(\"3\"))], [Expression(Variable(\"b\")), Expression(Variable(\"c\"))])], default: Some([Expression(Variable(\"d\"))]) }]"
    );
    assert_eq!(
        parsed("of x { }"),
        "[Of { value: Variable(\"x\"), cases: [], default: None }]"
    );
    assert_eq!(
        parsed("of x { otherwise -> { a } otherwise -> b }"),
        "[Of { value: Variable(\"x\"), cases: [], default: Some([Expression(Variable(\"b\"))]) }]"
    );
}

#[test]
fn a_switch_reports_what_it_misses() {
    assert_eq!(parsed("of x 1"), "error: Expected '{' after switch value");
    assert_eq!(parsed("of x { 1 a }"), "error: Expected '->' after case value");
    assert_eq!(parsed("of x { otherwise a }"), "error: Expected '->' after 'otherwise'");
    assert_eq!(parsed("of x { 1 -> { a "), "error: Expected '}' after case block");
    assert_eq!(parsed("of x { otherwise -> { a "), "error: Expected '}' after default case block");
    assert_eq!(parsed("of x { 1 -> a"), "error: Expected '}' after switch statement");
}

#[test]
fn small_statements_are_read() {
    assert_eq!(
        parsed("change x to 2"),
        "[Change { name: \"x\", value: Literal(Number(\"2\")) }]"
    );
    assert_eq!(parsed("write(x)"), "[Write(Variable(\"x\"))]");
    assert_eq!(
        parsed("if a { produce }"),
        "[If { condition: Variable(\"a\"), then_branch: [Produce(None)], else_branch: None }]"
    );
    assert_eq!(parsed("produce 1"), "[Produce(Some(Literal(Number(\"1\"))))]");
    assert_eq!(parsed("produce"), "error: Expected expression");
    assert_eq!(parsed("change 1"), "error: Expected variable name after 'change'");
    assert_eq!(
        parsed("change x 2"),
        "error: Expected 'to' after variable name in change statement"
    );
    assert_eq!(parsed("write x"), "error: Expected '(' after 'write'");
    assert_eq!(parsed("write(x"), "error: Expected ')' after write expression");
}

#[test]
fn a_module_holds_declarations() {
    assert_eq!(
        parsed("module m { x #Number is 1 }"),
        "[ModuleDeclaration { name: \"m\", body: [Value { name: \"x\", type_label: \"NumberType\", initializer: Literal(Number(\"1\")), mutable: false }] }]"
    );
    assert_eq!(parsed("module 1"), "error: Expected module name");
    assert_eq!(parsed("module m 1"), "error: Expected '{' after module name");
    assert_eq!(parsed("module m { 1"), "error: Expected '}' after module body");
}

#[test]
fn a_function_takes_its_name_from_before_by() {
    assert_eq!(
        parsed("add by #Number { &a #Number &b #Size a + b }"),
        "[Expression(Variable(\"add\")), Function { name: \"add\", return_type: \"NumberType\", params: [(\"a\", \"NumberType\"), (\"b\", \"Size\")], body: [Expression(Binary { left: Variable(\"a\"), operator: Plus, right: Variable(\"b\") })] }]"
    );
    assert_eq!(
        parsed("f by #Any { }"),
        "[Expression(Variable(\"f\")), Function { name: \"f\", return_type: \"AnyType\", params: [], body: [] }]"
    );
}

#[test]
fn a_function_reports_what_it_misses() {
    assert_eq!(parsed("by #Any { }"), "error: Expected function name before 'by'");
    assert_eq!(parsed("1 by #Any { }"), "error: Expected function name before 'by'");
    assert_eq!(parsed("f by { }"), "error: Expected return type before 'by'");
    assert_eq!(parsed("f by # { }"), "error: Expected return type after '#'");
    assert_eq!(parsed("f by #Any 1"), "error: Expected '{' after 'by'");
    assert_eq!(parsed("f by #Any { & 1"), "error: Expected parameter name after '@'");
    assert_eq!(parsed("f by #Any { &a 1"), "error: Expected parameter type");
    assert_eq!(parsed("f by #Any { &a # 1"), "error: Expected parameter type after '#'");
    assert_eq!(parsed("f by #Any { 1"), "error: Expected '}' after function body");
}

#[test]
fn an_import_names_a_path() {
    assert_eq!(
        parsed("import Math"),
        "[Import { path: [\"Math\"], specific_imports: [], alias: None }]"
    );
    assert_eq!(
        parsed("import { add, subtract } from Std.Math as M"),
        "[Import { path: [\"Std\", \"Math\"], specific_imports: [\"add\", \"subtract\"], alias: Some(\"M\") }]"
    );
}

#[test]
fn an_import_reports_what_it_misses() {
    assert_eq!(parsed("import"), "error: Expected module name");
    assert_eq!(parsed("import { 1 }"), "error: Expected function name in import list");
    assert_eq!(parsed("import { a"), "error: Expected '}' after import list");
    assert_eq!(parsed("import { a } M"), "error: Expected 'from' after import list");
    assert_eq!(parsed("import A."), "error: Expected module name");
    assert_eq!(parsed("import A as 1"), "error: Expected alias name after 'as'");
}

#[test]
fn a_type_definition_is_an_alias_a_record_or_a_variant() {
    assert_eq!(
        parsed("see #Age is #Years"),
        "[TypeDefinition { name: \"Age\", definition: Alias(Primitive(\"Years\")) }]"
    );
    assert_eq!(
        parsed("see #Person is record { name #Text, age #Number }"),
        "[TypeDefinition { name: \"Person\", definition: Record { fields: [(\"name\", \"TextType\"), (\"age\", \"NumberType\")] } }]"
    );
    assert_eq!(
        parsed("see #Person is record { name #Text, }"),
        "[TypeDefinition { name: \"Person\", definition: Record { fields: [(\"name\", \"TextType\")] } }]"
    );
    assert_eq!(
        parsed("see #Form is variant { Circle(radius #Number), Box(w #Number, h #Size), Dot, Empty() }"),
        "[TypeDefinition { name: \"Form\", definition: Variant { variants: [(\"Circle\", [(\"radius\", \"NumberType\")]), (\"Box\", [(\"w\", \"NumberType\"), (\"h\", \"Size\")]), (\"Dot\", []), (\"Empty\", [])] } }]"
    );
}

#[test]
fn a_type_definition_reports_what_it_misses() {
    assert_eq!(parsed("see Age"), "error: Expected '#' after 'see'");
    assert_eq!(parsed("see # 1"), "error: Expected type name");
    assert_eq!(parsed("see #Age #Years"), "error: Expected 'is' after type name");
    assert_eq!(
        parsed("see #Age is 1"),
        "error: Expected 'record', 'variant', or '#' after 'is' in type definition"
    );
    assert_eq!(parsed("see #Age is # 1"), "error: Expected type name after '#'");
    assert_eq!(parsed("see #P is record 1"), "error: Expected '{' after 'record'");
    assert_eq!(parsed("see #P is record { 1 }"), "error: Expected field name");
    assert_eq!(parsed("see #P is record { a 1 }"), "error: Expected field type");
    assert_eq!(parsed("see #P is record { a # 1 }"), "error: Expected field type after '#'");
    assert_eq!(
        parsed("see #P is record { a #Text b #Text }"),
        "error: Expected ',' between record fields"
    );
    assert_eq!(parsed("see #P is record { a #Text"), "error: Expected ',' between record fields");
    assert_eq!(parsed("see #P is record { a #Text,"), "error: Expected '}' after record fields");
    assert_eq!(parsed("see #F is variant 1"), "error: Expected '{' after 'variant'");
    assert_eq!(parsed("see #F is variant { 1 }"), "error: Expected variant name");
    assert_eq!(parsed("see #F is variant { A(1) }"), "error: Expected field name");
    assert_eq!(parsed("see #F is variant { A(a #Text }"), "error: Expected ')' after variant fields");
    assert_eq!(
        parsed("see #F is variant { A B }"),
        "error: Expected ',' between variant definitions"
    );
    assert_eq!(parsed("see #F is variant { A,"), "error: Expected '}' after variant definitions");
}

#[test]
fn parsing_stops_at_the_first_end_token() {
    assert_eq!(parsed("1 = 2"), "[Expression(Literal(Number(\"1\")))]");
}

#[test]
fn parsing_twice_goes_on_from_the_end() {
    let mut parser = Parser::new("1 2");
    assert_eq!(format!("{:?}", parser.parse().unwrap()).matches("Number").count(), 2);
    assert_eq!(format!("{:?}", parser.parse().unwrap()), "[]");
}
