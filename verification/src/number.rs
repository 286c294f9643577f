//! Numbers of the language: IEEE 754 double-precision values, held as their
//! bit patterns. What can be read off the bits is computed here: sign, zero,
//! order and equality. Rounding arithmetic and the decimal spelling of a
//! number come from the arithmetic that the caller supplies.
use vstd::prelude::*;

verus! {

/// The bits of the sign.
pub const SIGN: u64 = 0x8000_0000_0000_0000;

/// The bits of the exponent.
pub const EXPONENT: u64 = 0x7ff0_0000_0000_0000;

/// The bits of the fraction.
pub const FRACTION: u64 = 0x000f_ffff_ffff_ffff;

/// The bits of the magnitude: all but the sign.
pub const MAGNITUDE: u64 = 0x7fff_ffff_ffff_ffff;

/// Whether `bits` is not a number.
pub open spec fn is_nan(bits: u64) -> bool {
    bits & EXPONENT == EXPONENT && bits & FRACTION != 0
}

/// Whether `bits` is zero, of either sign.
pub open spec fn is_zero(bits: u64) -> bool {
    bits & MAGNITUDE == 0
}

/// Whether the sign of `bits` is set.
pub open spec fn is_negative(bits: u64) -> bool {
    bits & SIGN != 0
}

/// The number of the opposite sign.
pub open spec fn negated(bits: u64) -> u64 {
    bits ^ SIGN
}

/// Whether `left` is less than `right`. Nothing is less than, or greater
/// than, what is not a number; the two zeros are equal.
pub open spec fn less(left: u64, right: u64) -> bool {
    if is_nan(left) || is_nan(right) {
        false
    } else if is_zero(left) && is_zero(right) {
        false
    } else if is_negative(left) != is_negative(right) {
        is_negative(left)
    } else if is_negative(left) {
        left & MAGNITUDE > right & MAGNITUDE
    } else {
        (left & MAGNITUDE) < right & MAGNITUDE
    }
}

/// Whether `left` equals `right`. What is not a number equals nothing, not
/// even itself; the two zeros are equal.
pub open spec fn equal(left: u64, right: u64) -> bool {
    !is_nan(left) && !is_nan(right) && (left == right || (is_zero(left) && is_zero(right)))
}

/// Whether `left` is less than or equal to `right`.
pub open spec fn at_most(left: u64, right: u64) -> bool {
    less(left, right) || equal(left, right)
}

/// Whether `bits` is not a number.
pub fn number_is_nan(bits: u64) -> (r: bool)
    ensures
        r == is_nan(bits),
{
    bits & EXPONENT == EXPONENT && bits & FRACTION != 0
}

/// Whether `bits` is zero, of either sign.
pub fn number_is_zero(bits: u64) -> (r: bool)
    ensures
        r == is_zero(bits),
{
    bits & MAGNITUDE == 0
}

/// Whether the sign of `bits` is set.
pub fn number_is_negative(bits: u64) -> (r: bool)
    ensures
        r == is_negative(bits),
{
    bits & SIGN != 0
}

/// The number of the opposite sign.
pub fn number_negated(bits: u64) -> (r: u64)
    ensures
        r == negated(bits),
{
    bits ^ SIGN
}

/// Whether `left` is less than `right`.
pub fn number_less(left: u64, right: u64) -> (r: bool)
    ensures
        r == less(left, right),
{
    if number_is_nan(left) || number_is_nan(right) {
        false
    } else if number_is_zero(left) && number_is_zero(right) {
        false
    } else if number_is_negative(left) != number_is_negative(right) {
        number_is_negative(left)
    } else if number_is_negative(left) {
        left & MAGNITUDE > right & MAGNITUDE
    } else {
        (left & MAGNITUDE) < right & MAGNITUDE
    }
}

/// Whether `left` equals `right`.
pub fn number_equal(left: u64, right: u64) -> (r: bool)
    ensures
        r == equal(left, right),
{
    !number_is_nan(left) && !number_is_nan(right) && (left == right || (number_is_zero(left)
        && number_is_zero(right)))
}

/// Whether `left` is less than or equal to `right`.
pub fn number_at_most(left: u64, right: u64) -> (r: bool)
    ensures
        r == at_most(left, right),
{
    number_less(left, right) || number_equal(left, right)
}

/// A request to the arithmetic of numbers.
#[derive(Debug)]
pub enum NumberOp {
    /// The number that a decimal literal spells.
    Read(String),
    /// The number nearest to an integer.
    FromInteger(i64),
    Add(u64, u64),
    Subtract(u64, u64),
    Multiply(u64, u64),
    Divide(u64, u64),
    /// The decimal spelling of a number.
    Show(u64),
}

/// The mathematical value of a request.
pub enum NumberOpView {
    Read(Seq<char>),
    FromInteger(i64),
    Add(u64, u64),
    Subtract(u64, u64),
    Multiply(u64, u64),
    Divide(u64, u64),
    Show(u64),
}

impl View for NumberOp {
    type V = NumberOpView;

    open spec fn view(&self) -> NumberOpView {
        match self {
            NumberOp::Read(text) => NumberOpView::Read(text@),
            NumberOp::FromInteger(i) => NumberOpView::FromInteger(*i),
            NumberOp::Add(l, r) => NumberOpView::Add(*l, *r),
            NumberOp::Subtract(l, r) => NumberOpView::Subtract(*l, *r),
            NumberOp::Multiply(l, r) => NumberOpView::Multiply(*l, *r),
            NumberOp::Divide(l, r) => NumberOpView::Divide(*l, *r),
            NumberOp::Show(bits) => NumberOpView::Show(*bits),
        }
    }
}

/// The answer to a request: a number, or for `Show` a text.
#[derive(Debug)]
pub enum NumberAnswer {
    Bits(u64),
    Text(String),
}

/// The mathematical value of an answer.
pub enum NumberAnswerView {
    Bits(u64),
    Text(Seq<char>),
}

impl View for NumberAnswer {
    type V = NumberAnswerView;

    open spec fn view(&self) -> NumberAnswerView {
        match self {
            NumberAnswer::Bits(bits) => NumberAnswerView::Bits(*bits),
            NumberAnswer::Text(text) => NumberAnswerView::Text(text@),
        }
    }
}

/// Whether `numbers` may answer the request `op` with `answer`.
pub open spec fn may_answer<F: Fn(NumberOp) -> NumberAnswer>(
    numbers: F,
    op: NumberOpView,
    answer: NumberAnswerView,
) -> bool {
    exists|o: NumberOp, a: NumberAnswer| o@ == op && a@ == answer && numbers.ensures((o,), a)
}

/// The answer of `numbers` to the request `op`.
pub open spec fn answer_of<F: Fn(NumberOp) -> NumberAnswer>(
    numbers: F,
    op: NumberOpView,
) -> NumberAnswerView {
    choose|answer: NumberAnswerView| may_answer(numbers, op, answer)
}

/// What the evaluator asks of the arithmetic it is given: that it answers
/// every request, and the same request always alike.
pub open spec fn dependable<F: Fn(NumberOp) -> NumberAnswer>(numbers: F) -> bool {
    &&& forall|o: NumberOp| #[trigger] numbers.requires((o,))
    &&& forall|o1: NumberOp, o2: NumberOp, a1: NumberAnswer, a2: NumberAnswer|
        o1@ == o2@ && #[trigger] numbers.ensures((o1,), a1) && #[trigger] numbers.ensures((o2,), a2)
            ==> a1@ == a2@
}

/// The arithmetic of numbers as the evaluator sees it: functions on bit
/// patterns and texts.
pub struct Arithmetic {
    pub read: spec_fn(Seq<char>) -> u64,
    pub from_integer: spec_fn(i64) -> u64,
    pub add: spec_fn(u64, u64) -> u64,
    pub subtract: spec_fn(u64, u64) -> u64,
    pub multiply: spec_fn(u64, u64) -> u64,
    pub divide: spec_fn(u64, u64) -> u64,
    pub show: spec_fn(u64) -> Seq<char>,
}

/// The number in `answer`; zero where it holds a text.
pub open spec fn bits_in(answer: NumberAnswerView) -> u64 {
    match answer {
        NumberAnswerView::Bits(bits) => bits,
        NumberAnswerView::Text(_) => 0,
    }
}

/// The text in `answer`; empty where it holds a number.
pub open spec fn text_in(answer: NumberAnswerView) -> Seq<char> {
    match answer {
        NumberAnswerView::Bits(_) => Seq::empty(),
        NumberAnswerView::Text(text) => text,
    }
}

/// The arithmetic that `numbers` computes.
pub open spec fn arithmetic_of<F: Fn(NumberOp) -> NumberAnswer>(numbers: F) -> Arithmetic {
    Arithmetic {
        read: |text: Seq<char>| bits_in(answer_of(numbers, NumberOpView::Read(text))),
        from_integer: |i: i64| bits_in(answer_of(numbers, NumberOpView::FromInteger(i))),
        add: |l: u64, r: u64| bits_in(answer_of(numbers, NumberOpView::Add(l, r))),
        subtract: |l: u64, r: u64| bits_in(answer_of(numbers, NumberOpView::Subtract(l, r))),
        multiply: |l: u64, r: u64| bits_in(answer_of(numbers, NumberOpView::Multiply(l, r))),
        divide: |l: u64, r: u64| bits_in(answer_of(numbers, NumberOpView::Divide(l, r))),
        show: |bits: u64| text_in(answer_of(numbers, NumberOpView::Show(bits))),
    }
}

/// Asks `numbers` for the answer to `op`.
pub fn ask<F: Fn(NumberOp) -> NumberAnswer>(numbers: &F, op: NumberOp) -> (answer: NumberAnswer)
    requires
        dependable(*numbers),
    ensures
        answer@ == answer_of(*numbers, op@),
{
    let ghost asked = op@;
    let ghost request = op;
    let answer = numbers(op);
    proof {
        assert(numbers.ensures((request,), answer));
        assert(may_answer(*numbers, asked, answer@));
        let chosen = answer_of(*numbers, asked);
        assert(may_answer(*numbers, asked, chosen));
        let (o, a): (NumberOp, NumberAnswer) = choose|o: NumberOp, a: NumberAnswer|
            o@ == asked && a@ == chosen && numbers.ensures((o,), a);
        assert(a@ == answer@);
    }
    answer
}

/// The number that the decimal literal `text` spells.
pub fn read<F: Fn(NumberOp) -> NumberAnswer>(numbers: &F, text: &str) -> (bits: u64)
    requires
        dependable(*numbers),
    ensures
        bits == (arithmetic_of(*numbers).read)(text@),
{
    match ask(numbers, NumberOp::Read(text.to_owned())) {
        NumberAnswer::Bits(bits) => bits,
        NumberAnswer::Text(_) => 0,
    }
}

/// The number nearest to the integer `i`.
pub fn from_integer<F: Fn(NumberOp) -> NumberAnswer>(numbers: &F, i: i64) -> (bits: u64)
    requires
        dependable(*numbers),
    ensures
        bits == (arithmetic_of(*numbers).from_integer)(i),
{
    match ask(numbers, NumberOp::FromInteger(i)) {
        NumberAnswer::Bits(bits) => bits,
        NumberAnswer::Text(_) => 0,
    }
}

/// The sum of `left` and `right`.
pub fn sum<F: Fn(NumberOp) -> NumberAnswer>(numbers: &F, left: u64, right: u64) -> (bits: u64)
    requires
        dependable(*numbers),
    ensures
        bits == (arithmetic_of(*numbers).add)(left, right),
{
    match ask(numbers, NumberOp::Add(left, right)) {
        NumberAnswer::Bits(bits) => bits,
        NumberAnswer::Text(_) => 0,
    }
}

/// The difference of `left` and `right`.
pub fn difference<F: Fn(NumberOp) -> NumberAnswer>(numbers: &F, left: u64, right: u64) -> (bits:
    u64)
    requires
        dependable(*numbers),
    ensures
        bits == (arithmetic_of(*numbers).subtract)(left, right),
{
    match ask(numbers, NumberOp::Subtract(left, right)) {
        NumberAnswer::Bits(bits) => bits,
        NumberAnswer::Text(_) => 0,
    }
}

/// The product of `left` and `right`.
pub fn product<F: Fn(NumberOp) -> NumberAnswer>(numbers: &F, left: u64, right: u64) -> (bits: u64)
    requires
        dependable(*numbers),
    ensures
        bits == (arithmetic_of(*numbers).multiply)(left, right),
{
    match ask(numbers, NumberOp::Multiply(left, right)) {
        NumberAnswer::Bits(bits) => bits,
        NumberAnswer::Text(_) => 0,
    }
}

/// The quotient of `left` by `right`.
pub fn ratio<F: Fn(NumberOp) -> NumberAnswer>(numbers: &F, left: u64, right: u64) -> (bits: u64)
    requires
        dependable(*numbers),
    ensures
        bits == (arithmetic_of(*numbers).divide)(left, right),
{
    match ask(numbers, NumberOp::Divide(left, right)) {
        NumberAnswer::Bits(bits) => bits,
        NumberAnswer::Text(_) => 0,
    }
}

/// The decimal spelling of `bits`.
pub fn show<F: Fn(NumberOp) -> NumberAnswer>(numbers: &F, bits: u64) -> (text: String)
    requires
        dependable(*numbers),
    ensures
        text@ == (arithmetic_of(*numbers).show)(bits),
{
    match ask(numbers, NumberOp::Show(bits)) {
        NumberAnswer::Text(text) => text,
        NumberAnswer::Bits(_) => String::new(),
    }
}

} // verus!
