use wittgenlang::number::{
    difference, from_integer, number_at_most, number_equal, number_is_nan, number_is_negative,
    number_is_zero, number_less, number_negated, product, ratio, read, show, sum, NumberAnswer,
    NumberOp,
};

fn doubles(op: NumberOp) -> NumberAnswer {
    match op {
        NumberOp::Read(text) => NumberAnswer::Bits(text.parse::<f64>().unwrap().to_bits()),
        NumberOp::FromInteger(i) => NumberAnswer::Bits((i as f64).to_bits()),
        NumberOp::Add(l, r) => NumberAnswer::Bits((f64::from_bits(l) + f64::from_bits(r)).to_bits()),
        NumberOp::Subtract(l, r) => {
            NumberAnswer::Bits((f64::from_bits(l) - f64::from_bits(r)).to_bits())
        }
        NumberOp::Multiply(l, r) => {
            NumberAnswer::Bits((f64::from_bits(l) * f64::from_bits(r)).to_bits())
        }
        NumberOp::Divide(l, r) => NumberAnswer::Bits((f64::from_bits(l) / f64::from_bits(r)).to_bits()),
        NumberOp::Show(bits) => NumberAnswer::Text(format!("{:?}", f64::from_bits(bits))),
    }
}

fn samples() -> Vec<f64> {
    vec![
        0.0,
        -0.0,
        1.0,
        -1.0,
        0.5,
        -0.5,
        2.0,
        1e300,
        -1e300,
        5e-324,
        -5e-324,
        f64::MAX,
        f64::MIN,
        f64::MIN_POSITIVE,
        f64::INFINITY,
        f64::NEG_INFINITY,
        f64::NAN,
        -f64::NAN,
        3.141592653589793,
    ]
}

#[test]
fn order_on_bits_is_the_order_of_doubles() {
    for &l in &samples() {
        for &r in &samples() {
            assert_eq!(number_less(l.to_bits(), r.to_bits()), l < r, "{:?} < {:?}", l, r);
            assert_eq!(number_at_most(l.to_bits(), r.to_bits()), l <= r, "{:?} <= {:?}", l, r);
        }
    }
}

#[test]
fn equality_on_bits_is_the_equality_of_doubles() {
    for &l in &samples() {
        for &r in &samples() {
            assert_eq!(number_equal(l.to_bits(), r.to_bits()), l == r, "{:?} == {:?}", l, r);
        }
    }
}

#[test]
fn sign_and_zero_are_read_off_the_bits() {
    for &x in &samples() {
        assert_eq!(number_is_zero(x.to_bits()), x == 0.0);
        assert_eq!(number_is_nan(x.to_bits()), x.is_nan());
        assert_eq!(number_is_negative(x.to_bits()), x.is_sign_negative());
        assert_eq!(number_negated(x.to_bits()), (-x).to_bits());
    }
}

#[test]
fn the_arithmetic_given_is_the_arithmetic_used() {
    let two = read(&doubles, "2");
    let three = read(&doubles, "3.0");
    assert_eq!(two, 2.0f64.to_bits());
    assert_eq!(sum(&doubles, two, three), 5.0f64.to_bits());
    assert_eq!(difference(&doubles, two, three), (-1.0f64).to_bits());
    assert_eq!(product(&doubles, two, three), 6.0f64.to_bits());
    assert_eq!(ratio(&doubles, three, two), 1.5f64.to_bits());
    assert_eq!(from_integer(&doubles, -7), (-7.0f64).to_bits());
    assert_eq!(show(&doubles, three), "3.0");
    assert_eq!(show(&doubles, 1e21f64.to_bits()), "1e21");
}

#[test]
fn an_answer_of_the_wrong_kind_counts_as_nothing() {
    let odd = |op: NumberOp| match op {
        NumberOp::Show(_) => NumberAnswer::Bits(1),
        _ => NumberAnswer::Text("x".to_string()),
    };
    assert_eq!(sum(&odd, 1, 2), 0);
    assert_eq!(read(&odd, "1"), 0);
    assert_eq!(show(&odd, 1), "");
}
