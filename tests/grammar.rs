use expr_pcfg::ast::{Add, Component, Cos, Div, Exp, MixUnbounded, Mult, RandomConst, Sin, Sqrt, VarX, VarY};
use expr_pcfg::expression::Expression;
use expr_pcfg::fixed::{const_to_text, CONST_SCALE};

fn x() -> Box<Component> {
    Box::new(Component::VarX(VarX))
}

fn y() -> Box<Component> {
    Box::new(Component::VarY(VarY))
}

fn c(v: i64) -> Box<Component> {
    Box::new(Component::RandomConst(RandomConst(v)))
}

#[test]
fn renders_add_of_mult_with_constant() {
    let t = Component::Add(Add(x(), Box::new(Component::Mult(Mult(c(2 * CONST_SCALE), y())))));
    assert_eq!(t.codegen(), "(x + (2.000 * y))");
}

#[test]
fn renders_division_by_zero_constant() {
    let t = Component::Div(Div(x(), c(0)));
    assert_eq!(t.codegen(), "(x / 0.000)");
}

#[test]
fn renders_atoms() {
    assert_eq!(VarX.codegen(), "x");
    assert_eq!(VarY.codegen(), "y");
    assert_eq!(RandomConst(250_000).codegen(), "0.250");
    assert_eq!(RandomConst(-CONST_SCALE).codegen(), "-1.000");
}

#[test]
fn renders_unary_operators() {
    assert_eq!(Component::Sin(Sin(x())).codegen(), "sin(x)");
    assert_eq!(Component::Cos(Cos(y())).codegen(), "cos(y)");
    assert_eq!(Component::Exp(Exp(c(500_000))).codegen(), "exp(0.500)");
    assert_eq!(Component::Sqrt(Sqrt(x())).codegen(), "sqrt(abs(x))");
}

#[test]
fn renders_mix() {
    let t = Component::MixUnbounded(MixUnbounded(x(), y(), c(-125_000), x()));
    assert_eq!(t.codegen(), "mix(x, y, -0.125, x)");
}

#[test]
fn renders_nested_operators() {
    let inner = Component::Sqrt(Sqrt(Box::new(Component::Add(Add(x(), y())))));
    let t = Component::Sin(Sin(Box::new(Component::Mult(Mult(Box::new(inner), c(1_000_000))))));
    assert_eq!(t.codegen(), "sin((sqrt(abs((x + y))) * 1.000))");
}

#[test]
fn renders_expression_as_tuple() {
    let e = Expression(Component::VarX(VarX), Component::VarY(VarY), Component::RandomConst(RandomConst(250_000)));
    assert_eq!(e.codegen(), "(x, y, 0.250)");
}

#[test]
fn rendering_twice_gives_identical_text() {
    let t = Component::MixUnbounded(MixUnbounded(
        Box::new(Component::Exp(Exp(c(-999_999)))),
        Box::new(Component::Div(Div(y(), x()))),
        Box::new(Component::Cos(Cos(c(3)))),
        y(),
    ));
    let first = t.codegen();
    let second = t.codegen();
    assert_eq!(first, second);
    let e = Expression(t, Component::VarX(VarX), Component::VarY(VarY));
    assert_eq!(e.codegen(), e.codegen());
}

#[test]
fn constant_text_truncates_to_three_decimals() {
    assert_eq!(const_to_text(0), "0.000");
    assert_eq!(const_to_text(1_234_567), "1.234");
    assert_eq!(const_to_text(-1_234_567), "-1.234");
    assert_eq!(const_to_text(999_999), "0.999");
    assert_eq!(const_to_text(-400), "-0.000");
    assert_eq!(const_to_text(1_000), "0.001");
    assert_eq!(const_to_text(12_000_000), "12.000");
}

#[test]
fn constant_text_extremes() {
    assert_eq!(const_to_text(i64::MAX), "9223372036854.775");
    assert_eq!(const_to_text(i64::MIN), "-9223372036854.775");
}

#[test]
fn depth_and_atom_queries() {
    assert_eq!(Component::VarX(VarX).depth(), 0);
    assert!(Component::RandomConst(RandomConst(0)).is_atom());
    let t = Component::Add(Add(x(), Box::new(Component::Sin(Sin(Box::new(Component::Cos(Cos(y()))))))));
    assert_eq!(t.depth(), 3);
    assert!(!t.is_atom());
    let m = Component::MixUnbounded(MixUnbounded(x(), y(), x(), Box::new(Component::Exp(Exp(x())))));
    assert_eq!(m.depth(), 2);
}
