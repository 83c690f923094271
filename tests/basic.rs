use expr_pcfg::basic::{choose_node, generate_node_from_draw, generate_random_expr, Add, Const, ExprNode, Mul, NodeKind, Var};
use expr_pcfg::fixed::{const_to_plain_text, CONST_SCALE};

fn depth(n: &ExprNode) -> usize {
    match n {
        ExprNode::Const(_) | ExprNode::Var(_) => 0,
        ExprNode::Add(a) => 1 + depth(&a.0).max(depth(&a.1)),
        ExprNode::Mul(m) => 1 + depth(&m.0).max(depth(&m.1)),
    }
}

fn well_formed(n: &ExprNode) -> bool {
    match n {
        ExprNode::Const(c) => -CONST_SCALE <= c.0 && c.0 < CONST_SCALE,
        ExprNode::Var(v) => v.0 == "x" || v.0 == "y",
        ExprNode::Add(a) => well_formed(&a.0) && well_formed(&a.1),
        ExprNode::Mul(m) => well_formed(&m.0) && well_formed(&m.1),
    }
}

#[test]
fn basic_renders_operators_and_names() {
    let t = ExprNode::Add(Add(
        Box::new(ExprNode::Var(Var("x".to_string()))),
        Box::new(ExprNode::Mul(Mul(
            Box::new(ExprNode::Const(Const(500_000))),
            Box::new(ExprNode::Var(Var("y".to_string()))),
        ))),
    ));
    assert_eq!(t.codegen(), "(x + (0.5 * y))");
}

#[test]
fn basic_constant_text_is_exact_and_shortest() {
    assert_eq!(const_to_plain_text(0), "0");
    assert_eq!(const_to_plain_text(CONST_SCALE), "1");
    assert_eq!(const_to_plain_text(-CONST_SCALE), "-1");
    assert_eq!(const_to_plain_text(-250_000), "-0.25");
    assert_eq!(const_to_plain_text(123_456), "0.123456");
    assert_eq!(const_to_plain_text(100_001), "0.100001");
    assert_eq!(const_to_plain_text(-1), "-0.000001");
    assert_eq!(const_to_plain_text(2_050_000), "2.05");
    assert_eq!(Const(-750_000).codegen(), "-0.75");
}

#[test]
fn basic_choice_by_draw() {
    assert_eq!(choose_node(2, 0), Some(NodeKind::Const));
    assert_eq!(choose_node(2, 9), Some(NodeKind::Const));
    assert_eq!(choose_node(2, 10), Some(NodeKind::Var));
    assert_eq!(choose_node(2, 20), Some(NodeKind::Add));
    assert_eq!(choose_node(2, 59), Some(NodeKind::Add));
    assert_eq!(choose_node(2, 60), Some(NodeKind::Mul));
    assert_eq!(choose_node(2, 99), Some(NodeKind::Mul));
    assert_eq!(choose_node(2, 100), None);
    assert_eq!(choose_node(0, 19), Some(NodeKind::Var));
    assert_eq!(choose_node(0, 20), None);
}

#[test]
fn basic_weights() {
    assert_eq!(Const::weight(), 10);
    assert_eq!(Var::weight(), 10);
    assert_eq!(Add::weight(), 40);
    assert_eq!(Mul::weight(), 40);
}

#[test]
fn basic_generation_respects_depth_and_names() {
    let mut rng = rand::thread_rng();
    for d in 0..6usize {
        for _ in 0..40 {
            let t = generate_random_expr(d, &mut rng);
            assert!(depth(&t) <= d);
            assert!(well_formed(&t));
        }
    }
}

#[test]
fn basic_leaf_generators() {
    let mut rng = rand::thread_rng();
    for _ in 0..100 {
        match Var::generate(0, &mut rng) {
            ExprNode::Var(v) => assert!(v.0 == "x" || v.0 == "y"),
            _ => panic!("not a variable"),
        }
        match Const::generate(0, &mut rng) {
            ExprNode::Const(c) => assert!(-CONST_SCALE <= c.0 && c.0 < CONST_SCALE),
            _ => panic!("not a constant"),
        }
    }
    assert!(matches!(Add::generate(0, &mut rng), ExprNode::Const(_)));
    assert!(matches!(Mul::generate(0, &mut rng), ExprNode::Const(_)));
    assert!(matches!(Add::generate(3, &mut rng), ExprNode::Add(_)));
    assert!(matches!(Mul::generate(1, &mut rng), ExprNode::Mul(_)));
}

#[test]
fn basic_var_renders_its_name() {
    assert_eq!(Var("y".to_string()).codegen(), "y");
}

#[test]
fn basic_root_follows_the_draw() {
    let mut rng = rand::thread_rng();
    assert!(matches!(generate_node_from_draw(2, 5, &mut rng), ExprNode::Const(_)));
    assert!(matches!(generate_node_from_draw(2, 15, &mut rng), ExprNode::Var(_)));
    assert!(matches!(generate_node_from_draw(2, 20, &mut rng), ExprNode::Add(_)));
    assert!(matches!(generate_node_from_draw(2, 99, &mut rng), ExprNode::Mul(_)));
    assert!(matches!(generate_node_from_draw(0, 19, &mut rng), ExprNode::Var(_)));
}

#[test]
fn basic_variable_name_from_draw() {
    assert_eq!(Var::from_draw(0).0, "x");
    assert_eq!(Var::from_draw(7).0, "y");
    assert_eq!(Var::from_draw(usize::MAX).0, "y");
}
