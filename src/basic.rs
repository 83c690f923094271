//! The smaller grammar that the demonstration program draws from:
//! `E ::= c | v | (E + E) | (E * E)`, with `c` a constant in `[-1, 1)`
//! rendered exactly and `v` one of the variable names `x` and `y`.
use vstd::prelude::*;
use crate::ast::render_binary;
use crate::fixed::{CONST_SCALE, const_to_plain_text, plain_text};
use crate::generator::{lemma_pick_in_range, lemma_sum_bound, pick, roulette_select, sum, total_weight};
use crate::random::random_below;

verus! {

pub const CONST_WEIGHT: u64 = 10;
pub const VAR_WEIGHT: u64 = 10;
pub const ADD_WEIGHT: u64 = 40;
pub const MUL_WEIGHT: u64 = 40;

/// A constant in millionths (see `CONST_SCALE`).
pub struct Const(pub i64);

/// A variable, by name.
pub struct Var(pub String);

/// `l + r`.
pub struct Add(pub Box<ExprNode>, pub Box<ExprNode>);

/// `l * r`.
pub struct Mul(pub Box<ExprNode>, pub Box<ExprNode>);

/// One node of a tree of the smaller grammar.
pub enum ExprNode {
    Const(Const),
    Var(Var),
    Add(Add),
    Mul(Mul),
}

/// The productions, in the order in which a draw walks them.
#[derive(PartialEq, Eq, Structural, Debug, Clone, Copy)]
pub enum NodeKind {
    Const,
    Var,
    Add,
    Mul,
}

impl ExprNode {
    pub open spec fn depth_spec(&self) -> nat
        decreases self,
    {
        match self {
            ExprNode::Const(_) | ExprNode::Var(_) => 0,
            ExprNode::Add(n) => 1 + crate::ast::max2(n.0.depth_spec(), n.1.depth_spec()),
            ExprNode::Mul(n) => 1 + crate::ast::max2(n.0.depth_spec(), n.1.depth_spec()),
        }
    }

    /// Every constant lies in `[-1, 1)` and every variable is named `x` or `y`.
    pub open spec fn well_formed(&self) -> bool
        decreases self,
    {
        match self {
            ExprNode::Const(c) => -CONST_SCALE <= c.0 < CONST_SCALE,
            ExprNode::Var(v) => v.0@ == "x"@ || v.0@ == "y"@,
            ExprNode::Add(n) => n.0.well_formed() && n.1.well_formed(),
            ExprNode::Mul(n) => n.0.well_formed() && n.1.well_formed(),
        }
    }

    pub open spec fn text(&self) -> Seq<char>
        decreases self,
    {
        match self {
            ExprNode::Const(c) => plain_text(c.0 as int),
            ExprNode::Var(v) => v.0@,
            ExprNode::Add(n) => "("@ + n.0.text() + " + "@ + n.1.text() + ")"@,
            ExprNode::Mul(n) => "("@ + n.0.text() + " * "@ + n.1.text() + ")"@,
        }
    }

    /// Renders the tree as a formula.
    pub fn codegen(&self) -> (r: String)
        ensures
            r@ == self.text(),
        decreases self,
    {
        match self {
            ExprNode::Const(n) => n.codegen(),
            ExprNode::Var(n) => n.codegen(),
            ExprNode::Add(n) => n.codegen(),
            ExprNode::Mul(n) => n.codegen(),
        }
    }
}

pub open spec fn node_weights(depth: nat) -> Seq<u64> {
    seq![
        CONST_WEIGHT,
        VAR_WEIGHT,
        if depth > 0 { ADD_WEIGHT } else { 0u64 },
        if depth > 0 { MUL_WEIGHT } else { 0u64 },
    ]
}

pub open spec fn kind_at(i: nat) -> NodeKind {
    if i == 0 {
        NodeKind::Const
    } else if i == 1 {
        NodeKind::Var
    } else if i == 2 {
        NodeKind::Add
    } else {
        NodeKind::Mul
    }
}

/// The kind of the root of a tree.
pub open spec fn kind_of(r: ExprNode) -> NodeKind {
    match r {
        ExprNode::Const(_) => NodeKind::Const,
        ExprNode::Var(_) => NodeKind::Var,
        ExprNode::Add(_) => NodeKind::Add,
        ExprNode::Mul(_) => NodeKind::Mul,
    }
}

/// What holds of every tree drawn at remaining depth `depth`.
pub open spec fn generated(r: ExprNode, depth: nat) -> bool {
    r.depth_spec() <= depth && r.well_formed()
}

fn node_weight_table(depth: usize) -> (v: Vec<u64>)
    ensures
        v@ == node_weights(depth as nat),
        sum(v@) <= u64::MAX,
{
    let on = depth > 0;
    let v = vec![
        Const::weight(),
        Var::weight(),
        if on { Add::weight() } else { 0 },
        if on { Mul::weight() } else { 0 },
    ];
    assert(v@ =~= node_weights(depth as nat));
    proof {
        lemma_sum_bound(v@, 100);
    }
    v
}

/// The production that `draw` selects at the given remaining depth, or
/// `None` when `draw` is not below the total weight there.
pub fn choose_node(depth: usize, draw: u64) -> (r: Option<NodeKind>)
    ensures
        r == if draw < sum(node_weights(depth as nat)) {
            Some(kind_at(pick(node_weights(depth as nat), draw as int)))
        } else {
            None::<NodeKind>
        },
{
    let weights = node_weight_table(depth);
    match roulette_select(&weights, draw) {
        Some(i) => Some(
            if i == 0 {
                NodeKind::Const
            } else if i == 1 {
                NodeKind::Var
            } else if i == 2 {
                NodeKind::Add
            } else {
                NodeKind::Mul
            },
        ),
        None => None,
    }
}

/// Builds the tree whose root is the kind that `draw` selects at remaining
/// depth `depth`; operands are drawn from `rng` at `depth - 1`.
pub fn generate_node_from_draw(depth: usize, draw: u64, rng: &mut rand::rngs::ThreadRng) -> (r: ExprNode)
    requires
        draw < sum(node_weights(depth as nat)),
    ensures
        generated(r, depth as nat),
        kind_of(r) == kind_at(pick(node_weights(depth as nat), draw as int)),
    decreases depth, 1nat,
{
    proof {
        lemma_pick_in_range(node_weights(depth as nat), draw as int);
    }
    match choose_node(depth, draw) {
        Some(NodeKind::Var) => Var::generate(depth, rng),
        Some(NodeKind::Add) => Add::generate(depth, rng),
        Some(NodeKind::Mul) => Mul::generate(depth, rng),
        _ => Const::generate(depth, rng),
    }
}

/// Draws one tree of depth at most `depth`; a constant when the weights
/// leave nothing to draw from.
pub fn generate_random_expr(depth: usize, rng: &mut rand::rngs::ThreadRng) -> (r: ExprNode)
    ensures
        generated(r, depth as nat),
    decreases depth, 2nat,
{
    let weights = node_weight_table(depth);
    let total = total_weight(&weights);
    if total == 0 {
        return Const::generate(depth, rng);
    }
    let draw = random_below(rng, total);
    generate_node_from_draw(depth, draw, rng)
}

impl Const {
    pub fn weight() -> (r: u64)
        ensures
            r == CONST_WEIGHT,
    {
        CONST_WEIGHT
    }

    /// Renders the constant exactly, in its shortest decimal form.
    pub fn codegen(&self) -> (r: String)
        ensures
            r@ == plain_text(self.0 as int),
    {
        const_to_plain_text(self.0)
    }

    /// A constant drawn uniformly from `[-1, 1)`, to the resolution of `CONST_SCALE`.
    pub fn generate(_depth: usize, rng: &mut rand::rngs::ThreadRng) -> (r: ExprNode)
        ensures
            r matches ExprNode::Const(c) && -CONST_SCALE <= c.0 < CONST_SCALE,
    {
        let draw = random_below(rng, 2 * (CONST_SCALE as u64));
        ExprNode::Const(Const(draw as i64 - CONST_SCALE))
    }
}

impl Var {
    pub fn weight() -> (r: u64)
        ensures
            r == VAR_WEIGHT,
    {
        VAR_WEIGHT
    }

    pub fn codegen(&self) -> (r: String)
        ensures
            r@ == self.0@,
    {
        self.0.clone()
    }

    /// The variable that the drawn value `n` names: `x` when `n` is even,
    /// `y` when it is odd.
    pub fn from_draw(n: usize) -> (r: Var)
        ensures
            r.0@ == if n % 2 == 0 {
                "x"@
            } else {
                "y"@
            },
    {
        let name = if n % 2 == 0 {
            "x"
        } else {
            "y"
        };
        Var(String::from_str(name))
    }

    /// `x` or `y`, by a draw from the thread-local generator.
    pub fn generate(_depth: usize, _rng: &mut rand::rngs::ThreadRng) -> (r: ExprNode)
        ensures
            r matches ExprNode::Var(v) && (v.0@ == "x"@ || v.0@ == "y"@),
    {
        let n: usize = rand::random::<usize>();
        ExprNode::Var(Var::from_draw(n))
    }
}

impl Add {
    pub fn weight() -> (r: u64)
        ensures
            r == ADD_WEIGHT,
    {
        ADD_WEIGHT
    }

    pub fn codegen(&self) -> (r: String)
        ensures
            r@ == "("@ + self.0.text() + " + "@ + self.1.text() + ")"@,
        decreases self,
    {
        render_binary(self.0.codegen(), " + ", self.1.codegen())
    }

    /// Draws both operands at `depth - 1`, in order; with no depth left, a constant.
    pub fn generate(depth: usize, rng: &mut rand::rngs::ThreadRng) -> (r: ExprNode)
        ensures
            generated(r, depth as nat),
            depth == 0 ==> r matches ExprNode::Const(_),
            depth > 0 ==> r matches ExprNode::Add(_),
        decreases depth, 0nat,
    {
        if depth == 0 {
            return Const::generate(depth, rng);
        }
        let l = generate_random_expr(depth - 1, rng);
        let r = generate_random_expr(depth - 1, rng);
        ExprNode::Add(Add(Box::new(l), Box::new(r)))
    }
}

impl Mul {
    pub fn weight() -> (r: u64)
        ensures
            r == MUL_WEIGHT,
    {
        MUL_WEIGHT
    }

    pub fn codegen(&self) -> (r: String)
        ensures
            r@ == "("@ + self.0.text() + " * "@ + self.1.text() + ")"@,
        decreases self,
    {
        render_binary(self.0.codegen(), " * ", self.1.codegen())
    }

    /// Draws both operands at `depth - 1`, in order; with no depth left, a constant.
    pub fn generate(depth: usize, rng: &mut rand::rngs::ThreadRng) -> (r: ExprNode)
        ensures
            generated(r, depth as nat),
            depth == 0 ==> r matches ExprNode::Const(_),
            depth > 0 ==> r matches ExprNode::Mul(_),
        decreases depth, 0nat,
    {
        if depth == 0 {
            return Const::generate(depth, rng);
        }
        let l = generate_random_expr(depth - 1, rng);
        let r = generate_random_expr(depth - 1, rng);
        ExprNode::Mul(Mul(Box::new(l), Box::new(r)))
    }
}

} // verus!
