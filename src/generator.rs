//! Depth-bounded weighted generation of expression trees.
//!
//! Weights are integers in hundredths. At each step the eligible productions
//! are listed in a fixed order with their weights, a draw `d` is taken
//! uniformly from `0..W` where `W` is the total, and the first production at
//! which the running remainder `d - w0 - w1 - ...` falls below zero is chosen:
//! each production is chosen on exactly as many of the `W` draws as its weight.
use vstd::prelude::*;
use crate::ast::{Add, Component, Cos, Div, Exp, MixUnbounded, Mult, RandomConst, Sin, Sqrt, VarX, VarY};
use crate::fixed::CONST_SCALE;
use crate::random::random_below;

verus! {

pub const VAR_X_WEIGHT: u64 = 33;
pub const VAR_Y_WEIGHT: u64 = 33;
pub const RANDOM_CONST_WEIGHT: u64 = 33;
pub const ADD_WEIGHT: u64 = 15;
pub const MULT_WEIGHT: u64 = 15;
pub const DIV_WEIGHT: u64 = 10;
pub const SIN_WEIGHT: u64 = 10;
pub const COS_WEIGHT: u64 = 10;
pub const EXP_WEIGHT: u64 = 5;
pub const SQRT_WEIGHT: u64 = 5;
pub const MIX_UNBOUNDED_WEIGHT: u64 = 5;

/// The kinds of atom, in the order in which a draw walks them.
#[derive(PartialEq, Eq, Structural, Debug, Clone, Copy)]
pub enum AtomKind {
    VarX,
    VarY,
    RandomConst,
}

/// The productions of a component, in the order in which a draw walks them.
#[derive(PartialEq, Eq, Structural, Debug, Clone, Copy)]
pub enum Production {
    VarX,
    VarY,
    RandomConst,
    Add,
    Mult,
    Div,
    Sin,
    Cos,
    Exp,
    Sqrt,
    MixUnbounded,
}

pub open spec fn sum(ws: Seq<u64>) -> nat
    decreases ws.len(),
{
    if ws.len() == 0 {
        0
    } else {
        (ws[0] + sum(ws.subrange(1, ws.len() as int))) as nat
    }
}

/// The index that the draw `d` selects from the weights `ws`: the first at
/// which `d` minus the weights up to and including it is below zero.
pub open spec fn pick(ws: Seq<u64>, d: int) -> nat
    decreases ws.len(),
{
    if ws.len() == 0 {
        0
    } else if d < ws[0] {
        0
    } else {
        1 + pick(ws.subrange(1, ws.len() as int), d - ws[0])
    }
}

pub open spec fn atom_weights() -> Seq<u64> {
    seq![VAR_X_WEIGHT, VAR_Y_WEIGHT, RANDOM_CONST_WEIGHT]
}

/// The eleven kinds in walking order: atoms are always eligible, operators
/// only while depth remains (an ineligible kind weighs zero).
pub open spec fn component_weights(depth: nat) -> Seq<u64> {
    let op = |w: u64|
        if depth > 0 {
            w
        } else {
            0u64
        };
    seq![
        VAR_X_WEIGHT,
        VAR_Y_WEIGHT,
        RANDOM_CONST_WEIGHT,
        op(ADD_WEIGHT),
        op(MULT_WEIGHT),
        op(DIV_WEIGHT),
        op(SIN_WEIGHT),
        op(COS_WEIGHT),
        op(EXP_WEIGHT),
        op(SQRT_WEIGHT),
        op(MIX_UNBOUNDED_WEIGHT),
    ]
}

pub open spec fn atom_at(i: nat) -> AtomKind {
    if i == 0 {
        AtomKind::VarX
    } else if i == 1 {
        AtomKind::VarY
    } else {
        AtomKind::RandomConst
    }
}

pub open spec fn production_at(i: nat) -> Production {
    if i == 0 {
        Production::VarX
    } else if i == 1 {
        Production::VarY
    } else if i == 2 {
        Production::RandomConst
    } else if i == 3 {
        Production::Add
    } else if i == 4 {
        Production::Mult
    } else if i == 5 {
        Production::Div
    } else if i == 6 {
        Production::Sin
    } else if i == 7 {
        Production::Cos
    } else if i == 8 {
        Production::Exp
    } else if i == 9 {
        Production::Sqrt
    } else {
        Production::MixUnbounded
    }
}

/// The kind of the root of a tree.
pub open spec fn production_of(r: Component) -> Production {
    match r {
        Component::VarX(_) => Production::VarX,
        Component::VarY(_) => Production::VarY,
        Component::RandomConst(_) => Production::RandomConst,
        Component::Add(_) => Production::Add,
        Component::Mult(_) => Production::Mult,
        Component::Div(_) => Production::Div,
        Component::Sin(_) => Production::Sin,
        Component::Cos(_) => Production::Cos,
        Component::Exp(_) => Production::Exp,
        Component::Sqrt(_) => Production::Sqrt,
        Component::MixUnbounded(_) => Production::MixUnbounded,
    }
}

/// The kind of an atom; `RandomConst` for any other node.
pub open spec fn atom_kind_of(r: Component) -> AtomKind {
    match r {
        Component::VarX(_) => AtomKind::VarX,
        Component::VarY(_) => AtomKind::VarY,
        _ => AtomKind::RandomConst,
    }
}

/// A draw below the total selects an index in range whose weight is positive.
pub proof fn lemma_pick_in_range(ws: Seq<u64>, d: int)
    requires
        0 <= d < sum(ws),
    ensures
        pick(ws, d) < ws.len(),
        ws[pick(ws, d) as int] > 0,
    decreases ws.len(),
{
    if ws.len() > 0 && d >= ws[0] {
        let rest = ws.subrange(1, ws.len() as int);
        lemma_pick_in_range(rest, d - ws[0]);
        assert(ws[pick(ws, d) as int] == rest[pick(rest, d - ws[0]) as int]);
    }
}

proof fn lemma_sum_skip(ws: Seq<u64>, i: int)
    requires
        0 <= i < ws.len(),
    ensures
        sum(ws.subrange(i, ws.len() as int)) == ws[i] + sum(ws.subrange(i + 1, ws.len() as int)),
{
    let s = ws.subrange(i, ws.len() as int);
    assert(s.subrange(1, s.len() as int) =~= ws.subrange(i + 1, ws.len() as int));
}

proof fn lemma_sum_suffix_le(ws: Seq<u64>, i: int)
    requires
        0 <= i <= ws.len(),
    ensures
        sum(ws.subrange(i, ws.len() as int)) <= sum(ws),
    decreases i,
{
    if i > 0 {
        lemma_sum_skip(ws, i - 1);
        lemma_sum_suffix_le(ws, i - 1);
    } else {
        assert(ws.subrange(0, ws.len() as int) =~= ws);
    }
}

/// Weights each at most `b` sum to at most `b` times their number.
pub(crate) proof fn lemma_sum_bound(ws: Seq<u64>, b: nat)
    requires
        forall|i: int| 0 <= i < ws.len() ==> ws[i] <= b,
    ensures
        sum(ws) <= b * ws.len(),
    decreases ws.len(),
{
    if ws.len() > 0 {
        let rest = ws.subrange(1, ws.len() as int);
        assert forall|i: int| 0 <= i < rest.len() implies rest[i] <= b by {
            assert(rest[i] == ws[i + 1]);
        }
        lemma_sum_bound(rest, b);
        assert(b * ws.len() == b + b * rest.len()) by (nonlinear_arith)
            requires
                ws.len() == rest.len() + 1,
        ;
    }
}

/// The sum of the weights.
pub fn total_weight(weights: &Vec<u64>) -> (r: u64)
    requires
        sum(weights@) <= u64::MAX,
    ensures
        r == sum(weights@),
{
    let ghost ws = weights@;
    let mut i: usize = weights.len();
    let mut acc: u64 = 0;
    assert(ws.subrange(ws.len() as int, ws.len() as int) =~= Seq::<u64>::empty());
    while i > 0
        invariant
            i <= ws.len(),
            ws == weights@,
            acc == sum(ws.subrange(i as int, ws.len() as int)),
            sum(ws) <= u64::MAX,
        decreases i,
    {
        i = i - 1;
        proof {
            lemma_sum_skip(ws, i as int);
            lemma_sum_suffix_le(ws, i as int);
        }
        acc = acc + weights[i];
    }
    assert(ws.subrange(0, ws.len() as int) =~= ws);
    acc
}

/// Roulette-wheel selection: the index that `draw` selects from `weights`,
/// or `None` when `draw` is not below their sum (always so when every
/// weight is zero).
pub fn roulette_select(weights: &Vec<u64>, draw: u64) -> (r: Option<usize>)
    ensures
        r.is_some() == (draw < sum(weights@)),
        r matches Some(i) ==> i == pick(weights@, draw as int) && i < weights@.len()
            && weights@[i as int] > 0,
{
    let ghost ws = weights@;
    let mut i: usize = 0;
    let mut rem: u64 = draw;
    assert(ws.subrange(0, ws.len() as int) =~= ws);
    while i < weights.len()
        invariant
            i <= ws.len(),
            ws == weights@,
            pick(ws, draw as int) == i + pick(ws.subrange(i as int, ws.len() as int), rem as int),
            (draw < sum(ws)) == (rem < sum(ws.subrange(i as int, ws.len() as int))),
        decreases ws.len() - i,
    {
        let ghost rest = ws.subrange(i as int, ws.len() as int);
        proof {
            lemma_sum_skip(ws, i as int);
            assert(rest.subrange(1, rest.len() as int) =~= ws.subrange(i + 1, ws.len() as int));
        }
        if rem < weights[i] {
            return Some(i);
        }
        rem = rem - weights[i];
        i = i + 1;
    }
    assert(ws.subrange(i as int, ws.len() as int) =~= Seq::<u64>::empty());
    None
}

fn atom_weight_table() -> (v: Vec<u64>)
    ensures
        v@ == atom_weights(),
        sum(v@) <= 300,
{
    let v = vec![VarX::weight(), VarY::weight(), RandomConst::weight()];
    assert(v@ =~= atom_weights());
    proof {
        lemma_sum_bound(v@, 100);
    }
    v
}

fn component_weight_table(depth: usize) -> (v: Vec<u64>)
    ensures
        v@ == component_weights(depth as nat),
        sum(v@) <= 1100,
{
    let on = depth > 0;
    let v = vec![
        VarX::weight(),
        VarY::weight(),
        RandomConst::weight(),
        if on { Add::weight() } else { 0 },
        if on { Mult::weight() } else { 0 },
        if on { Div::weight() } else { 0 },
        if on { Sin::weight() } else { 0 },
        if on { Cos::weight() } else { 0 },
        if on { Exp::weight() } else { 0 },
        if on { Sqrt::weight() } else { 0 },
        if on { MixUnbounded::weight() } else { 0 },
    ];
    assert(v@ =~= component_weights(depth as nat));
    proof {
        lemma_sum_bound(v@, 100);
    }
    v
}

/// The atom kind that `draw` selects, or `None` when `draw` is not below the
/// total atom weight.
pub fn choose_atom(draw: u64) -> (r: Option<AtomKind>)
    ensures
        r == if draw < sum(atom_weights()) {
            Some(atom_at(pick(atom_weights(), draw as int)))
        } else {
            None::<AtomKind>
        },
{
    let weights = atom_weight_table();
    match roulette_select(&weights, draw) {
        Some(i) => Some(
            if i == 0 {
                AtomKind::VarX
            } else if i == 1 {
                AtomKind::VarY
            } else {
                AtomKind::RandomConst
            },
        ),
        None => None,
    }
}

/// The production of a component that `draw` selects at the given remaining
/// depth, or `None` when `draw` is not below the total weight there.
pub fn choose_production(depth: usize, draw: u64) -> (r: Option<Production>)
    ensures
        r == if draw < sum(component_weights(depth as nat)) {
            Some(production_at(pick(component_weights(depth as nat), draw as int)))
        } else {
            None::<Production>
        },
{
    let weights = component_weight_table(depth);
    match roulette_select(&weights, draw) {
        Some(i) => Some(
            if i == 0 {
                Production::VarX
            } else if i == 1 {
                Production::VarY
            } else if i == 2 {
                Production::RandomConst
            } else if i == 3 {
                Production::Add
            } else if i == 4 {
                Production::Mult
            } else if i == 5 {
                Production::Div
            } else if i == 6 {
                Production::Sin
            } else if i == 7 {
                Production::Cos
            } else if i == 8 {
                Production::Exp
            } else if i == 9 {
                Production::Sqrt
            } else {
                Production::MixUnbounded
            },
        ),
        None => None,
    }
}

/// What holds of every tree that generation at remaining depth `depth` may
/// produce: no deeper than `depth`, an atom when no depth remains, and every
/// constant in `[-1, 1)`.
pub open spec fn generated(r: Component, depth: nat) -> bool {
    &&& r.depth_spec() <= depth
    &&& depth == 0 ==> r.is_atom_spec()
    &&& r.consts_in_range()
}

/// Builds the atom that `draw` selects: `x`, `y`, or a constant drawn from `rng`.
pub fn generate_atom_from_draw(draw: u64, rng: &mut rand::rngs::ThreadRng) -> (r: Component)
    requires
        draw < sum(atom_weights()),
    ensures
        r.is_atom_spec(),
        r.consts_in_range(),
        atom_kind_of(r) == atom_at(pick(atom_weights(), draw as int)),
{
    match choose_atom(draw) {
        Some(AtomKind::VarX) => VarX::generate(0, rng),
        Some(AtomKind::VarY) => VarY::generate(0, rng),
        _ => RandomConst::generate(0, rng),
    }
}

/// Draws one atom: `x`, `y` or a fresh constant, by their weights; a
/// constant when the weights leave nothing to draw from.
pub fn generate_atom(rng: &mut rand::rngs::ThreadRng) -> (r: Component)
    ensures
        r.is_atom_spec(),
        r.consts_in_range(),
{
    let weights = atom_weight_table();
    let total = total_weight(&weights);
    if total == 0 {
        return RandomConst::generate(0, rng);
    }
    let draw = random_below(rng, total);
    generate_atom_from_draw(draw, rng)
}

/// Builds the tree whose root is the kind that `draw` selects at remaining
/// depth `depth`; an operator's children are drawn from `rng` at `depth - 1`.
pub fn generate_from_draw(depth: usize, draw: u64, rng: &mut rand::rngs::ThreadRng) -> (r: Component)
    requires
        draw < sum(component_weights(depth as nat)),
    ensures
        generated(r, depth as nat),
        production_of(r) == production_at(pick(component_weights(depth as nat), draw as int)),
    decreases depth, 1nat,
{
    proof {
        lemma_pick_in_range(component_weights(depth as nat), draw as int);
    }
    match choose_production(depth, draw) {
        Some(Production::VarX) => VarX::generate(depth, rng),
        Some(Production::VarY) => VarY::generate(depth, rng),
        Some(Production::Add) => Add::generate(depth, rng),
        Some(Production::Mult) => Mult::generate(depth, rng),
        Some(Production::Div) => Div::generate(depth, rng),
        Some(Production::Sin) => Sin::generate(depth, rng),
        Some(Production::Cos) => Cos::generate(depth, rng),
        Some(Production::Exp) => Exp::generate(depth, rng),
        Some(Production::Sqrt) => Sqrt::generate(depth, rng),
        Some(Production::MixUnbounded) => MixUnbounded::generate(depth, rng),
        _ => RandomConst::generate(depth, rng),
    }
}

/// Draws one tree of depth at most `depth`, choosing among the eligible kinds
/// by weight; an atom when the weights leave nothing to draw from.
pub fn generate_component(depth: usize, rng: &mut rand::rngs::ThreadRng) -> (r: Component)
    ensures
        generated(r, depth as nat),
    decreases depth, 2nat,
{
    let weights = component_weight_table(depth);
    let total = total_weight(&weights);
    if total == 0 {
        return generate_atom(rng);
    }
    let draw = random_below(rng, total);
    generate_from_draw(depth, draw, rng)
}

impl VarX {
    pub fn weight() -> (r: u64)
        ensures
            r == VAR_X_WEIGHT,
    {
        VAR_X_WEIGHT
    }

    pub fn generate(_depth: usize, _rng: &mut rand::rngs::ThreadRng) -> (r: Component)
        ensures
            r matches Component::VarX(_),
    {
        Component::VarX(VarX)
    }
}

impl VarY {
    pub fn weight() -> (r: u64)
        ensures
            r == VAR_Y_WEIGHT,
    {
        VAR_Y_WEIGHT
    }

    pub fn generate(_depth: usize, _rng: &mut rand::rngs::ThreadRng) -> (r: Component)
        ensures
            r matches Component::VarY(_),
    {
        Component::VarY(VarY)
    }
}

impl RandomConst {
    pub fn weight() -> (r: u64)
        ensures
            r == RANDOM_CONST_WEIGHT,
    {
        RANDOM_CONST_WEIGHT
    }

    /// A constant drawn uniformly from `[-1, 1)`, to the resolution of `CONST_SCALE`.
    pub fn generate(_depth: usize, rng: &mut rand::rngs::ThreadRng) -> (r: Component)
        ensures
            r matches Component::RandomConst(c) && -CONST_SCALE <= c.0 < CONST_SCALE,
    {
        let draw = random_below(rng, 2 * (CONST_SCALE as u64));
        Component::RandomConst(RandomConst(draw as i64 - CONST_SCALE))
    }
}

impl Add {
    pub fn weight() -> (r: u64)
        ensures
            r == ADD_WEIGHT,
    {
        ADD_WEIGHT
    }

    /// Draws the children at `depth - 1`, in order; with no depth left, an atom.
    pub fn generate(depth: usize, rng: &mut rand::rngs::ThreadRng) -> (r: Component)
        ensures
            generated(r, depth as nat),
            depth > 0 ==> r matches Component::Add(_),
        decreases depth, 0nat,
    {
        if depth == 0 {
            return generate_atom(rng);
        }
        let c0 = generate_component(depth - 1, rng);
        let c1 = generate_component(depth - 1, rng);
        Component::Add(Add(Box::new(c0), Box::new(c1)))
    }
}

impl Mult {
    pub fn weight() -> (r: u64)
        ensures
            r == MULT_WEIGHT,
    {
        MULT_WEIGHT
    }

    /// Draws the children at `depth - 1`, in order; with no depth left, an atom.
    pub fn generate(depth: usize, rng: &mut rand::rngs::ThreadRng) -> (r: Component)
        ensures
            generated(r, depth as nat),
            depth > 0 ==> r matches Component::Mult(_),
        decreases depth, 0nat,
    {
        if depth == 0 {
            return generate_atom(rng);
        }
        let c0 = generate_component(depth - 1, rng);
        let c1 = generate_component(depth - 1, rng);
        Component::Mult(Mult(Box::new(c0), Box::new(c1)))
    }
}

impl Div {
    pub fn weight() -> (r: u64)
        ensures
            r == DIV_WEIGHT,
    {
        DIV_WEIGHT
    }

    /// Draws the children at `depth - 1`, in order; with no depth left, an atom.
    pub fn generate(depth: usize, rng: &mut rand::rngs::ThreadRng) -> (r: Component)
        ensures
            generated(r, depth as nat),
            depth > 0 ==> r matches Component::Div(_),
        decreases depth, 0nat,
    {
        if depth == 0 {
            return generate_atom(rng);
        }
        let c0 = generate_component(depth - 1, rng);
        let c1 = generate_component(depth - 1, rng);
        Component::Div(Div(Box::new(c0), Box::new(c1)))
    }
}

impl Sin {
    pub fn weight() -> (r: u64)
        ensures
            r == SIN_WEIGHT,
    {
        SIN_WEIGHT
    }

    /// Draws the children at `depth - 1`, in order; with no depth left, an atom.
    pub fn generate(depth: usize, rng: &mut rand::rngs::ThreadRng) -> (r: Component)
        ensures
            generated(r, depth as nat),
            depth > 0 ==> r matches Component::Sin(_),
        decreases depth, 0nat,
    {
        if depth == 0 {
            return generate_atom(rng);
        }
        let c0 = generate_component(depth - 1, rng);
        Component::Sin(Sin(Box::new(c0)))
    }
}

impl Cos {
    pub fn weight() -> (r: u64)
        ensures
            r == COS_WEIGHT,
    {
        COS_WEIGHT
    }

    /// Draws the children at `depth - 1`, in order; with no depth left, an atom.
    pub fn generate(depth: usize, rng: &mut rand::rngs::ThreadRng) -> (r: Component)
        ensures
            generated(r, depth as nat),
            depth > 0 ==> r matches Component::Cos(_),
        decreases depth, 0nat,
    {
        if depth == 0 {
            return generate_atom(rng);
        }
        let c0 = generate_component(depth - 1, rng);
        Component::Cos(Cos(Box::new(c0)))
    }
}

impl Exp {
    pub fn weight() -> (r: u64)
        ensures
            r == EXP_WEIGHT,
    {
        EXP_WEIGHT
    }

    /// Draws the children at `depth - 1`, in order; with no depth left, an atom.
    pub fn generate(depth: usize, rng: &mut rand::rngs::ThreadRng) -> (r: Component)
        ensures
            generated(r, depth as nat),
            depth > 0 ==> r matches Component::Exp(_),
        decreases depth, 0nat,
    {
        if depth == 0 {
            return generate_atom(rng);
        }
        let c0 = generate_component(depth - 1, rng);
        Component::Exp(Exp(Box::new(c0)))
    }
}

impl Sqrt {
    pub fn weight() -> (r: u64)
        ensures
            r == SQRT_WEIGHT,
    {
        SQRT_WEIGHT
    }

    /// Draws the children at `depth - 1`, in order; with no depth left, an atom.
    pub fn generate(depth: usize, rng: &mut rand::rngs::ThreadRng) -> (r: Component)
        ensures
            generated(r, depth as nat),
            depth > 0 ==> r matches Component::Sqrt(_),
        decreases depth, 0nat,
    {
        if depth == 0 {
            return generate_atom(rng);
        }
        let c0 = generate_component(depth - 1, rng);
        Component::Sqrt(Sqrt(Box::new(c0)))
    }
}

impl MixUnbounded {
    pub fn weight() -> (r: u64)
        ensures
            r == MIX_UNBOUNDED_WEIGHT,
    {
        MIX_UNBOUNDED_WEIGHT
    }

    /// Draws the children at `depth - 1`, in order; with no depth left, an atom.
    pub fn generate(depth: usize, rng: &mut rand::rngs::ThreadRng) -> (r: Component)
        ensures
            generated(r, depth as nat),
            depth > 0 ==> r matches Component::MixUnbounded(_),
        decreases depth, 0nat,
    {
        if depth == 0 {
            return generate_atom(rng);
        }
        let c0 = generate_component(depth - 1, rng);
        let c1 = generate_component(depth - 1, rng);
        let c2 = generate_component(depth - 1, rng);
        let c3 = generate_component(depth - 1, rng);
        Component::MixUnbounded(MixUnbounded(Box::new(c0), Box::new(c1), Box::new(c2), Box::new(c3)))
    }
}

} // verus!
