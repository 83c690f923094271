//! The closed grammar of expression trees.
//!
//! `A ::= x | y | c` with `c` a constant in `[-1, 1)`;
//! `C ::= A | Add(C, C) | Mult(C, C) | Div(C, C) | Sin(C) | Cos(C) | Exp(C)
//! | Sqrt(C) | MixUnbounded(C, C, C, C)`.
use vstd::prelude::*;
use crate::fixed::{CONST_SCALE, const_text, const_to_text};

verus! {

/// The variable `x`.
pub struct VarX;

/// The variable `y`.
pub struct VarY;

/// A constant fixed at generation time, in millionths (see `CONST_SCALE`).
pub struct RandomConst(pub i64);

/// `l + r`.
pub struct Add(pub Box<Component>, pub Box<Component>);

/// `l * r`.
pub struct Mult(pub Box<Component>, pub Box<Component>);

/// `l / r`, guarded against a denominator near zero.
pub struct Div(pub Box<Component>, pub Box<Component>);

/// `sin(c)`.
pub struct Sin(pub Box<Component>);

/// `cos(c)`.
pub struct Cos(pub Box<Component>);

/// `exp(c)`, clamped from above.
pub struct Exp(pub Box<Component>);

/// `sqrt(abs(c))`.
pub struct Sqrt(pub Box<Component>);

/// `(a * b + c * d) / (1 + |a| + |b|)`.
pub struct MixUnbounded(pub Box<Component>, pub Box<Component>, pub Box<Component>, pub Box<Component>);

/// One node of an expression tree: an atom or an operator owning its children.
pub enum Component {
    VarX(VarX),
    VarY(VarY),
    RandomConst(RandomConst),
    Add(Add),
    Mult(Mult),
    Div(Div),
    Sin(Sin),
    Cos(Cos),
    Exp(Exp),
    Sqrt(Sqrt),
    MixUnbounded(MixUnbounded),
}

pub open spec fn max2(a: nat, b: nat) -> nat {
    if a >= b {
        a
    } else {
        b
    }
}

impl Component {
    /// Whether the node is a leaf of the grammar.
    pub open spec fn is_atom_spec(&self) -> bool {
        match self {
            Component::VarX(_) | Component::VarY(_) | Component::RandomConst(_) => true,
            _ => false,
        }
    }

    /// Length of the longest path from this node down to a leaf, in edges.
    pub open spec fn depth_spec(&self) -> nat
        decreases self,
    {
        match self {
            Component::VarX(_) | Component::VarY(_) | Component::RandomConst(_) => 0,
            Component::Add(n) => 1 + max2(n.0.depth_spec(), n.1.depth_spec()),
            Component::Mult(n) => 1 + max2(n.0.depth_spec(), n.1.depth_spec()),
            Component::Div(n) => 1 + max2(n.0.depth_spec(), n.1.depth_spec()),
            Component::Sin(n) => 1 + n.0.depth_spec(),
            Component::Cos(n) => 1 + n.0.depth_spec(),
            Component::Exp(n) => 1 + n.0.depth_spec(),
            Component::Sqrt(n) => 1 + n.0.depth_spec(),
            Component::MixUnbounded(n) => 1 + max2(
                max2(n.0.depth_spec(), n.1.depth_spec()),
                max2(n.2.depth_spec(), n.3.depth_spec()),
            ),
        }
    }

    /// Every constant in the tree lies in `[-1, 1)`.
    pub open spec fn consts_in_range(&self) -> bool
        decreases self,
    {
        match self {
            Component::VarX(_) | Component::VarY(_) => true,
            Component::RandomConst(c) => -CONST_SCALE <= c.0 < CONST_SCALE,
            Component::Add(n) => n.0.consts_in_range() && n.1.consts_in_range(),
            Component::Mult(n) => n.0.consts_in_range() && n.1.consts_in_range(),
            Component::Div(n) => n.0.consts_in_range() && n.1.consts_in_range(),
            Component::Sin(n) => n.0.consts_in_range(),
            Component::Cos(n) => n.0.consts_in_range(),
            Component::Exp(n) => n.0.consts_in_range(),
            Component::Sqrt(n) => n.0.consts_in_range(),
            Component::MixUnbounded(n) => n.0.consts_in_range() && n.1.consts_in_range()
                && n.2.consts_in_range() && n.3.consts_in_range(),
        }
    }

    /// The rendered formula: binary operators as `(l op r)`, unary ones as
    /// `f(c)`, the mix as `mix(a, b, c, d)`, constants with three decimals.
    pub open spec fn text(&self) -> Seq<char>
        decreases self,
    {
        match self {
            Component::VarX(_) => "x"@,
            Component::VarY(_) => "y"@,
            Component::RandomConst(c) => const_text(c.0 as int),
            Component::Add(n) => "("@ + n.0.text() + " + "@ + n.1.text() + ")"@,
            Component::Mult(n) => "("@ + n.0.text() + " * "@ + n.1.text() + ")"@,
            Component::Div(n) => "("@ + n.0.text() + " / "@ + n.1.text() + ")"@,
            Component::Sin(n) => "sin("@ + n.0.text() + ")"@,
            Component::Cos(n) => "cos("@ + n.0.text() + ")"@,
            Component::Exp(n) => "exp("@ + n.0.text() + ")"@,
            Component::Sqrt(n) => "sqrt(abs("@ + n.0.text() + "))"@,
            Component::MixUnbounded(n) => "mix("@ + n.0.text() + ", "@ + n.1.text() + ", "@
                + n.2.text() + ", "@ + n.3.text() + ")"@,
        }
    }

    /// Whether the node is a leaf of the grammar.
    pub fn is_atom(&self) -> (r: bool)
        ensures
            r == self.is_atom_spec(),
    {
        match self {
            Component::VarX(_) | Component::VarY(_) | Component::RandomConst(_) => true,
            _ => false,
        }
    }

    /// The depth of the tree, saturating at `usize::MAX`.
    pub fn depth(&self) -> (r: usize)
        ensures
            r == if self.depth_spec() <= usize::MAX {
                self.depth_spec()
            } else {
                usize::MAX as nat
            },
        decreases self,
    {
        let below: usize = match self {
            Component::VarX(_) | Component::VarY(_) | Component::RandomConst(_) => {
                return 0;
            },
            Component::Add(n) => max_usize(n.0.depth(), n.1.depth()),
            Component::Mult(n) => max_usize(n.0.depth(), n.1.depth()),
            Component::Div(n) => max_usize(n.0.depth(), n.1.depth()),
            Component::Sin(n) => n.0.depth(),
            Component::Cos(n) => n.0.depth(),
            Component::Exp(n) => n.0.depth(),
            Component::Sqrt(n) => n.0.depth(),
            Component::MixUnbounded(n) => max_usize(
                max_usize(n.0.depth(), n.1.depth()),
                max_usize(n.2.depth(), n.3.depth()),
            ),
        };
        below.saturating_add(1)
    }

    /// Renders the tree as a formula.
    pub fn codegen(&self) -> (r: String)
        ensures
            r@ == self.text(),
        decreases self,
    {
        match self {
            Component::VarX(n) => n.codegen(),
            Component::VarY(n) => n.codegen(),
            Component::RandomConst(n) => n.codegen(),
            Component::Add(n) => n.codegen(),
            Component::Mult(n) => n.codegen(),
            Component::Div(n) => n.codegen(),
            Component::Sin(n) => n.codegen(),
            Component::Cos(n) => n.codegen(),
            Component::Exp(n) => n.codegen(),
            Component::Sqrt(n) => n.codegen(),
            Component::MixUnbounded(n) => n.codegen(),
        }
    }
}

fn max_usize(a: usize, b: usize) -> (r: usize)
    ensures
        r == max2(a as nat, b as nat),
{
    if a >= b {
        a
    } else {
        b
    }
}

/// `(l sep r)`, the shape shared by the binary operators.
pub(crate) fn render_binary(l: String, sep: &str, r: String) -> (s: String)
    ensures
        s@ == "("@ + l@ + sep@ + r@ + ")"@,
{
    let mut s = String::from_str("(");
    s.append(l.as_str());
    s.append(sep);
    s.append(r.as_str());
    s.append(")");
    s
}

impl VarX {
    pub fn codegen(&self) -> (r: String)
        ensures
            r@ == "x"@,
    {
        String::from_str("x")
    }
}

impl VarY {
    pub fn codegen(&self) -> (r: String)
        ensures
            r@ == "y"@,
    {
        String::from_str("y")
    }
}

impl RandomConst {
    pub fn codegen(&self) -> (r: String)
        ensures
            r@ == const_text(self.0 as int),
    {
        const_to_text(self.0)
    }
}

impl Add {
    pub fn codegen(&self) -> (r: String)
        ensures
            r@ == "("@ + self.0.text() + " + "@ + self.1.text() + ")"@,
        decreases self,
    {
        render_binary(self.0.codegen(), " + ", self.1.codegen())
    }
}

/// `prefix (c) suffix`, the shape shared by the unary operators.
fn render_unary(prefix: &str, c: String, suffix: &str) -> (s: String)
    ensures
        s@ == prefix@ + c@ + suffix@,
{
    let mut s = String::from_str(prefix);
    s.append(c.as_str());
    s.append(suffix);
    s
}

impl Mult {
    pub fn codegen(&self) -> (r: String)
        ensures
            r@ == "("@ + self.0.text() + " * "@ + self.1.text() + ")"@,
        decreases self,
    {
        render_binary(self.0.codegen(), " * ", self.1.codegen())
    }
}

impl Div {
    pub fn codegen(&self) -> (r: String)
        ensures
            r@ == "("@ + self.0.text() + " / "@ + self.1.text() + ")"@,
        decreases self,
    {
        render_binary(self.0.codegen(), " / ", self.1.codegen())
    }
}

impl Sin {
    pub fn codegen(&self) -> (r: String)
        ensures
            r@ == "sin("@ + self.0.text() + ")"@,
        decreases self,
    {
        render_unary("sin(", self.0.codegen(), ")")
    }
}

impl Cos {
    pub fn codegen(&self) -> (r: String)
        ensures
            r@ == "cos("@ + self.0.text() + ")"@,
        decreases self,
    {
        render_unary("cos(", self.0.codegen(), ")")
    }
}

impl Exp {
    pub fn codegen(&self) -> (r: String)
        ensures
            r@ == "exp("@ + self.0.text() + ")"@,
        decreases self,
    {
        render_unary("exp(", self.0.codegen(), ")")
    }
}

impl Sqrt {
    pub fn codegen(&self) -> (r: String)
        ensures
            r@ == "sqrt(abs("@ + self.0.text() + "))"@,
        decreases self,
    {
        render_unary("sqrt(abs(", self.0.codegen(), "))")
    }
}

impl MixUnbounded {
    pub fn codegen(&self) -> (r: String)
        ensures
            r@ == "mix("@ + self.0.text() + ", "@ + self.1.text() + ", "@ + self.2.text() + ", "@
                + self.3.text() + ")"@,
        decreases self,
    {
        let mut s = String::from_str("mix(");
        let a = self.0.codegen();
        s.append(a.as_str());
        s.append(", ");
        let b = self.1.codegen();
        s.append(b.as_str());
        s.append(", ");
        let c = self.2.codegen();
        s.append(c.as_str());
        s.append(", ");
        let d = self.3.codegen();
        s.append(d.as_str());
        s.append(")");
        s
    }
}

} // verus!
