//! The root of a generated formula: three independent channels.
//! `E ::= (C, C, C)`
use vstd::prelude::*;
use crate::ast::Component;
use crate::generator::{generate_component, generated};

verus! {

/// Three independently generated trees, one per channel.
pub struct Expression(pub Component, pub Component, pub Component);

impl Expression {
    /// The rendered tuple `(c0, c1, c2)`.
    pub open spec fn text(&self) -> Seq<char> {
        "("@ + self.0.text() + ", "@ + self.1.text() + ", "@ + self.2.text() + ")"@
    }

    /// Draws the three channels at the same maximum depth, channel 0 first.
    pub fn generate(depth: usize, rng: &mut rand::rngs::ThreadRng) -> (r: Self)
        ensures
            generated(r.0, depth as nat),
            generated(r.1, depth as nat),
            generated(r.2, depth as nat),
    {
        let c0 = generate_component(depth, rng);
        let c1 = generate_component(depth, rng);
        let c2 = generate_component(depth, rng);
        Expression(c0, c1, c2)
    }

    /// Renders the three channels as a tuple.
    pub fn codegen(&self) -> (r: String)
        ensures
            r@ == self.text(),
    {
        let mut s = String::from_str("(");
        let t0 = self.0.codegen();
        s.append(t0.as_str());
        s.append(", ");
        let t1 = self.1.codegen();
        s.append(t1.as_str());
        s.append(", ");
        let t2 = self.2.codegen();
        s.append(t2.as_str());
        s.append(")");
        s
    }
}

/// Rendering has no hidden state: equal trees render to identical text, so
/// rendering one tree twice gives the same text both times.
pub proof fn lemma_render_deterministic(a: Component, b: Component)
    requires
        a == b,
    ensures
        a.text() == b.text(),
{
}

/// The same holds of a whole expression.
pub proof fn lemma_expression_render_deterministic(a: Expression, b: Expression)
    requires
        a == b,
    ensures
        a.text() == b.text(),
{
}

} // verus!
