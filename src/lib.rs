//! A probabilistic grammar of arithmetic expressions over two inputs `x`
//! and `y`: depth-bounded weighted generation and textual rendering.
pub mod ast;
pub mod basic;
pub mod expression;
pub mod fixed;
pub mod generator;
pub mod random;


pub use ast::Component;
pub use expression::Expression;
