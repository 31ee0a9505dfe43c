//! The core of a browser calculator: a screen buffer of entered tokens, a
//! tokenizer that regroups the typed characters into operands and operators,
//! and the rules by which the expression is folded strictly left to right.

pub mod calc;
pub mod error;
pub mod evaluator;
pub mod ops;
pub mod templates;
pub mod tokenizer;
