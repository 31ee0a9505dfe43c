use vstd::prelude::*;

use crate::error::CalcError;

verus! {

/// The arithmetic action named by an operator token.
#[derive(Debug, PartialEq, Eq, Structural, Clone, Copy)]
pub enum Operations {
    Add,
    Subtract,
    Multiply,
    Divide,
    /// The token names no known operator: the running result is kept.
    NoneFound,
}

/// The characters that stand for an operator.
pub open spec fn is_operator_char_spec(c: char) -> bool {
    c == '+' || c == '-' || c == '*' || c == '/'
}

/// A text that is exactly one operator character.
pub open spec fn is_operator_text(s: Seq<char>) -> bool {
    s.len() == 1 && is_operator_char_spec(s[0])
}

/// The operation that a token's text names.
pub open spec fn operation_of(s: Seq<char>) -> Operations {
    if s =~= seq!['+'] {
        Operations::Add
    } else if s =~= seq!['-'] {
        Operations::Subtract
    } else if s =~= seq!['*'] {
        Operations::Multiply
    } else if s =~= seq!['/'] {
        Operations::Divide
    } else {
        Operations::NoneFound
    }
}

pub fn is_operator_char(c: char) -> (r: bool)
    ensures
        r == is_operator_char_spec(c),
{
    c == '+' || c == '-' || c == '*' || c == '/'
}

pub fn is_operator(val: &str) -> (r: bool)
    ensures
        r == is_operator_text(val@),
{
    val.unicode_len() == 1 && is_operator_char(val.get_char(0))
}

/// Resolves an operator token; text that names no operator gives `NoneFound`.
pub fn get_operation(sign: String) -> (r: Result<Operations, CalcError>)
    ensures
        r == Ok::<Operations, CalcError>(operation_of(sign@)),
{
    let s = sign.as_str();
    if s.unicode_len() != 1 {
        return Ok(Operations::NoneFound);
    }
    let c = s.get_char(0);
    proof {
        assert(s@ =~= seq![c]);
    }
    if c == '+' {
        Ok(Operations::Add)
    } else if c == '-' {
        Ok(Operations::Subtract)
    } else if c == '*' {
        Ok(Operations::Multiply)
    } else if c == '/' {
        Ok(Operations::Divide)
    } else {
        Ok(Operations::NoneFound)
    }
}

/// What one evaluation step does to the running result.
#[derive(Debug, PartialEq, Eq, Structural, Clone, Copy)]
pub enum StepAction {
    /// result + operand
    Add,
    /// result - operand
    Subtract,
    /// result * operand
    Multiply,
    /// result / operand, for an operand that is not zero
    Divide,
    /// the result becomes zero: division by a zero operand
    Zero,
    /// the result stays as it is
    Keep,
}

/// Decides the step for an operation and whether its operand is zero.
/// Division by zero gives zero, and an unknown operator leaves the result
/// unchanged: neither is an error.
pub fn step_action(op: Operations, operand_is_zero: bool) -> (r: StepAction)
    ensures
        op is Add ==> r is Add,
        op is Subtract ==> r is Subtract,
        op is Multiply ==> r is Multiply,
        op is Divide && !operand_is_zero ==> r is Divide,
        op is Divide && operand_is_zero ==> r is Zero,
        op is NoneFound ==> r is Keep,
{
    match op {
        Operations::Add => StepAction::Add,
        Operations::Subtract => StepAction::Subtract,
        Operations::Multiply => StepAction::Multiply,
        Operations::Divide => {
            if operand_is_zero {
                StepAction::Zero
            } else {
                StepAction::Divide
            }
        },
        Operations::NoneFound => StepAction::Keep,
    }
}

} // verus!
