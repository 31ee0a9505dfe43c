use vstd::prelude::*;

verus! {

/// The failures that the calculator reports to its caller.
#[derive(Debug)]
pub enum CalcError {
    /// A failure of the surrounding service, with its message.
    InternalServer(String),
    /// A token that should be a number could not be read as one.
    ParsingFailed,
    /// There was no operand to work on.
    EmptyBuffer,
}

impl CalcError {
    /// The text shown to the user for this failure.
    pub fn message(&self) -> (r: String)
        ensures
            self is InternalServer ==> r@ == self->InternalServer_0@,
            self is ParsingFailed ==> r@ == "Failed to parse data"@,
            self is EmptyBuffer ==> r@ == "Nothing to calculate"@,
    {
        match self {
            CalcError::InternalServer(msg) => msg.clone(),
            CalcError::ParsingFailed => String::from_str("Failed to parse data"),
            CalcError::EmptyBuffer => String::from_str("Nothing to calculate"),
        }
    }
}

} // verus!
