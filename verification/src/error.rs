//! What can go wrong while a block is parsed.

use vstd::prelude::*;
use crate::step::kind::{Field, StepKind};

verus! {

/// Why a block could not be turned into steps.
#[derive(Clone, Copy, Debug, PartialEq, Eq, Structural)]
pub enum ParseError {
    /// A header line of kind `kind` ended before the token of `field`.
    MissingField { kind: StepKind, field: Field },
    /// The line handed to the dispatcher holds no token.
    EmptyHeader,
}

} // verus!
