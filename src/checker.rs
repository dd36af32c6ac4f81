//! Constraint checkers: per-kind economic rules that a transaction must obey once
//! its structure and authorization have been checked.
use crate::ledger::Output;
use crate::payload::TypedPayload;
use vstd::prelude::*;

verus! {

/// A checker that sees only the typed payloads of the consumed and created
/// outputs. It returns the transaction's priority, or why it is rejected.
pub trait SimpleConstraintChecker {
    type Error;

    /// What checking gives for these payloads.
    spec fn spec_check(&self, input_data: Seq<TypedPayload>, output_data: Seq<TypedPayload>) -> Result<u64, Self::Error>;

    fn check(&self, input_data: &[TypedPayload], output_data: &[TypedPayload]) -> (r: Result<u64, Self::Error>)
        ensures
            r == self.spec_check(input_data@, output_data@),
    ;
}

/// A checker that sees the whole consumed and created outputs, owners included.
/// It returns the transaction's priority, or why it is rejected.
pub trait ConstraintChecker {
    type Error;

    /// What checking gives for these outputs.
    spec fn spec_check(&self, inputs: Seq<Output>, outputs: Seq<Output>) -> Result<u64, Self::Error>;

    fn check(&self, inputs: &[Output], outputs: &[Output]) -> (r: Result<u64, Self::Error>)
        ensures
            r == self.spec_check(inputs@, outputs@),
    ;
}

} // verus!
