//! Transformations between stages.
use vstd::prelude::*;

use crate::traits::TransformationError;

verus! {

/// Hands its input on unchanged.
#[derive(Debug)]
pub struct IdentityTransformer;

impl IdentityTransformer {
    /// Returns the input as it came.
    pub fn transform<T>(&self, input: T) -> (r: Result<T, TransformationError>)
        ensures
            r is Ok && r->Ok_0 == input,
    {
        Ok(input)
    }
}

} // verus!
