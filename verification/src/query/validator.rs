//! The validation capability shared by every constrained value.

use vstd::prelude::*;
use crate::errors::ConnpassCliError;

verus! {

/// A value that has a rule to meet before it may enter a query.
///
/// `validate` hands the value back unchanged when the rule holds, and
/// otherwise returns the error that `rejection` describes.
pub trait Validator: Sized {
    /// Whether the value meets its rule.
    spec fn valid(&self) -> bool;

    /// Whether `e` is the error that rejects this value.
    spec fn rejection(&self, e: ConnpassCliError) -> bool;

    fn validate(self) -> (r: Result<Self, ConnpassCliError>)
        ensures
            match r {
                Ok(v) => self.valid() && v == self,
                Err(e) => !self.valid() && self.rejection(e),
            },
    ;
}

} // verus!
