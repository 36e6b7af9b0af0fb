//! Models of optional and fallible text, shared by the contracts.

use crate::error::{Failure, RenderError};
use vstd::prelude::*;

verus! {

/// The model of an optional text.
pub open spec fn text_of(s: Option<String>) -> Option<Seq<char>> {
    match s {
        Some(s) => Some(s@),
        None => None,
    }
}

/// The model of an outcome that is either text or a failure.
pub open spec fn outcome(r: Result<String, RenderError>) -> Result<Seq<char>, Failure> {
    match r {
        Ok(text) => Ok(text@),
        Err(error) => Err(error@),
    }
}

} // verus!
