//! The CSS minifier, which is the `minifier` crate.

use vstd::prelude::*;

verus! {

/// What the minifier makes of `css`: the minified text, or the reason for
/// which it rejects the input.
pub uninterp spec fn minified(css: Seq<char>) -> Result<Seq<char>, Seq<char>>;

/// The model of an outcome of the minifier.
pub open spec fn outcome_view(r: Result<String, &'static str>) -> Result<Seq<char>, Seq<char>> {
    match r {
        Ok(text) => Ok(text@),
        Err(reason) => Err(reason@),
    }
}

/// Calls `minifier::css::minify` and formats what it returns.
///
/// Trusted: the outcome is a function of `css` alone, named by [`minified`].
#[verifier::external_body]
pub(crate) fn minify(css: &str) -> (r: Result<String, &'static str>)
    ensures
        outcome_view(r) == minified(css@),
{
    match minifier::css::minify(css) {
        Ok(sheet) => Ok(sheet.to_string()),
        Err(reason) => Err(reason),
    }
}

} // verus!
