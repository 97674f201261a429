//! Word wrapping, which this crate leaves to `textwrap`.

use vstd::prelude::*;

verus! {

/// The text that `textwrap::fill` gives for `text` at `width` columns, with
/// that crate's default options. It depends on the two arguments alone; what
/// it is on given values is not stated here.
pub uninterp spec fn filled(text: Seq<char>, width: usize) -> Seq<char>;

/// Calls `textwrap::fill`, which breaks the lines of `text` between words so
/// that they fit into `width` columns where they can, drops the spaces at
/// the end of each line and joins the lines with newlines.
///
/// Taken on trust, not proved: that the call returns, and that what it
/// returns depends on `text` and `width` alone. The contract gives that
/// result its name, [`filled`], and claims nothing else of it.
#[verifier::external_body]
pub(crate) fn fill(text: &str, width: usize) -> (out: String)
    ensures
        out@ == filled(text@, width),
{
    textwrap::fill(text, width)
}

} // verus!
