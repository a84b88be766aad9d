//! Identifier casing, delegated to the `convert_case` crate.

use vstd::prelude::*;

verus! {

/// The two identifier styles the generator emits.
#[derive(Debug, Clone, Copy, PartialEq, Eq, Structural)]
pub enum Case {
    /// `PascalCase`, used for type names.
    Pascal,
    /// `snake_case`, used for function, parameter and field names.
    Snake,
}

/// The text that `convert_case`'s `Casing::to_case` produces for `text` in the
/// given style, splitting words at the crate's default boundaries.
pub uninterp spec fn converted(text: Seq<char>, case: Case) -> Seq<char>;

/// Calls `convert_case::Casing::to_case` with `Case::Pascal` or `Case::Snake`.
///
/// Trusted: the conversion depends on its two arguments alone, so the result
/// is the value that [`converted`] names. Nothing else is claimed of it.
#[verifier::external_body]
pub(crate) fn to_case(text: &str, case: Case) -> (result: String)
    ensures
        result@ == converted(text@, case),
{
    let style = match case {
        Case::Pascal => convert_case::Case::Pascal,
        Case::Snake => convert_case::Case::Snake,
    };
    convert_case::Casing::to_case(&text, style)
}

} // verus!
