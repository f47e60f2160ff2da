//! Text of a value, made by the formatting machinery of the standard library.

use core::fmt::Write;
use vstd::prelude::*;

verus! {

/// `core::fmt::Error`: a formatting impl gave up.
#[verifier::external_type_specification]
#[verifier::external_body]
pub struct ExFmtError(core::fmt::Error);

/// `write!` with `{:?}` into a `String`: appends the debug text of `value` to
/// `text`, or hands back the error of the `Debug` impl of `T`. What is
/// written is whatever that impl writes, so nothing is claimed of `text`
/// afterwards, nor of when the error comes.
#[verifier::external_body]
pub(crate) fn write_debug<T: core::fmt::Debug>(text: &mut String, value: &T) -> Result<
    (),
    core::fmt::Error,
> {
    write!(text, "{:?}", value)
}

/// The text that a formatting run leaves: `text` where the run came to its
/// end, none where the formatting impl gave up.
pub fn written_text(text: String, outcome: Result<(), core::fmt::Error>) -> (written: Option<String>)
    ensures
        written == match outcome {
            Ok(_) => Some(text),
            Err(_) => None::<String>,
        },
{
    match outcome {
        Ok(_) => Some(text),
        Err(_) => None,
    }
}

} // verus!
