use vstd::prelude::*;

verus! {

/// Why a dialog operation failed. A dialog that the user cancelled is not an
/// error: it comes back as an empty result.
#[derive(Clone, Copy, Debug, PartialEq, Eq, Structural)]
pub enum DialogError {
    /// A configuration call or a terminal action was issued on a builder that
    /// a terminal action has already consumed.
    AlreadyConsumed,
    /// A native path could not be rendered as text.
    InvalidEncoding,
    /// The native layer aborted during an operation that is expected to fail
    /// gracefully (reading a handle that refers to a directory).
    NativePanic,
}

impl DialogError {
    /// The message that the host runtime shows for this error.
    pub fn reason(&self) -> (r: &'static str)
        ensures
            r@ == reason_text(*self),
    {
        match self {
            DialogError::AlreadyConsumed => "Already used",
            DialogError::InvalidEncoding => "Invalid UTF-8",
            DialogError::NativePanic => "Panic",
        }
    }
}

/// The message shown for each error.
pub open spec fn reason_text(e: DialogError) -> Seq<char> {
    match e {
        DialogError::AlreadyConsumed => "Already used"@,
        DialogError::InvalidEncoding => "Invalid UTF-8"@,
        DialogError::NativePanic => "Panic"@,
    }
}

} // verus!
