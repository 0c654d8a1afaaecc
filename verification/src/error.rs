use vstd::prelude::*;

verus! {

/// The recoverable failures of the wrapper. A protocol violation — the
/// marshaling callback invoked twice for one call, or a null handle returned
/// without a reported error — is not among them: those are programming-bug
/// verdicts that the caller must turn into an abort, never into a result.
#[derive(Debug, PartialEq, Eq)]
pub enum Error {
    /// The process-wide one-time initialization of the native library failed;
    /// the field is the stored description of that failure.
    Initialization(String),
    /// A native call reported an error through its context: the code it set
    /// and the message it carried.
    NativeCall(i32, String),
    /// Bytes recovered from the native side are not valid UTF-8 text.
    TextDecoding,
    /// A store URL holds an interior NUL byte, so it cannot be handed to the
    /// native open call as null-terminated text.
    UrlContainsNul,
}

} // verus!
