use vstd::prelude::*;

verus! {

/// The ways an operation across the boundary can fail.
#[derive(Clone, Copy, Debug, PartialEq, Eq, Structural)]
pub enum WebViewError {
    /// The handle was released before this use.
    UseAfterRelease,
    /// A platform handle did not have the expected shape.
    ConversionFailure,
    /// The engine refused a construction, navigation or script call.
    EngineFailure,
    /// An input string was not acceptable (for example an invalid header).
    MalformedInput,
}

} // verus!
