//! The two failure kinds of the runner.

use vstd::prelude::*;

verus! {

/// Why manifest text could not be turned into a `PodTask`.
///
/// Every parse failure is fatal: no partial manifest is ever produced.
#[derive(Debug, Clone, Copy, PartialEq, Eq, Structural)]
pub enum ParseError {
    /// The manifest text could not be read at all.
    Unreadable,
    /// The text is not a well-formed structured document.
    Malformed,
    /// A required field is absent from the document.
    MissingField,
}

impl DeepView for ParseError {
    type V = ParseError;

    open spec fn deep_view(&self) -> ParseError {
        *self
    }
}

/// A failure reported by the runtime service for a single RPC.
///
/// Carries the status kind and message exactly as the collaborator
/// reported them; the run never retries past such a failure.
#[derive(Debug, Clone, PartialEq, Eq)]
pub struct RpcError {
    pub kind: String,
    pub message: String,
}

/// The abstract value of an [`RpcError`].
#[verifier::ext_equal]
pub struct RpcErrorView {
    pub kind: Seq<char>,
    pub message: Seq<char>,
}

impl View for RpcError {
    type V = RpcErrorView;

    open spec fn view(&self) -> RpcErrorView {
        RpcErrorView { kind: self.kind@, message: self.message@ }
    }
}

impl DeepView for RpcError {
    type V = RpcErrorView;

    open spec fn deep_view(&self) -> RpcErrorView {
        self.view()
    }
}

} // verus!
