use vstd::prelude::*;

verus! {

/// How a request authenticates itself.
#[derive(PartialEq, Eq, Structural, Clone, Copy, Debug, Hash)]
pub enum AuthTypes {
    /// No authentication.
    NoAuth,
    /// A bearer token in the `Authorization` header.
    Bearer,
}

} // verus!
