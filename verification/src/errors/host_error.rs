use vstd::prelude::*;

verus! {

/// The host refused a request.
#[derive(Debug, Clone, Copy, PartialEq, Eq, Structural)]
pub struct HostError;

} // verus!
