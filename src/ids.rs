//! Plain identifiers for the backend resources a layout handle refers to.
use vstd::prelude::*;

verus! {

/// The conduit through which requests reach the GPU backend, named by its
/// endpoint number. A layout handle holds it only to route later requests.
#[derive(Clone, Copy, Debug, PartialEq, Eq, Structural)]
pub struct WebGPU(pub u64);

/// The backend-assigned identity of a bind-group layout: the key by which
/// every backend request about that layout is correlated.
#[derive(Clone, Copy, Debug, PartialEq, Eq, Hash, Structural)]
pub struct WebGPUBindGroupLayout(pub u64);

} // verus!
