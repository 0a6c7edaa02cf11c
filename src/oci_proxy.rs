//! Handle on the upstream registry's address.

use vstd::prelude::*;

verus! {

/// The upstream registry a gateway forwards to.
#[derive(Clone, Debug)]
pub struct OciProxy {
    base_address: String,
}

impl OciProxy {
    /// The upstream base address.
    pub closed spec fn base(&self) -> Seq<char> {
        self.base_address@
    }

    /// Creates a handle on the registry at `base_address`.
    pub fn new(base_address: String) -> (r: OciProxy)
        ensures
            r.base() == base_address@,
    {
        OciProxy { base_address }
    }
}

} // verus!
