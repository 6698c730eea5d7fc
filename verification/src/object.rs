//! Opaque managed-object addresses.
use vstd::prelude::*;

verus! {

/// Opaque managed-object address received from or handed to CoreCLR.
///
/// The runtime owns the managed object. The library only passes the address
/// around as an integer and never interprets the memory behind it. It has no
/// textual form of its own: the pointer formatting that the runtime side
/// expects (`Object(0x…)`) belongs to the ABI type at the native edge.
#[derive(Clone, Copy, PartialEq, Eq, Structural)]
pub struct Object(usize);

impl View for Object {
    type V = usize;

    closed spec fn view(&self) -> usize {
        self.0
    }
}

impl Object {
    /// Wraps an address without dereferencing it or taking ownership.
    pub fn from_ptr(address: usize) -> (object: Object)
        ensures
            object@ == address,
    {
        Object(address)
    }

    /// Returns the wrapped address.
    pub fn as_ptr(self) -> (address: usize)
        ensures
            address == self@,
    {
        self.0
    }

    /// Whether the address is null.
    pub fn is_null(self) -> (r: bool)
        ensures
            r == (self@ == 0),
    {
        self.0 == 0
    }
}

} // verus!
