//! Identities of the objects that the window system and the graphics device
//! hand out.

use vstd::prelude::*;

verus! {

/// The identity of an object owned by the window system or by the graphics
/// device: a window, a factory, a render target or a brush.
///
/// The value is the address under which the owner knows the object. The
/// address `0` names no object.
#[derive(Clone, Copy, PartialEq, Eq, Debug, Structural)]
pub struct Handle(pub usize);

impl Handle {
    /// Whether the handle names no object.
    pub open spec fn spec_is_null(self) -> bool {
        self.0 == 0
    }

    /// The handle that names no object.
    pub fn null() -> (h: Handle)
        ensures
            h == Handle(0),
    {
        Handle(0)
    }

    /// Whether the handle names no object.
    #[verifier::when_used_as_spec(spec_is_null)]
    pub fn is_null(self) -> (b: bool)
        ensures
            b == self.spec_is_null(),
    {
        self.0 == 0
    }
}

} // verus!
