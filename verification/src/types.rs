//! Traits shared by the GPU object descriptions.

use vstd::prelude::*;

verus! {

/// Trait for objects that carry the unique id the graphics driver assigned
/// them.
pub trait HasID {
    /// The id of the object.
    spec fn spec_id(&self) -> u32;

    /// Get the id of the object.
    fn get_id(&self) -> (r: u32)
        ensures
            r == self.spec_id(),
    ;
}

/// Trait for the objects a framebuffer can treat as a texture attachment.
pub trait Texture: HasID {

}

} // verus!
