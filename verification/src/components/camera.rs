//! Cameras of an imported scene.

use vstd::prelude::*;

use crate::components::traits::Named;

verus! {

/// A camera placed in the scene.
///
/// Its numeric parameters — position, orientation, field of view, clip
/// planes — are floating-point data that stays on the engine's side of the
/// boundary.
pub struct Camera {
    pub name: String,
}

impl Named for Camera {
    open spec fn name_spec(&self) -> Seq<char> {
        self.name@
    }

    fn name(&self) -> (r: &str) {
        self.name.as_str()
    }
}

} // verus!
