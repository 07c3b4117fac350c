//! Traits shared by the scene's component views.

use vstd::prelude::*;

verus! {

/// A component carrying a name read from the imported data.
pub trait Named {
    /// The name as a character sequence.
    spec fn name_spec(&self) -> Seq<char>;

    /// The component's name.
    fn name(&self) -> (r: &str)
        ensures
            r@ == self.name_spec(),
    ;
}

} // verus!
