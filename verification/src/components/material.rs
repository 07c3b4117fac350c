//! Materials of an imported scene.

use vstd::prelude::*;

verus! {

/// One key-value property of a material.
pub struct MaterialProperty {
    pub key: String,
    pub semantic: u32,
    pub index: u32,
    pub property_type: i32,
    pub data: Vec<u8>,
}

/// A material: a bag of typed properties.
pub struct Material {
    pub properties: Vec<MaterialProperty>,
}

impl Material {
    /// The material's properties; `None` when it has none.
    pub fn properties(&self) -> (r: Option<&Vec<MaterialProperty>>)
        ensures
            match r {
                Some(ps) => ps@ == self.properties@ && self.properties@.len() > 0,
                None => self.properties@.len() == 0,
            },
    {
        if self.properties.len() == 0 {
            None
        } else {
            Some(&self.properties)
        }
    }
}

} // verus!
