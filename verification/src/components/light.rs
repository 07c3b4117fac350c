//! Light sources of an imported scene.

use vstd::prelude::*;

use crate::components::traits::Named;
use crate::native::{
    LIGHT_SOURCE_AMBIENT, LIGHT_SOURCE_AREA, LIGHT_SOURCE_DIRECTIONAL, LIGHT_SOURCE_POINT,
    LIGHT_SOURCE_SPOT, LIGHT_SOURCE_UNDEFINED,
};

verus! {

/// The kind of a light source.
#[derive(Debug, Clone, Copy, PartialEq, Eq, Structural)]
pub enum LightKind {
    Undefined,
    Directional,
    Point,
    Spotlight,
    Ambient,
    Area,
}

/// The light kind a code from the engine stands for, if any.
pub open spec fn light_kind_of(v: u32) -> Option<LightKind> {
    if v == LIGHT_SOURCE_UNDEFINED {
        Some(LightKind::Undefined)
    } else if v == LIGHT_SOURCE_DIRECTIONAL {
        Some(LightKind::Directional)
    } else if v == LIGHT_SOURCE_POINT {
        Some(LightKind::Point)
    } else if v == LIGHT_SOURCE_SPOT {
        Some(LightKind::Spotlight)
    } else if v == LIGHT_SOURCE_AMBIENT {
        Some(LightKind::Ambient)
    } else if v == LIGHT_SOURCE_AREA {
        Some(LightKind::Area)
    } else {
        None
    }
}

impl LightKind {
    /// Decodes the engine's light kind code.
    pub fn from_u32(v: u32) -> (r: Option<LightKind>)
        ensures
            r == light_kind_of(v),
    {
        if v == LIGHT_SOURCE_UNDEFINED {
            Some(LightKind::Undefined)
        } else if v == LIGHT_SOURCE_DIRECTIONAL {
            Some(LightKind::Directional)
        } else if v == LIGHT_SOURCE_POINT {
            Some(LightKind::Point)
        } else if v == LIGHT_SOURCE_SPOT {
            Some(LightKind::Spotlight)
        } else if v == LIGHT_SOURCE_AMBIENT {
            Some(LightKind::Ambient)
        } else if v == LIGHT_SOURCE_AREA {
            Some(LightKind::Area)
        } else {
            None
        }
    }
}

/// A light source placed in the scene.
///
/// `kind` holds the engine's raw kind code; positions, colors and
/// attenuation are floating-point data that stays on the engine's side of
/// the boundary.
pub struct Light {
    pub name: String,
    pub kind: u32,
}

impl Light {
    /// The kind of the light, if its code is one the library knows.
    pub fn kind(&self) -> (r: Option<LightKind>)
        ensures
            r == light_kind_of(self.kind),
    {
        LightKind::from_u32(self.kind)
    }
}

impl Named for Light {
    open spec fn name_spec(&self) -> Seq<char> {
        self.name@
    }

    fn name(&self) -> (r: &str) {
        self.name.as_str()
    }
}

} // verus!
