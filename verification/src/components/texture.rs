//! Embedded textures of an imported scene.

use vstd::prelude::*;

use crate::error::{AiError, AiResult};
use crate::native::ARCH_FORMAT_HINT_LENGTH;
use crate::text::{bytes_eq, contains_nul, has_nul};
use vstd::string::StringSliceAdditionalSpecFns;

verus! {

/// One texel of an embedded texture, in the engine's BGRA order.
#[derive(Debug, Clone, Copy, PartialEq, Eq, Structural)]
pub struct Texel {
    pub b: u32,
    pub g: u32,
    pub r: u32,
    pub a: u32,
}

/// An embedded texture.
///
/// `format_hint` holds the bytes of the achievable-format hint, without the
/// terminator.  For an uncompressed texture `data` holds `width * height`
/// texels; for a compressed one `height` is zero and `width` counts the
/// compressed bytes.
pub struct Texture {
    pub width: u32,
    pub height: u32,
    pub format_hint: Vec<u8>,
    pub data: Vec<Texel>,
}

/// What a format check answers: a name longer than the hint field never
/// matches, a name holding a NUL byte cannot cross the boundary, and any
/// other name matches exactly when it equals the stored hint.
pub open spec fn check_format_spec(hint: Seq<u8>, format: Seq<u8>) -> AiResult<bool> {
    if format.len() > ARCH_FORMAT_HINT_LENGTH {
        Ok(false)
    } else if has_nul(format) {
        Err(AiError::NulError)
    } else {
        Ok(format == hint)
    }
}

impl Texture {
    /// The texture's width in pixels, or the byte size of compressed data.
    pub fn width(&self) -> (r: u32)
        ensures
            r == self.width,
    {
        self.width
    }

    /// The texture's height in pixels; zero for compressed data.
    pub fn height(&self) -> (r: u32)
        ensures
            r == self.height,
    {
        self.height
    }

    /// The texture's raw texel data.
    pub fn data_raw(&self) -> (r: &Vec<Texel>)
        ensures
            r@ == self.data@,
    {
        &self.data
    }

    /// Whether the texture's format hint equals `format`.
    pub fn check_format(&self, format: &str) -> (r: AiResult<bool>)
        ensures
            r == check_format_spec(self.format_hint@, format.spec_bytes()),
    {
        let bytes = format.as_bytes();
        if bytes.len() > ARCH_FORMAT_HINT_LENGTH {
            Ok(false)
        } else if contains_nul(bytes) {
            Err(AiError::NulError)
        } else {
            Ok(bytes_eq(bytes, self.format_hint.as_slice()))
        }
    }
}

} // verus!
