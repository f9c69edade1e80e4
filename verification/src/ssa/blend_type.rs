//! Blend modes and their integer encoding in the SSA document format.

use vstd::prelude::*;

use crate::ssa::SsaError;

verus! {

/// Compositing function applied when a part is drawn over the surface.
#[derive(Copy, Clone, Debug, PartialEq, Eq, Structural)]
pub enum BlendType {
    Mix,
    Multiply,
    Additive,
    Subtractive,
}

impl BlendType {
    /// What `from_code` returns for each integer code of the document
    /// format: exactly `0`, `1`, `2`, `3` decode, everything else is a
    /// decode error.
    pub open spec fn spec_from_code(value: int) -> Result<BlendType, SsaError> {
        if value == 0 {
            Ok(BlendType::Mix)
        } else if value == 1 {
            Ok(BlendType::Multiply)
        } else if value == 2 {
            Ok(BlendType::Additive)
        } else if value == 3 {
            Ok(BlendType::Subtractive)
        } else {
            Err(SsaError::ParseError)
        }
    }

    /// Decode the blend-type code found in a document.
    ///
    /// The format stores the code as a number; any integer encoding is
    /// widened to `i64` before decoding, and only codes `0..=3` (all of
    /// which lie in the signed 32-bit range) name a blend mode.
    pub fn from_code(value: i64) -> (r: Result<BlendType, SsaError>)
        ensures
            r == BlendType::spec_from_code(value as int),
    {
        match value {
            0 => Ok(BlendType::Mix),
            1 => Ok(BlendType::Multiply),
            2 => Ok(BlendType::Additive),
            3 => Ok(BlendType::Subtractive),
            _ => Err(SsaError::ParseError),
        }
    }
}

/// Renderer blend state selected for a part, one per `BlendType`.
///
/// The embedding application maps each variant one-for-one onto its
/// backend's blend state: `Alpha` is ordinary alpha blending, `Multiply`
/// multiplicative blending, `Screen` additive ("screen") blending and
/// `Invert` subtractive (inverting) blending.
#[derive(Copy, Clone, Debug, PartialEq, Eq, Structural)]
pub enum RenderBlend {
    Alpha,
    Multiply,
    Screen,
    Invert,
}

/// The renderer blend state chosen for each blend mode.
pub open spec fn spec_blend_state(b: BlendType) -> RenderBlend {
    match b {
        BlendType::Mix => RenderBlend::Alpha,
        BlendType::Multiply => RenderBlend::Multiply,
        BlendType::Additive => RenderBlend::Screen,
        BlendType::Subtractive => RenderBlend::Invert,
    }
}

/// Map a part's blend mode to the renderer blend state used for its draw
/// call.
pub fn blend_state(b: BlendType) -> (r: RenderBlend)
    ensures
        r == spec_blend_state(b),
{
    match b {
        BlendType::Mix => RenderBlend::Alpha,
        BlendType::Multiply => RenderBlend::Multiply,
        BlendType::Additive => RenderBlend::Screen,
        BlendType::Subtractive => RenderBlend::Invert,
    }
}

} // verus!
