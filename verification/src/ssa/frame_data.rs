//! Per-frame draw records.

use vstd::prelude::*;

use crate::ssa::BlendType;

verus! {

/// One drawable part within a frame, reduced to the fields the playback
/// decisions read.
///
/// `image_number` indexes the owning motion's image list (zero-based);
/// after resource binding it must address a bound texture slot, which the
/// draw planner checks.  `flip_h` / `flip_v` are boolean-as-integer flags
/// (`1` means flipped).  The part's geometry (source rectangle, position,
/// rotation, scale, pivot) and its opacity are real-valued and belong to
/// the embedding application's draw pass, which keeps them alongside this
/// record, in the same frame order.
#[derive(Copy, Clone, Debug, PartialEq, Eq, Structural)]
pub struct FrameData {
    pub part_number: i32,
    pub image_number: i32,
    pub flip_h: i32,
    pub flip_v: i32,
    pub blend_type: BlendType,
}

} // verus!
