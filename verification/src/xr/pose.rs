//! Validity bits of the poses that the XR runtime locates.

use vstd::prelude::*;

verus! {

/// The bit that marks a located orientation as valid.
pub const ORIENTATION_VALID: u64 = 1;

/// The bit that marks a located position as valid.
pub const POSITION_VALID: u64 = 2;

/// Whether `flags` mark both the position and the orientation as valid.
pub open spec fn pose_usable(flags: u64) -> bool {
    flags & (POSITION_VALID | ORIENTATION_VALID) == (POSITION_VALID | ORIENTATION_VALID)
}

/// `openxr::ViewStateFlags::contains` on raw bits: whether every bit of
/// `wanted` is set in `flags`.
#[verifier::external_body]
fn view_flags_contain(flags: u64, wanted: u64) -> (all: bool)
    ensures
        all == (flags & wanted == wanted),
{
    openxr::ViewStateFlags::from_raw(flags).contains(openxr::ViewStateFlags::from_raw(wanted))
}

/// The raw bits of `openxr::ViewStateFlags::POSITION_VALID` or-ed with
/// `ORIENTATION_VALID`.
#[verifier::external_body]
fn view_pose_bits() -> (bits: u64)
    ensures
        bits == POSITION_VALID | ORIENTATION_VALID,
{
    (openxr::ViewStateFlags::POSITION_VALID | openxr::ViewStateFlags::ORIENTATION_VALID).into_raw()
}

/// `openxr::SpaceLocationFlags::contains` on raw bits: whether every bit of
/// `wanted` is set in `flags`.
#[verifier::external_body]
fn space_flags_contain(flags: u64, wanted: u64) -> (all: bool)
    ensures
        all == (flags & wanted == wanted),
{
    openxr::SpaceLocationFlags::from_raw(flags).contains(
        openxr::SpaceLocationFlags::from_raw(wanted),
    )
}

/// The raw bits of `openxr::SpaceLocationFlags::POSITION_VALID` or-ed with
/// `ORIENTATION_VALID`.
#[verifier::external_body]
fn space_pose_bits() -> (bits: u64)
    ensures
        bits == POSITION_VALID | ORIENTATION_VALID,
{
    (openxr::SpaceLocationFlags::POSITION_VALID
        | openxr::SpaceLocationFlags::ORIENTATION_VALID).into_raw()
}

/// Whether the views located for a frame can be rendered from: the runtime
/// must vouch for their positions and for their orientations.
pub fn views_usable(view_state_flags: u64) -> (usable: bool)
    ensures
        usable == pose_usable(view_state_flags),
{
    view_flags_contain(view_state_flags, view_pose_bits())
}

/// Whether a located hand can be drawn: the runtime must vouch for its
/// position and for its orientation.
pub fn hand_usable(location_flags: u64) -> (usable: bool)
    ensures
        usable == pose_usable(location_flags),
{
    space_flags_contain(location_flags, space_pose_bits())
}

/// A pose is usable exactly when both of its validity bits are set; bits
/// about tracking play no part.
pub proof fn lemma_pose_usable_bits(flags: u64)
    ensures
        pose_usable(flags) <==> (flags & ORIENTATION_VALID != 0 && flags & POSITION_VALID != 0),
        pose_usable(flags) <==> flags % 4 == 3,
{
    assert((flags & (2u64 | 1u64) == (2u64 | 1u64)) <==> (flags & 1u64 != 0 && flags & 2u64 != 0))
        by (bit_vector);
    assert((flags & (2u64 | 1u64) == (2u64 | 1u64)) <==> flags % 4 == 3) by (bit_vector);
}

} // verus!
