//! Element helpers for a DOM user-interface framework, reduced to their
//! decisions: the frame-loop driver, click and slide tracking, and the
//! flip-if-offscreen placement rule. The host glue calls into these.
use vstd::prelude::*;

pub mod click;
pub mod frame_loop;
pub mod geometry;
pub mod naming;

pub use click::Clicked;
pub use frame_loop::{FrameLoop, HostTick, Step};
pub use geometry::{flip_if_offscreen, slide_position, Anchor, FlipPlan, Fraction, Offset, Rect, Side};
pub use naming::short_type_name;

verus! {

/// Marker under which an element's font class is registered.
#[derive(PartialEq, Eq, Hash, Clone, Copy, Debug)]
pub struct FontTag;

} // verus!
