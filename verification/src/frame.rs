//! The per-render plan of the outer frame: its combined inline style and
//! the keyboard handlers it installs.

use crate::common::Size;
use crate::keyboard::KeyboardNavigationOptions;
use crate::style::{frame_style, spec_frame_style};
use vstd::prelude::*;

verus! {

/// Everything the renderer must decide before emitting the outer frame.
pub struct FramePlan {
    /// Inline style of the outer container: the dimensions of the size,
    /// then the caller's own style.
    pub style: String,
    /// The keyboard handlers the frame installs on the window.
    pub keyboard: KeyboardNavigationOptions,
}

/// Plans the outer frame. The frame always installs an Escape handler
/// (close), installs no Enter handler, and does not trap focus.
pub fn plan_frame(size: Size, style: &str) -> (r: FramePlan)
    ensures
        r.style@ == spec_frame_style(size, style@),
        r.keyboard == (KeyboardNavigationOptions {
            on_escape: true,
            on_enter: false,
            trap_focus: false,
        }),
{
    FramePlan {
        style: frame_style(size, style),
        keyboard: KeyboardNavigationOptions { on_escape: true, on_enter: false, trap_focus: false },
    }
}

} // verus!
