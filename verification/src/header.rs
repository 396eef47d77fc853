//! The per-render plan of the header row: which clusters are shown and
//! with what styles, computed once from the props.

use crate::common::{Size, Variant};
use crate::style::{
    address_wrapper_style, header_style, spec_address_wrapper_style, spec_header_style,
};
use vstd::prelude::*;

verus! {

/// Everything the renderer must decide before emitting the header row.
pub struct HeaderPlan {
    /// Inline style of the header element.
    pub style: String,
    /// Inline style of the wrapper around the address bar.
    pub address_wrapper_style: String,
    /// The traffic-light control row is rendered.
    pub show_window_controls: bool,
    /// The sidebar/back/forward buttons are rendered.
    pub show_nav_buttons: bool,
    /// The address bar is rendered.
    pub show_address_bar: bool,
    /// The share/tabs/more cluster (and any custom buttons) is rendered.
    pub show_action_buttons: bool,
}

/// Plans the header row:
/// - its style is the caller's base style plus the declarations computed
///   from variant and size;
/// - the address-bar wrapper pads left only when the controls are shown;
/// - the control row and the action cluster follow `show_controls`;
/// - the navigation buttons are shown with the controls, except on the
///   mobile variant, which has none;
/// - the address bar follows `show_address_bar`.
pub fn plan_header(
    variant: Variant,
    size: Size,
    show_controls: bool,
    show_address_bar: bool,
    header_base_style: &str,
    address_wrapper_base_style: &str,
) -> (r: HeaderPlan)
    ensures
        r.style@ == spec_header_style(header_base_style@, variant, size),
        r.address_wrapper_style@ == spec_address_wrapper_style(
            address_wrapper_base_style@,
            show_controls,
        ),
        r.show_window_controls == show_controls,
        r.show_nav_buttons == (show_controls && variant != Variant::Ios),
        r.show_address_bar == show_address_bar,
        r.show_action_buttons == show_controls,
{
    HeaderPlan {
        style: header_style(header_base_style, variant, size),
        address_wrapper_style: address_wrapper_style(address_wrapper_base_style, show_controls),
        show_window_controls: show_controls,
        show_nav_buttons: show_controls && !variant.is_ios(),
        show_address_bar,
        show_action_buttons: show_controls,
    }
}

} // verus!
