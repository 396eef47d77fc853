//! Assembly of the inline style strings the renderer attaches to the frame:
//! the header row style (which depends on variant and size), the wrapper
//! around the address bar, the outer frame style, and the generic join of
//! two class lists.

use crate::common::{Size, Variant};
use vstd::prelude::*;
use vstd::string::StringExecFns;

verus! {

/// `justify-content` of the header row: the mobile variant spreads its
/// children apart, every other variant packs them to the left.
pub open spec fn spec_header_justify(variant: Variant) -> Seq<char> {
    if variant == Variant::Ios {
        "space-between"@
    } else {
        "flex-start"@
    }
}

/// `justify-content` value of the header row for this variant.
pub fn header_justify(variant: Variant) -> (r: &'static str)
    ensures
        r@ == spec_header_justify(variant),
{
    if variant.is_ios() {
        "space-between"
    } else {
        "flex-start"
    }
}

/// `padding` of the header row, a function of the size alone.
pub open spec fn spec_header_padding(size: Size) -> Seq<char> {
    match size {
        Size::Small => "4px 6px"@,
        Size::Large => "10px 16px"@,
        Size::Medium => "6px 12px"@,
    }
}

/// `padding` value of the header row for this size.
pub fn header_padding(size: Size) -> (r: &'static str)
    ensures
        r@ == spec_header_padding(size),
{
    match size {
        Size::Small => "4px 6px",
        Size::Large => "10px 16px",
        Size::Medium => "6px 12px",
    }
}

/// `height` of the header row: the tab-strip and mobile variants have a
/// fixed height of their own; otherwise the size decides.
pub open spec fn spec_header_height(variant: Variant, size: Size) -> Seq<char> {
    if variant == Variant::Tabs {
        "40px"@
    } else if variant == Variant::Ios {
        "56px"@
    } else if size == Size::Large {
        "60px"@
    } else if size == Size::Small {
        "38px"@
    } else {
        "48px"@
    }
}

/// `height` value of the header row for this variant and size.
pub fn header_height(variant: Variant, size: Size) -> (r: &'static str)
    ensures
        r@ == spec_header_height(variant, size),
{
    match (variant, size) {
        (Variant::Tabs, _) => "40px",
        (Variant::Ios, _) => "56px",
        (_, Size::Large) => "60px",
        (_, Size::Small) => "38px",
        _ => "48px",
    }
}

/// `border-radius` of the header row: the tab strip is rounded all around,
/// the plain window only at its top corners, the mobile variant not at all.
pub open spec fn spec_header_border_radius(variant: Variant) -> Seq<char> {
    match variant {
        Variant::Tabs => "6px"@,
        Variant::Default => "8px 8px 0 0"@,
        Variant::Ios => "0"@,
    }
}

/// `border-radius` value of the header row for this variant.
pub fn header_border_radius(variant: Variant) -> (r: &'static str)
    ensures
        r@ == spec_header_border_radius(variant),
{
    match variant {
        Variant::Tabs => "6px",
        Variant::Default => "8px 8px 0 0",
        Variant::Ios => "0",
    }
}

/// `border` of the header row: only the tab strip draws one.
pub open spec fn spec_header_border(variant: Variant) -> Seq<char> {
    if variant == Variant::Tabs {
        "1px solid #d1d5db"@
    } else {
        "none"@
    }
}

/// `border` value of the header row for this variant.
pub fn header_border(variant: Variant) -> (r: &'static str)
    ensures
        r@ == spec_header_border(variant),
{
    if variant.is_tabs() {
        "1px solid #d1d5db"
    } else {
        "none"
    }
}

/// `box-shadow` of the header row: only the plain window casts one.
pub open spec fn spec_header_box_shadow(variant: Variant) -> Seq<char> {
    if variant == Variant::Default {
        "0 2px 6px rgba(0,0,0,0.1)"@
    } else {
        "none"@
    }
}

/// `box-shadow` value of the header row for this variant.
pub fn header_box_shadow(variant: Variant) -> (r: &'static str)
    ensures
        r@ == spec_header_box_shadow(variant),
{
    if variant == Variant::Default {
        "0 2px 6px rgba(0,0,0,0.1)"
    } else {
        "none"
    }
}

/// The full inline style of the header row: the caller's base style,
/// followed by the computed `justify-content`, `padding`, `height`,
/// `border-radius`, `border` and `box-shadow` declarations, in that order.
pub open spec fn spec_header_style(base: Seq<char>, variant: Variant, size: Size) -> Seq<char> {
    base + " justify-content: "@ + spec_header_justify(variant) + "; padding: "@
        + spec_header_padding(size) + "; height: "@ + spec_header_height(variant, size)
        + "; border-radius: "@ + spec_header_border_radius(variant) + "; border: "@
        + spec_header_border(variant) + "; box-shadow: "@ + spec_header_box_shadow(variant) + ";"@
}

/// Builds the full inline style of the header row from the caller's base
/// style and the computed per-variant, per-size declarations.
pub fn header_style(base: &str, variant: Variant, size: Size) -> (r: String)
    ensures
        r@ == spec_header_style(base@, variant, size),
{
    let mut s = base.to_owned();
    s.append(" justify-content: ");
    s.append(header_justify(variant));
    s.append("; padding: ");
    s.append(header_padding(size));
    s.append("; height: ");
    s.append(header_height(variant, size));
    s.append("; border-radius: ");
    s.append(header_border_radius(variant));
    s.append("; border: ");
    s.append(header_border(variant));
    s.append("; box-shadow: ");
    s.append(header_box_shadow(variant));
    s.append(";");
    proof {
        assert(s@ =~= spec_header_style(base@, variant, size));
    }
    s
}

/// The inline style of the wrapper around the address bar: the caller's
/// base style plus a left padding that makes room for the window controls
/// when they are shown.
pub open spec fn spec_address_wrapper_style(base: Seq<char>, show_controls: bool) -> Seq<char> {
    base + " padding-left: "@ + (if show_controls {
        "8px"@
    } else {
        "0"@
    }) + ";"@
}

/// Builds the inline style of the wrapper around the address bar.
pub fn address_wrapper_style(base: &str, show_controls: bool) -> (r: String)
    ensures
        r@ == spec_address_wrapper_style(base@, show_controls),
{
    let mut s = base.to_owned();
    s.append(" padding-left: ");
    s.append(if show_controls {
        "8px"
    } else {
        "0"
    });
    s.append(";");
    proof {
        assert(s@ =~= spec_address_wrapper_style(base@, show_controls));
    }
    s
}

/// The inline style of the outer frame: the dimensions fixed by the size,
/// then the caller's own style, separated by a space.
pub open spec fn spec_frame_style(size: Size, style: Seq<char>) -> Seq<char> {
    size.spec_style() + " "@ + style
}

/// Builds the inline style of the outer frame container.
pub fn frame_style(size: Size, style: &str) -> (r: String)
    ensures
        r@ == spec_frame_style(size, style@),
{
    let mut s = size.to_style().to_owned();
    s.append(" ");
    s.append(style);
    proof {
        assert(s@ =~= spec_frame_style(size, style@));
    }
    s
}

/// Two class lists joined by a single space, the base first.
pub open spec fn spec_join_classes(base: Seq<char>, extra: Seq<char>) -> Seq<char> {
    base + " "@ + extra
}

/// Joins a base class list and a caller-supplied class list with a space.
pub fn join_classes(base: &str, extra: &str) -> (r: String)
    ensures
        r@ == spec_join_classes(base@, extra@),
{
    let mut s = base.to_owned();
    s.append(" ");
    s.append(extra);
    proof {
        assert(s@ =~= spec_join_classes(base@, extra@));
    }
    s
}

} // verus!
