//! Which window controls are rendered and with what labels: the
//! traffic-light row is all-or-nothing, in a fixed order, and each button
//! falls back to its default label and title when the caller supplies
//! none.

use crate::common::ButtonType;
use vstd::prelude::*;

verus! {

/// The control buttons in render order: close, minimize, maximize when
/// the row is shown, nothing at all otherwise.
pub fn control_buttons(show_controls: bool) -> (r: Vec<ButtonType>)
    ensures
        show_controls ==> r@ == seq![
            ButtonType::Close,
            ButtonType::Minimize,
            ButtonType::Maximize,
        ],
        !show_controls ==> r@ == Seq::<ButtonType>::empty(),
{
    let mut v: Vec<ButtonType> = Vec::new();
    if show_controls {
        v.push(ButtonType::Close);
        v.push(ButtonType::Minimize);
        v.push(ButtonType::Maximize);
        proof {
            assert(v@ =~= seq![ButtonType::Close, ButtonType::Minimize, ButtonType::Maximize]);
        }
    } else {
        proof {
            assert(v@ =~= Seq::<ButtonType>::empty());
        }
    }
    v
}

/// The accessible label a control button is rendered with: the caller's
/// own, or the button's default when the caller's is empty.
pub open spec fn spec_effective_aria_label(button: ButtonType, label: Seq<char>) -> Seq<char> {
    if label.len() == 0 {
        button.spec_default_aria_label()
    } else {
        label
    }
}

/// Picks the accessible label of a control button, falling back to the
/// button's default when the caller supplied an empty one.
pub fn effective_aria_label<'a>(button: ButtonType, label: &'a str) -> (r: &'a str)
    ensures
        r@ == spec_effective_aria_label(button, label@),
{
    if label.is_empty() {
        button.default_aria_label()
    } else {
        label
    }
}

/// The tooltip title a control button is rendered with: the caller's own,
/// or the button's default when the caller's is empty.
pub open spec fn spec_effective_title(button: ButtonType, title: Seq<char>) -> Seq<char> {
    if title.len() == 0 {
        button.spec_default_title()
    } else {
        title
    }
}

/// Picks the tooltip title of a control button, falling back to the
/// button's default when the caller supplied an empty one.
pub fn effective_title<'a>(button: ButtonType, title: &'a str) -> (r: &'a str)
    ensures
        r@ == spec_effective_title(button, title@),
{
    if title.is_empty() {
        button.default_title()
    } else {
        title
    }
}

} // verus!
