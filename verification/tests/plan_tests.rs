use browser_rs::common::{Size, Variant};
use browser_rs::frame::plan_frame;
use browser_rs::header::plan_header;
use browser_rs::keyboard::KeyboardNavigationOptions;

const HEADER_BASE: &str = "display: flex; align-items: center; position: relative;";
const WRAPPER_BASE: &str = "flex: 1; display: flex; justify-content: center; padding-right: 8px;";

#[test]
fn the_full_header_shows_everything() {
    let plan = plan_header(Variant::Default, Size::Medium, true, true, HEADER_BASE, WRAPPER_BASE);
    assert!(plan.show_window_controls);
    assert!(plan.show_nav_buttons);
    assert!(plan.show_address_bar);
    assert!(plan.show_action_buttons);
    assert!(plan.style.starts_with(HEADER_BASE));
    assert!(plan.address_wrapper_style.ends_with("padding-left: 8px;"));
}

#[test]
fn hiding_the_controls_hides_every_cluster_but_the_address_bar() {
    let plan = plan_header(Variant::Default, Size::Medium, false, true, HEADER_BASE, WRAPPER_BASE);
    assert!(!plan.show_window_controls);
    assert!(!plan.show_nav_buttons);
    assert!(plan.show_address_bar);
    assert!(!plan.show_action_buttons);
    assert!(plan.address_wrapper_style.ends_with("padding-left: 0;"));
}

#[test]
fn the_mobile_variant_has_no_nav_buttons() {
    let plan = plan_header(Variant::Ios, Size::Medium, true, true, HEADER_BASE, WRAPPER_BASE);
    assert!(plan.show_window_controls);
    assert!(!plan.show_nav_buttons);
}

#[test]
fn the_address_bar_can_be_hidden_alone() {
    let plan = plan_header(Variant::Tabs, Size::Large, true, false, HEADER_BASE, WRAPPER_BASE);
    assert!(!plan.show_address_bar);
    assert!(plan.show_window_controls);
}

#[test]
fn the_frame_combines_size_and_style() {
    let plan = plan_frame(Size::Large, "margin: 1rem;");
    assert_eq!(plan.style, "width: 960px; height: 600px; margin: 1rem;");
}

#[test]
fn the_frame_closes_on_escape_and_traps_nothing() {
    let plan = plan_frame(Size::Medium, "");
    assert_eq!(
        plan.keyboard,
        KeyboardNavigationOptions { on_escape: true, on_enter: false, trap_focus: false }
    );
}
