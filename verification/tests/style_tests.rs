use browser_rs::common::{Size, Variant};
use browser_rs::style::{address_wrapper_style, frame_style, header_style, join_classes};

#[test]
fn size_styles_fix_the_frame_dimensions() {
    assert_eq!(Size::Small.to_style(), "width: 320px; height: 200px;");
    assert_eq!(Size::Medium.to_style(), "width: 640px; height: 400px;");
    assert_eq!(Size::Large.to_style(), "width: 960px; height: 600px;");
}

#[test]
fn defaults_are_plain_window_and_medium() {
    assert_eq!(Variant::default(), Variant::Default);
    assert_eq!(Size::default(), Size::Medium);
}

#[test]
fn header_style_for_the_plain_window() {
    let base = "display: flex; align-items: center; position: relative;";
    assert_eq!(
        header_style(base, Variant::Default, Size::Medium),
        "display: flex; align-items: center; position: relative; \
         justify-content: flex-start; padding: 6px 12px; height: 48px; \
         border-radius: 8px 8px 0 0; border: none; \
         box-shadow: 0 2px 6px rgba(0,0,0,0.1);"
    );
}

#[test]
fn header_style_for_the_tab_strip() {
    assert_eq!(
        header_style("", Variant::Tabs, Size::Small),
        " justify-content: flex-start; padding: 4px 6px; height: 40px; \
         border-radius: 6px; border: 1px solid #d1d5db; box-shadow: none;"
    );
}

#[test]
fn header_style_for_the_mobile_variant() {
    // The mobile variant spreads its children and has its own height,
    // whatever the size says.
    let small = header_style("x;", Variant::Ios, Size::Small);
    let large = header_style("x;", Variant::Ios, Size::Large);
    assert!(small.contains("justify-content: space-between;"));
    assert!(small.contains("height: 56px;"));
    assert!(large.contains("height: 56px;"));
    assert!(small.contains("border-radius: 0;"));
    assert!(small.contains("box-shadow: none;"));
}

#[test]
fn header_height_follows_size_on_the_plain_window() {
    assert!(header_style("", Variant::Default, Size::Small).contains("height: 38px;"));
    assert!(header_style("", Variant::Default, Size::Medium).contains("height: 48px;"));
    assert!(header_style("", Variant::Default, Size::Large).contains("height: 60px;"));
}

#[test]
fn address_wrapper_pads_left_only_with_controls() {
    let base = "flex: 1; display: flex; justify-content: center; padding-right: 8px;";
    assert_eq!(
        address_wrapper_style(base, true),
        "flex: 1; display: flex; justify-content: center; padding-right: 8px; padding-left: 8px;"
    );
    assert_eq!(
        address_wrapper_style(base, false),
        "flex: 1; display: flex; justify-content: center; padding-right: 8px; padding-left: 0;"
    );
}

#[test]
fn frame_style_prepends_the_dimensions() {
    assert_eq!(
        frame_style(Size::Medium, "margin: 0 auto;"),
        "width: 640px; height: 400px; margin: 0 auto;"
    );
    assert_eq!(frame_style(Size::Small, ""), "width: 320px; height: 200px; ");
}

#[test]
fn join_classes_keeps_the_base_first() {
    assert_eq!(join_classes("w-5 h-5", "ml-2"), "w-5 h-5 ml-2");
    assert_eq!(join_classes("w-5 h-5", ""), "w-5 h-5 ");
}
