use browser_rs::common::ButtonType;
use browser_rs::controls::{control_buttons, effective_aria_label, effective_title};

#[test]
fn buttons_come_in_traffic_light_order() {
    assert_eq!(
        control_buttons(true),
        vec![ButtonType::Close, ButtonType::Minimize, ButtonType::Maximize]
    );
}

#[test]
fn no_buttons_when_controls_are_hidden() {
    assert_eq!(control_buttons(false), Vec::new());
}

#[test]
fn each_button_has_its_colors() {
    assert_eq!(ButtonType::Close.fill_color(), "#FF5F57");
    assert_eq!(ButtonType::Close.stroke_color(), "#E14640");
    assert_eq!(ButtonType::Minimize.fill_color(), "#FFBD2E");
    assert_eq!(ButtonType::Minimize.stroke_color(), "#DFA123");
    assert_eq!(ButtonType::Maximize.fill_color(), "#28CA42");
    assert_eq!(ButtonType::Maximize.stroke_color(), "#1DAD2C");
}

#[test]
fn empty_label_falls_back_to_the_default() {
    assert_eq!(effective_aria_label(ButtonType::Close, ""), "Close window");
    assert_eq!(effective_aria_label(ButtonType::Minimize, ""), "Minimize window");
    assert_eq!(effective_aria_label(ButtonType::Maximize, ""), "Maximize window");
    assert_eq!(effective_aria_label(ButtonType::Close, "Dismiss"), "Dismiss");
}

#[test]
fn empty_title_falls_back_to_the_default() {
    assert_eq!(effective_title(ButtonType::Close, ""), "Close");
    assert_eq!(effective_title(ButtonType::Minimize, ""), "Minimize");
    assert_eq!(effective_title(ButtonType::Maximize, ""), "Maximize");
    assert_eq!(effective_title(ButtonType::Maximize, "Zoom"), "Zoom");
}
