use browser_rs::address::{AddressBarState, LIVE_REGION_TIMEOUT_MS};
use browser_rs::keyboard::Key;

#[test]
fn a_fresh_bar_shows_the_url_unfocused() {
    let bar = AddressBarState::new("https://example.com");
    assert_eq!(bar.value, "https://example.com");
    assert!(!bar.focused);
}

#[test]
fn a_url_prop_change_replaces_the_text() {
    let mut bar = AddressBarState::new("https://example.com");
    bar.on_focus();
    bar.sync_url("https://example.org");
    assert_eq!(bar.value, "https://example.org");
    assert!(bar.focused);
}

#[test]
fn typing_replaces_the_text_and_keeps_focus() {
    let mut bar = AddressBarState::new("");
    bar.on_focus();
    bar.on_input("exa");
    bar.on_input("example.net");
    assert_eq!(bar.value, "example.net");
    assert!(bar.focused);
}

#[test]
fn focus_and_blur_toggle_the_flag_only() {
    let mut bar = AddressBarState::new("a");
    bar.on_focus();
    assert!(bar.focused);
    bar.on_blur();
    assert!(!bar.focused);
    assert_eq!(bar.value, "a");
}

#[test]
fn the_announcement_names_the_destination() {
    let bar = AddressBarState::new("https://example.com");
    assert_eq!(bar.announcement(), "Navigating to https://example.com");
}

#[test]
fn enter_and_only_enter_navigates() {
    let bar = AddressBarState::new("https://example.com");
    assert_eq!(bar.on_key(Key::Enter), Some(String::from("Navigating to https://example.com")));
    assert_eq!(bar.on_key(Key::Escape), None);
    assert_eq!(bar.on_key(Key::Tab), None);
    assert_eq!(bar.on_key(Key::Other), None);
}

#[test]
fn the_announcement_stays_one_second() {
    assert_eq!(LIVE_REGION_TIMEOUT_MS, 1000);
}
