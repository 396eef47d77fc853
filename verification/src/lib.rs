//! Logic core of a decorative "browser window" chrome widget: a component
//! that mimics an OS browser frame (traffic-light controls, address bar,
//! content area).
//!
//! Rendering itself is left to a host UI layer; this crate holds everything
//! the renderer has to decide, each function with a contract:
//!
//! - [`common`]: the prop enums ([`Variant`], [`Size`], [`ButtonType`]) and
//!   the colors, labels and dimension styles attached to them;
//! - [`style`]: assembly of the inline style strings for the header, the
//!   address-bar wrapper and the outer frame;
//! - [`controls`]: which control buttons are rendered, in what order, and
//!   with what effective labels;
//! - [`header`] and [`frame`]: the per-render plans of the header row and
//!   the outer frame (what is shown, with which styles and handlers);
//! - [`keyboard`]: the keydown dispatch (Escape-to-close, Enter-to-submit,
//!   Tab focus trapping) as a pure decision function;
//! - [`address`]: the address bar's input state and its navigation
//!   announcement.

pub mod address;
pub mod common;
pub mod controls;
pub mod frame;
pub mod header;
pub mod keyboard;
pub mod style;

pub use common::{ButtonType, Size, Variant};
