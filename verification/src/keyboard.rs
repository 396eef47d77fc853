//! Keydown dispatch for the frame: Escape-to-close, Enter-to-submit on the
//! container itself, and optional Tab focus trapping that cycles focus at
//! the first and last focusable descendant.
//!
//! The host layer listens for `keydown`, gathers a [`KeyEvent`] and a
//! [`FocusState`] from the document, and performs whatever [`KeyAction`]
//! [`keydown_action`] returns.

use vstd::prelude::*;

verus! {

/// Which keyboard handlers the frame has installed.
///
/// In the rendering layer `on_escape` and `on_enter` carry user callbacks;
/// here only their presence matters to the dispatch.
#[derive(Clone, Copy, Debug, PartialEq, Eq, Structural)]
pub struct KeyboardNavigationOptions {
    /// A handler for Escape is installed.
    pub on_escape: bool,
    /// A handler for Enter is installed.
    pub on_enter: bool,
    /// Tab keeps focus cycling inside the container.
    pub trap_focus: bool,
}

/// The keys the dispatch distinguishes; every other key is `Other`.
#[derive(Clone, Copy, Debug, PartialEq, Eq, Structural)]
pub enum Key {
    Escape,
    Enter,
    Tab,
    Other,
}

/// One observed `keydown`, reduced to what the dispatch reads.
#[derive(Clone, Copy, Debug, PartialEq, Eq, Structural)]
pub struct KeyEvent {
    /// The key that went down.
    pub key: Key,
    /// Shift was held.
    pub shift: bool,
    /// The event's target is the frame container itself.
    pub target_is_container: bool,
}

/// Where focus stands among the container's focusable descendants, in
/// document order.
#[derive(Clone, Copy, Debug, PartialEq, Eq, Structural)]
pub struct FocusState {
    /// How many focusable descendants the container holds.
    pub focusable_count: usize,
    /// The position of the document's active element among them, or `None`
    /// when the active element is not one of them.
    pub active_index: Option<usize>,
}

impl FocusState {
    /// An index, when present, names one of the focusable descendants.
    pub open spec fn wf(self) -> bool {
        match self.active_index {
            Some(i) => i < self.focusable_count,
            None => true,
        }
    }

    /// Focus stands on the first focusable descendant.
    pub open spec fn at_first(self) -> bool {
        self.active_index == Some(0usize)
    }

    /// Focus stands on the last focusable descendant.
    pub open spec fn at_last(self) -> bool {
        self.focusable_count > 0 && self.active_index == Some((self.focusable_count - 1) as usize)
    }
}

/// What the host layer must do with one `keydown`. Every action but
/// `Ignore` also consumes the event (`preventDefault`).
#[derive(Clone, Copy, Debug, PartialEq, Eq, Structural)]
pub enum KeyAction {
    /// Leave the event to the browser.
    Ignore,
    /// Run the installed Escape handler (the frame's close callback).
    Escape,
    /// Run the installed Enter handler.
    Submit,
    /// Move focus to the first focusable descendant.
    FocusFirst,
    /// Move focus to the last focusable descendant.
    FocusLast,
}

/// The dispatch, stated as a function of the options, the event and the
/// focus state:
/// - Escape runs the Escape handler whenever one is installed;
/// - Enter runs the Enter handler only when the event targets the
///   container itself;
/// - Tab, under `trap_focus` and with at least one focusable descendant,
///   wraps focus: Shift+Tab on the first descendant moves to the last,
///   plain Tab on the last moves to the first;
/// - everything else is left to the browser.
pub open spec fn spec_keydown_action(
    opts: KeyboardNavigationOptions,
    ev: KeyEvent,
    focus: FocusState,
) -> KeyAction {
    match ev.key {
        Key::Escape => if opts.on_escape {
            KeyAction::Escape
        } else {
            KeyAction::Ignore
        },
        Key::Enter => if opts.on_enter && ev.target_is_container {
            KeyAction::Submit
        } else {
            KeyAction::Ignore
        },
        Key::Tab => if opts.trap_focus && focus.focusable_count > 0 {
            if ev.shift && focus.at_first() {
                KeyAction::FocusLast
            } else if !ev.shift && focus.at_last() {
                KeyAction::FocusFirst
            } else {
                KeyAction::Ignore
            }
        } else {
            KeyAction::Ignore
        },
        Key::Other => KeyAction::Ignore,
    }
}

/// Decides what one `keydown` does, exactly as [`spec_keydown_action`]
/// states it.
pub fn keydown_action(opts: &KeyboardNavigationOptions, ev: &KeyEvent, focus: &FocusState) -> (r:
    KeyAction)
    ensures
        r == spec_keydown_action(*opts, *ev, *focus),
{
    match ev.key {
        Key::Escape => if opts.on_escape {
            KeyAction::Escape
        } else {
            KeyAction::Ignore
        },
        Key::Enter => if opts.on_enter && ev.target_is_container {
            KeyAction::Submit
        } else {
            KeyAction::Ignore
        },
        Key::Tab => {
            if opts.trap_focus && focus.focusable_count > 0 {
                let last: usize = focus.focusable_count - 1;
                match focus.active_index {
                    Some(i) => if ev.shift && i == 0 {
                        KeyAction::FocusLast
                    } else if !ev.shift && i == last {
                        KeyAction::FocusFirst
                    } else {
                        KeyAction::Ignore
                    },
                    None => KeyAction::Ignore,
                }
            } else {
                KeyAction::Ignore
            }
        },
        Key::Other => KeyAction::Ignore,
    }
}

/// True when the host layer must call `preventDefault` on the event: on
/// every action but `Ignore`.
pub fn prevents_default(action: &KeyAction) -> (r: bool)
    ensures
        r <==> *action != KeyAction::Ignore,
{
    *action != KeyAction::Ignore
}

/// The focusable descendant, by position, that a focus action moves focus
/// to: the first for `FocusFirst`, the last for `FocusLast`, none for the
/// actions that move no focus.
pub open spec fn spec_focus_target(action: KeyAction, focusable_count: usize) -> Option<usize> {
    match action {
        KeyAction::FocusFirst => Some(0usize),
        KeyAction::FocusLast => Some((focusable_count - 1) as usize),
        _ => None,
    }
}

/// The focusable descendant, by position, that a focus action moves focus
/// to; `None` for the actions that move no focus.
pub fn focus_target(action: &KeyAction, focusable_count: usize) -> (r: Option<usize>)
    requires
        focusable_count > 0 || (*action != KeyAction::FocusFirst && *action
            != KeyAction::FocusLast),
    ensures
        r == spec_focus_target(*action, focusable_count),
{
    match action {
        KeyAction::FocusFirst => Some(0),
        KeyAction::FocusLast => Some(focusable_count - 1),
        _ => None,
    }
}

/// A handler only ever runs when it is installed: the dispatch yields
/// `Escape` only under an installed Escape handler, and `Submit` only
/// under an installed Enter handler and an event on the container itself.
pub proof fn lemma_handler_only_when_installed(
    opts: KeyboardNavigationOptions,
    ev: KeyEvent,
    focus: FocusState,
)
    ensures
        spec_keydown_action(opts, ev, focus) == KeyAction::Escape ==> opts.on_escape && ev.key
            == Key::Escape,
        spec_keydown_action(opts, ev, focus) == KeyAction::Submit ==> opts.on_enter
            && ev.target_is_container && ev.key == Key::Enter,
{
}

/// The trap only acts when asked to: without `trap_focus` no `keydown`
/// ever moves focus.
pub proof fn lemma_no_trap_no_focus_move(
    opts: KeyboardNavigationOptions,
    ev: KeyEvent,
    focus: FocusState,
)
    requires
        !opts.trap_focus,
    ensures
        spec_keydown_action(opts, ev, focus) != KeyAction::FocusFirst,
        spec_keydown_action(opts, ev, focus) != KeyAction::FocusLast,
{
}

/// The trap keeps focus inside the container: whenever the dispatch moves
/// focus, the position it moves to names one of the focusable descendants.
pub proof fn lemma_trap_stays_inside(
    opts: KeyboardNavigationOptions,
    ev: KeyEvent,
    focus: FocusState,
)
    requires
        focus.wf(),
    ensures
        ({
            let action = spec_keydown_action(opts, ev, focus);
            spec_focus_target(action, focus.focusable_count) matches Some(i) ==> i
                < focus.focusable_count
        }),
{
}

/// Cycling is an involution at the boundary: Shift+Tab from the first
/// descendant lands on the last, where a plain Tab lands back on the
/// first, and the other way round.
pub proof fn lemma_trap_round_trip(opts: KeyboardNavigationOptions, focus: FocusState)
    requires
        opts.trap_focus,
        focus.wf(),
        focus.focusable_count > 0,
    ensures
        ({
            let back = KeyEvent { key: Key::Tab, shift: true, target_is_container: false };
            let fwd = KeyEvent { key: Key::Tab, shift: false, target_is_container: false };
            let from_first = FocusState { active_index: Some(0usize), ..focus };
            let from_last = FocusState {
                active_index: Some((focus.focusable_count - 1) as usize),
                ..focus
            };
            spec_keydown_action(opts, back, from_first) == KeyAction::FocusLast
                && spec_keydown_action(opts, fwd, from_last) == KeyAction::FocusFirst
        }),
{
}

} // verus!
