//! The address bar's state between renders: the text in the input, the
//! focus flag, and what an Enter keypress does — consume the event, blur
//! the input, and announce the navigation through a transient polite live
//! region.

use crate::keyboard::Key;
use vstd::prelude::*;
use vstd::string::StringExecFns;

verus! {

/// How long the transient navigation announcement stays in the document,
/// in milliseconds.
pub const LIVE_REGION_TIMEOUT_MS: u32 = 1000;

/// The text of the announcement inserted when the user navigates: a fixed
/// prefix followed by the destination.
pub open spec fn spec_navigation_announcement(url: Seq<char>) -> Seq<char> {
    "Navigating to "@ + url
}

/// What the address bar keeps between renders.
pub struct AddressBarState {
    /// The current text of the input.
    pub value: String,
    /// The input has focus.
    pub focused: bool,
}

impl AddressBarState {
    /// A fresh address bar showing the given URL, unfocused.
    pub fn new(url: &str) -> (r: Self)
        ensures
            r.value@ == url@,
            !r.focused,
    {
        AddressBarState { value: url.to_owned(), focused: false }
    }

    /// The URL prop changed: the input takes the new text, focus is kept.
    pub fn sync_url(&mut self, url: &str)
        ensures
            final (self).value@ == url@,
            final (self).focused == old(self).focused,
    {
        self.value = url.to_owned();
    }

    /// The user edited the input: the state takes the input's new text,
    /// focus is kept.
    pub fn on_input(&mut self, value: &str)
        ensures
            final (self).value@ == value@,
            final (self).focused == old(self).focused,
    {
        self.value = value.to_owned();
    }

    /// The input gained focus.
    pub fn on_focus(&mut self)
        ensures
            final (self).focused,
            final (self).value@ == old(self).value@,
    {
        self.focused = true;
    }

    /// The input lost focus.
    pub fn on_blur(&mut self)
        ensures
            !final (self).focused,
            final (self).value@ == old(self).value@,
    {
        self.focused = false;
    }

    /// The announcement for navigating to the current text.
    pub fn announcement(&self) -> (r: String)
        ensures
            r@ == spec_navigation_announcement(self.value@),
    {
        let mut s = "Navigating to ".to_owned();
        s.append(self.value.as_str());
        proof {
            assert(s@ =~= spec_navigation_announcement(self.value@));
        }
        s
    }

    /// Dispatches one keypress in the input. Enter, and Enter alone,
    /// navigates: the returned announcement means the host must consume
    /// the event, blur the input, insert the announcement in a polite
    /// live region, and remove it after [`LIVE_REGION_TIMEOUT_MS`].
    pub fn on_key(&self, key: Key) -> (r: Option<String>)
        ensures
            key == Key::Enter <==> r is Some,
            r matches Some(msg) ==> msg@ == spec_navigation_announcement(self.value@),
    {
        if key == Key::Enter {
            Some(self.announcement())
        } else {
            None
        }
    }
}

} // verus!
