//! The prop enums shared by every part of the widget, with the constants
//! that the renderer derives from them: frame dimensions per [`Size`], and
//! per-button colors, labels and titles for [`ButtonType`].

use vstd::prelude::*;

verus! {

/// Visual variant of the browser frame chrome.
#[derive(Clone, Copy, Debug, PartialEq, Eq, Structural)]
pub enum Variant {
    /// Plain desktop window: rounded top corners and a drop shadow.
    Default,
    /// Mobile-style chrome: taller header, controls spread apart.
    Ios,
    /// Tab-strip style: compact bordered header.
    Tabs,
}

impl core::default::Default for Variant {
    fn default() -> (r: Self)
        ensures
            r == Variant::Default,
    {
        Variant::Default
    }
}

impl Variant {
    /// True exactly on the mobile-style variant.
    pub fn is_ios(&self) -> (r: bool)
        ensures
            r <==> *self == Variant::Ios,
    {
        *self == Variant::Ios
    }

    /// True exactly on the tab-strip variant.
    pub fn is_tabs(&self) -> (r: bool)
        ensures
            r <==> *self == Variant::Tabs,
    {
        *self == Variant::Tabs
    }
}

/// Overall size of the browser frame.
#[derive(Clone, Copy, Debug, PartialEq, Eq, Structural)]
pub enum Size {
    Small,
    Medium,
    Large,
}

impl core::default::Default for Size {
    fn default() -> (r: Self)
        ensures
            r == Size::Medium,
    {
        Size::Medium
    }
}

impl Size {
    /// The inline style that fixes the outer dimensions of the frame.
    pub open spec fn spec_style(self) -> Seq<char> {
        match self {
            Size::Small => "width: 320px; height: 200px;"@,
            Size::Medium => "width: 640px; height: 400px;"@,
            Size::Large => "width: 960px; height: 600px;"@,
        }
    }

    /// Inline style fixing the outer dimensions of the frame for this size.
    pub fn to_style(&self) -> (r: &'static str)
        ensures
            r@ == self.spec_style(),
    {
        match self {
            Size::Small => "width: 320px; height: 200px;",
            Size::Medium => "width: 640px; height: 400px;",
            Size::Large => "width: 960px; height: 600px;",
        }
    }
}

/// One of the three traffic-light window controls.
#[derive(Clone, Copy, Debug, PartialEq, Eq, Structural)]
pub enum ButtonType {
    Close,
    Minimize,
    Maximize,
}

impl ButtonType {
    /// The accessible label used when the caller supplies none.
    pub open spec fn spec_default_aria_label(self) -> Seq<char> {
        match self {
            ButtonType::Close => "Close window"@,
            ButtonType::Minimize => "Minimize window"@,
            ButtonType::Maximize => "Maximize window"@,
        }
    }

    /// Accessible label used when the caller supplies none.
    pub fn default_aria_label(&self) -> (r: &'static str)
        ensures
            r@ == self.spec_default_aria_label(),
    {
        match self {
            ButtonType::Close => "Close window",
            ButtonType::Minimize => "Minimize window",
            ButtonType::Maximize => "Maximize window",
        }
    }

    /// The tooltip title used when the caller supplies none.
    pub open spec fn spec_default_title(self) -> Seq<char> {
        match self {
            ButtonType::Close => "Close"@,
            ButtonType::Minimize => "Minimize"@,
            ButtonType::Maximize => "Maximize"@,
        }
    }

    /// Tooltip title used when the caller supplies none.
    pub fn default_title(&self) -> (r: &'static str)
        ensures
            r@ == self.spec_default_title(),
    {
        match self {
            ButtonType::Close => "Close",
            ButtonType::Minimize => "Minimize",
            ButtonType::Maximize => "Maximize",
        }
    }

    /// The fill color of the button's circular glyph.
    pub open spec fn spec_fill_color(self) -> Seq<char> {
        match self {
            ButtonType::Close => "#FF5F57"@,
            ButtonType::Minimize => "#FFBD2E"@,
            ButtonType::Maximize => "#28CA42"@,
        }
    }

    /// Fill color of the button's circular glyph.
    pub fn fill_color(&self) -> (r: &'static str)
        ensures
            r@ == self.spec_fill_color(),
    {
        match self {
            ButtonType::Close => "#FF5F57",
            ButtonType::Minimize => "#FFBD2E",
            ButtonType::Maximize => "#28CA42",
        }
    }

    /// The stroke color of the button's circular glyph.
    pub open spec fn spec_stroke_color(self) -> Seq<char> {
        match self {
            ButtonType::Close => "#E14640"@,
            ButtonType::Minimize => "#DFA123"@,
            ButtonType::Maximize => "#1DAD2C"@,
        }
    }

    /// Stroke color of the button's circular glyph.
    pub fn stroke_color(&self) -> (r: &'static str)
        ensures
            r@ == self.spec_stroke_color(),
    {
        match self {
            ButtonType::Close => "#E14640",
            ButtonType::Minimize => "#DFA123",
            ButtonType::Maximize => "#1DAD2C",
        }
    }
}

} // verus!
