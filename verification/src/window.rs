//! The window that is never shown.
//!
//! It remembers what it was told and reports it back. Nothing else can change
//! it, so every query answers with the last value that was set.

use vstd::prelude::*;

verus! {

/// The scale factor that means no scaling: the bit pattern of the 64-bit
/// IEEE 754 number one.
pub const NO_SCALING: u64 = 0x3FF0_0000_0000_0000;

/// The symbol that the pointer is drawn with.
#[derive(Clone, Copy, Debug, PartialEq, Eq, Structural)]
pub enum CursorIcon {
    /// The platform's standard arrow.
    Default,
    /// No symbol at all.
    Hidden,
    ContextMenu,
    Help,
    PointingHand,
    Progress,
    Wait,
    Cell,
    Crosshair,
    Text,
    VerticalText,
    Alias,
    Copy,
    Move,
    NoDrop,
    NotAllowed,
    Grab,
    Grabbing,
    AllScroll,
    ZoomIn,
    ZoomOut,
    ResizeHorizontal,
    ResizeVertical,
    ResizeNeSw,
    ResizeNwSe,
    ResizeColumn,
    ResizeRow,
}

impl Default for CursorIcon {
    fn default() -> (icon: Self)
        ensures
            icon == CursorIcon::Default,
    {
        CursorIcon::Default
    }
}

/// What a window holds.
pub struct WindowState {
    /// Width in pixels.
    pub width: i32,
    /// Height in pixels.
    pub height: i32,
    pub fullscreen: bool,
    /// Whether the main loop may wait between frames.
    pub lazy_loop: bool,
    pub cursor: CursorIcon,
}

impl WindowState {
    /// The state of a window that has been told nothing yet.
    pub open spec fn initial() -> WindowState {
        WindowState {
            width: 0,
            height: 0,
            fullscreen: false,
            lazy_loop: false,
            cursor: CursorIcon::Default,
        }
    }
}

/// A window that stores its settings and shows nothing.
pub struct EmptyWindowBackend {
    size: (i32, i32),
    is_fullscreen: bool,
    lazy: bool,
    cursor: CursorIcon,
}

impl View for EmptyWindowBackend {
    type V = WindowState;

    closed spec fn view(&self) -> WindowState {
        WindowState {
            width: self.size.0,
            height: self.size.1,
            fullscreen: self.is_fullscreen,
            lazy_loop: self.lazy,
            cursor: self.cursor,
        }
    }
}

impl Default for EmptyWindowBackend {
    /// A window of size zero, not fullscreen, with a continuous loop and the
    /// standard pointer.
    fn default() -> (window: Self)
        ensures
            window@ == WindowState::initial(),
    {
        EmptyWindowBackend {
            size: (0, 0),
            is_fullscreen: false,
            lazy: false,
            cursor: CursorIcon::Default,
        }
    }
}

impl EmptyWindowBackend {
    /// Stores the size as given: no bound is put on it.
    pub fn set_size(&mut self, width: i32, height: i32)
        ensures
            final(self)@ == (WindowState { width, height, ..old(self)@ }),
    {
        self.size = (width, height);
    }

    /// The size as it was last set.
    pub fn size(&self) -> (size: (i32, i32))
        ensures
            size == (self@.width, self@.height),
    {
        self.size
    }

    /// Stores the fullscreen flag.
    pub fn set_fullscreen(&mut self, enabled: bool)
        ensures
            final(self)@ == (WindowState { fullscreen: enabled, ..old(self)@ }),
    {
        self.is_fullscreen = enabled;
    }

    /// The fullscreen flag as it was last set.
    pub fn is_fullscreen(&self) -> (enabled: bool)
        ensures
            enabled == self@.fullscreen,
    {
        self.is_fullscreen
    }

    /// The scale factor as a bit pattern: always that of no scaling.
    pub fn dpi(&self) -> (scale_factor_bits: u64)
        ensures
            scale_factor_bits == NO_SCALING,
    {
        NO_SCALING
    }

    /// Stores whether the main loop may wait between frames.
    pub fn set_lazy_loop(&mut self, lazy: bool)
        ensures
            final(self)@ == (WindowState { lazy_loop: lazy, ..old(self)@ }),
    {
        self.lazy = lazy;
    }

    /// Whether the main loop may wait between frames, as it was last set.
    pub fn lazy_loop(&self) -> (lazy: bool)
        ensures
            lazy == self@.lazy_loop,
    {
        self.lazy
    }

    /// Takes note of nothing: no frame is ever drawn.
    pub fn request_frame(&mut self)
        ensures
            final(self)@ == old(self)@,
    {
    }

    /// Stores the pointer's symbol.
    pub fn set_cursor(&mut self, cursor: CursorIcon)
        ensures
            final(self)@ == (WindowState { cursor, ..old(self)@ }),
    {
        self.cursor = cursor;
    }

    /// The pointer's symbol as it was last set.
    pub fn cursor(&self) -> (cursor: CursorIcon)
        ensures
            cursor == self@.cursor,
    {
        self.cursor
    }
}

} // verus!
