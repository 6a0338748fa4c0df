//! Plain-data description of the window a renderer asks for.
//!
//! A window is requested by filling a descriptor: dimensions, title, mode,
//! which input events to poll, how the cursor behaves, and whether the
//! window's context becomes current.  The descriptor is assembled with
//! builder-style setters; the windowing layer outside this crate reads the
//! finished value and performs the actual window creation.

use vstd::prelude::*;

verus! {

/// Mode for the window.
#[derive(Clone, Copy, Debug, PartialEq, Eq, Structural)]
pub enum WindowMode {
    /// An ordinary movable window.
    Windowed,
    /// A fullscreen window on the monitor with the given number.
    FullScreen(u32),
}

/// How the cursor behaves over the window.
#[derive(Clone, Copy, Debug, PartialEq, Eq, Structural)]
pub enum CursorMode {
    /// Visible and free to leave.
    Normal,
    /// Invisible over the window, free to leave.
    Hidden,
    /// Invisible and locked to the window.
    Disabled,
}

/// Descriptor of a window.
#[derive(Clone, Debug)]
pub struct WindowDescriptor {
    /// Width in pixels.
    pub width: u32,
    /// Height in pixels.
    pub height: u32,
    /// Title shown by the window system.
    pub title: String,
    /// Windowed or fullscreen.
    pub mode: WindowMode,
    /// Whether key events are polled.
    pub key_polling: bool,
    /// Whether cursor-enter events are polled.
    pub cursor_enter_polling: bool,
    /// Whether cursor-position events are polled.
    pub cursor_pos_polling: bool,
    /// Whether mouse-button events are polled.
    pub mouse_button_polling: bool,
    /// Whether framebuffer-resize events are polled.
    pub framebuffer_size_polling: bool,
    /// How the cursor behaves over the window.
    pub cursor_mode: CursorMode,
    /// Whether the window's context is made current on creation.
    pub make_current: bool,
}

impl WindowDescriptor {
    /// Generate a builder for the descriptor.
    pub fn builder() -> (d: Self)
        ensures
            d.width == 640,
            d.height == 480,
            d.title@ == "Hello World!"@,
            d.mode == WindowMode::Windowed,
            d.key_polling,
            d.cursor_enter_polling,
            d.cursor_pos_polling,
            d.mouse_button_polling,
            d.framebuffer_size_polling,
            d.cursor_mode == CursorMode::Normal,
            d.make_current,
    {
        Self::default()
    }

    /// Set the width.
    pub fn set_width(self, width: u32) -> (r: Self)
        ensures
            r == (WindowDescriptor { width, ..self }),
    {
        WindowDescriptor { width, ..self }
    }

    /// Set the height.
    pub fn set_height(self, height: u32) -> (r: Self)
        ensures
            r == (WindowDescriptor { height, ..self }),
    {
        WindowDescriptor { height, ..self }
    }

    /// Set the dimensions (width and height).
    pub fn set_dimensions(self, width: u32, height: u32) -> (r: Self)
        ensures
            r == (WindowDescriptor { width, height, ..self }),
    {
        WindowDescriptor { width, height, ..self }
    }

    /// Set the title of the window.
    pub fn set_title(self, title: &str) -> (r: Self)
        ensures
            r.title@ == title@,
            r == (WindowDescriptor { title: r.title, ..self }),
    {
        WindowDescriptor { title: title.to_owned(), ..self }
    }

    /// Set the mode.
    pub fn set_mode(self, mode: WindowMode) -> (r: Self)
        ensures
            r == (WindowDescriptor { mode, ..self }),
    {
        WindowDescriptor { mode, ..self }
    }

    /// Make the window windowed.
    pub fn set_windowed(self) -> (r: Self)
        ensures
            r == (WindowDescriptor { mode: WindowMode::Windowed, ..self }),
    {
        WindowDescriptor { mode: WindowMode::Windowed, ..self }
    }

    /// Make the window fullscreen.
    pub fn set_fullscreen(self, monitor: u32) -> (r: Self)
        ensures
            r == (WindowDescriptor { mode: WindowMode::FullScreen(monitor), ..self }),
    {
        WindowDescriptor { mode: WindowMode::FullScreen(monitor), ..self }
    }

    /// Set the key polling event.
    pub fn set_key_polling(self, key_polling: bool) -> (r: Self)
        ensures
            r == (WindowDescriptor { key_polling, ..self }),
    {
        WindowDescriptor { key_polling, ..self }
    }

    /// Set the cursor enter polling event.
    pub fn set_cursor_enter_polling(self, cursor_enter_polling: bool) -> (r: Self)
        ensures
            r == (WindowDescriptor { cursor_enter_polling, ..self }),
    {
        WindowDescriptor { cursor_enter_polling, ..self }
    }

    /// Set the cursor position polling event.
    pub fn set_cursor_pos_polling(self, cursor_pos_polling: bool) -> (r: Self)
        ensures
            r == (WindowDescriptor { cursor_pos_polling, ..self }),
    {
        WindowDescriptor { cursor_pos_polling, ..self }
    }

    /// Set the mouse button polling event.
    pub fn set_mouse_button_polling(self, mouse_button_polling: bool) -> (r: Self)
        ensures
            r == (WindowDescriptor { mouse_button_polling, ..self }),
    {
        WindowDescriptor { mouse_button_polling, ..self }
    }

    /// Set the framebuffer size polling event.
    pub fn set_framebuffer_size_polling(self, framebuffer_size_polling: bool) -> (r: Self)
        ensures
            r == (WindowDescriptor { framebuffer_size_polling, ..self }),
    {
        WindowDescriptor { framebuffer_size_polling, ..self }
    }

    /// Set the cursor mode.
    pub fn set_cursor_mode(self, cursor_mode: CursorMode) -> (r: Self)
        ensures
            r == (WindowDescriptor { cursor_mode, ..self }),
    {
        WindowDescriptor { cursor_mode, ..self }
    }

    /// Set whether to set the created window as current or not.
    pub fn set_make_current(self, make_current: bool) -> (r: Self)
        ensures
            r == (WindowDescriptor { make_current, ..self }),
    {
        WindowDescriptor { make_current, ..self }
    }
}

impl Default for WindowDescriptor {
    /// The descriptor every builder starts from: a small windowed window
    /// with every event polled and the context made current.
    fn default() -> (d: Self)
        ensures
            d.width == 640,
            d.height == 480,
            d.title@ == "Hello World!"@,
            d.mode == WindowMode::Windowed,
            d.key_polling,
            d.cursor_enter_polling,
            d.cursor_pos_polling,
            d.mouse_button_polling,
            d.framebuffer_size_polling,
            d.cursor_mode == CursorMode::Normal,
            d.make_current,
    {
        WindowDescriptor {
            width: 640,
            height: 480,
            title: "Hello World!".to_owned(),
            mode: WindowMode::Windowed,
            key_polling: true,
            cursor_enter_polling: true,
            cursor_pos_polling: true,
            mouse_button_polling: true,
            framebuffer_size_polling: true,
            cursor_mode: CursorMode::Normal,
            make_current: true,
        }
    }
}

} // verus!
