//! Native window and display handles, reduced to plain values.
//!
//! A handle names the windowing system it belongs to and carries the
//! identifiers that system's surface-creation call consumes. Pointers are
//! held as addresses; systems for which no surface can be created carry
//! nothing.
use vstd::prelude::*;

verus! {

/// The native handle of a window.
#[allow(inconsistent_fields)]
#[derive(Clone, Copy, Debug, PartialEq, Eq, Structural)]
pub enum WindowHandle {
    UiKit,
    AppKit,
    Orbital,
    OhosNdk,
    /// An Xlib window, by its XID.
    Xlib { window: u64 },
    /// An XCB window, by its XID.
    Xcb { window: u32 },
    /// A Wayland surface, by the address of its `wl_surface`.
    Wayland { surface: usize },
    Drm,
    Gbm,
    /// A Win32 window: its `HWND` and, where known, the `HINSTANCE` of its module.
    Win32 { hwnd: isize, hinstance: Option<isize> },
    WinRt,
    Web,
    WebCanvas,
    WebOffscreenCanvas,
    /// An Android window, by the address of its `ANativeWindow`.
    AndroidNdk { a_native_window: usize },
    Haiku,
    /// A windowing system this crate has no name for.
    Unknown,
}

/// The native handle of the display a window lives on.
#[allow(inconsistent_fields)]
#[derive(Clone, Copy, Debug, PartialEq, Eq, Structural)]
pub enum DisplayHandle {
    UiKit,
    AppKit,
    Orbital,
    Ohos,
    /// An Xlib display, by the address of its `Display`, where one is open.
    Xlib { display: Option<usize> },
    /// An XCB connection, by the address of its `xcb_connection_t`, where one is open.
    Xcb { connection: Option<usize> },
    /// A Wayland display, by the address of its `wl_display`.
    Wayland { display: usize },
    Drm,
    Gbm,
    Windows,
    Web,
    Android,
    Haiku,
    /// A display system this crate has no name for.
    Unknown,
}

} // verus!
