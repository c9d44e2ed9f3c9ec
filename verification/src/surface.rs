//! Window surfaces: which native call creates one, and what becomes of its outcome.
use vstd::prelude::*;
use crate::window::{DisplayHandle, WindowHandle};

verus! {

/// The native handle of a surface. Opaque here: it is only carried.
#[verifier::external_type_specification]
#[verifier::external_body]
pub struct ExSurfaceKHR(ash::vk::SurfaceKHR);

/// Why no surface came into being.
#[derive(Clone, Copy, Debug, PartialEq, Eq, Structural)]
pub enum SurfaceInitError {
    /// No platform call matches the handles, or the call that matches failed.
    CreateSurfaceError,
}

/// A platform's surface-creation call, with the arguments it is to be made with.
///
/// An identifier that the display handle may lack stays optional here: whether
/// it is present matters only to whoever makes the call.
#[allow(inconsistent_fields)]
#[derive(Clone, Copy, Debug, PartialEq, Eq, Structural)]
pub enum SurfaceCreateInfo {
    Xlib { window: u64, dpy: Option<usize> },
    Xcb { window: u32, connection: Option<usize> },
    Wayland { display: usize, surface: usize },
    Win32 { hwnd: isize, hinstance: Option<isize> },
    Android { window: usize },
}

/// Whether a surface can be created for windows of this system at all.
pub open spec fn has_platform_branch(window: WindowHandle) -> bool {
    window is Xlib || window is Xcb || window is Wayland || window is Win32
        || window is AndroidNdk
}

/// The dispatch table: the call that creates a surface for `window` on
/// `display`, or none where the two do not belong to one supported system.
pub open spec fn platform_call(window: WindowHandle, display: DisplayHandle) -> Option<
    SurfaceCreateInfo,
> {
    match (window, display) {
        (WindowHandle::Xlib { window }, DisplayHandle::Xlib { display }) => Some(
            SurfaceCreateInfo::Xlib { window, dpy: display },
        ),
        (WindowHandle::Xcb { window }, DisplayHandle::Xcb { connection }) => Some(
            SurfaceCreateInfo::Xcb { window, connection },
        ),
        (WindowHandle::Wayland { surface }, DisplayHandle::Wayland { display }) => Some(
            SurfaceCreateInfo::Wayland { display, surface },
        ),
        (WindowHandle::Win32 { hwnd, hinstance }, DisplayHandle::Windows) => Some(
            SurfaceCreateInfo::Win32 { hwnd, hinstance },
        ),
        (WindowHandle::AndroidNdk { a_native_window }, DisplayHandle::Android) => Some(
            SurfaceCreateInfo::Android { window: a_native_window },
        ),
        _ => None,
    }
}

impl SurfaceCreateInfo {
    /// Picks the platform call for a window and its display.
    ///
    /// Fails exactly where the dispatch table has no entry for the pair: the
    /// window's system has no surface-creation call, or the display belongs
    /// to another system. Nothing else is tried.
    pub fn for_window(window: &WindowHandle, display: &DisplayHandle) -> (call: Result<
        SurfaceCreateInfo,
        SurfaceInitError,
    >)
        ensures
            match platform_call(*window, *display) {
                Some(info) => call == Ok::<SurfaceCreateInfo, SurfaceInitError>(info),
                None => call == Err::<SurfaceCreateInfo, SurfaceInitError>(
                    SurfaceInitError::CreateSurfaceError,
                ),
            },
            !has_platform_branch(*window) ==> call == Err::<SurfaceCreateInfo, SurfaceInitError>(
                SurfaceInitError::CreateSurfaceError,
            ),
    {
        match (*window, *display) {
            (WindowHandle::Xlib { window }, DisplayHandle::Xlib { display }) => Ok(
                SurfaceCreateInfo::Xlib { window, dpy: display },
            ),
            (WindowHandle::Xcb { window }, DisplayHandle::Xcb { connection }) => Ok(
                SurfaceCreateInfo::Xcb { window, connection },
            ),
            (WindowHandle::Wayland { surface }, DisplayHandle::Wayland { display }) => Ok(
                SurfaceCreateInfo::Wayland { display, surface },
            ),
            (WindowHandle::Win32 { hwnd, hinstance }, DisplayHandle::Windows) => Ok(
                SurfaceCreateInfo::Win32 { hwnd, hinstance },
            ),
            (WindowHandle::AndroidNdk { a_native_window }, DisplayHandle::Android) => Ok(
                SurfaceCreateInfo::Android { window: a_native_window },
            ),
            _ => Err(SurfaceInitError::CreateSurfaceError),
        }
    }
}

/// A window of a system without a surface-creation call gets no platform
/// call, whatever display it is paired with.
pub proof fn unsupported_window_has_no_platform_call(window: WindowHandle, display: DisplayHandle)
    requires
        !has_platform_branch(window),
    ensures
        platform_call(window, display) is None,
{
}

/// A platform call exists exactly for a window and a display of one
/// supported system.
pub proof fn platform_call_needs_matching_display(window: WindowHandle, display: DisplayHandle)
    ensures
        platform_call(window, display) is Some <==> {
            ||| window is Xlib && display is Xlib
            ||| window is Xcb && display is Xcb
            ||| window is Wayland && display is Wayland
            ||| window is Win32 && display is Windows
            ||| window is AndroidNdk && display is Android
        },
{
}

/// A presentable surface of one window.
pub struct Surface {
    surface: ash::vk::SurfaceKHR,
}

/// The result code with which a native call reports success.
pub open spec fn vk_success() -> int {
    0
}

/// `ash::vk::Result::SUCCESS`, as the number the native interface writes it
/// as. Believed, not proved.
#[verifier::external_body]
fn success_code() -> (code: i32)
    ensures
        code == vk_success(),
{
    ash::vk::Result::SUCCESS.as_raw()
}

/// A surface is its native handle.
impl View for Surface {
    type V = ash::vk::SurfaceKHR;

    closed spec fn view(&self) -> ash::vk::SurfaceKHR {
        self.surface
    }
}

impl Surface {
    /// Wraps what a surface provider came back with: a surface where it
    /// created one, the error where it did not.
    pub fn new(created: Option<ash::vk::SurfaceKHR>) -> (surface: Result<Self, SurfaceInitError>)
        ensures
            match created {
                Some(handle) => surface matches Ok(s) && s@ == handle,
                None => surface matches Err(e) && e == SurfaceInitError::CreateSurfaceError,
            },
    {
        match created {
            Some(surface) => Ok(Self { surface }),
            None => Err(SurfaceInitError::CreateSurfaceError),
        }
    }

    /// Wraps the outcome of GLFW's own surface creation: `result` is the code
    /// it returned, `surface` the handle it wrote. Any code but success is an
    /// error, and the handle is then dropped.
    pub fn new_glfw(result: i32, surface: ash::vk::SurfaceKHR) -> (wrapped: Result<
        Self,
        SurfaceInitError,
    >)
        ensures
            match wrapped {
                Ok(s) => result == vk_success() && s@ == surface,
                Err(e) => result != vk_success() && e == SurfaceInitError::CreateSurfaceError,
            },
    {
        let created = if result == success_code() {
            Some(surface)
        } else {
            None
        };
        Surface::new(created)
    }

    /// The native handle of the surface.
    pub fn surface_handle(&self) -> (handle: ash::vk::SurfaceKHR)
        ensures
            handle == self@,
    {
        self.surface
    }
}

} // verus!
