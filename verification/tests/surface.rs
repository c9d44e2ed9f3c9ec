use ash::vk::Handle;
use graphicat::surface::{Surface, SurfaceCreateInfo, SurfaceInitError};
use graphicat::window::{DisplayHandle, WindowHandle};

fn every_window() -> Vec<WindowHandle> {
    vec![
        WindowHandle::UiKit,
        WindowHandle::AppKit,
        WindowHandle::Orbital,
        WindowHandle::OhosNdk,
        WindowHandle::Xlib { window: 7 },
        WindowHandle::Xcb { window: 8 },
        WindowHandle::Wayland { surface: 0x1000 },
        WindowHandle::Drm,
        WindowHandle::Gbm,
        WindowHandle::Win32 { hwnd: 9, hinstance: Some(10) },
        WindowHandle::WinRt,
        WindowHandle::Web,
        WindowHandle::WebCanvas,
        WindowHandle::WebOffscreenCanvas,
        WindowHandle::AndroidNdk { a_native_window: 0x2000 },
        WindowHandle::Haiku,
        WindowHandle::Unknown,
    ]
}

fn every_display() -> Vec<DisplayHandle> {
    vec![
        DisplayHandle::UiKit,
        DisplayHandle::AppKit,
        DisplayHandle::Orbital,
        DisplayHandle::Ohos,
        DisplayHandle::Xlib { display: Some(0x3000) },
        DisplayHandle::Xcb { connection: Some(0x4000) },
        DisplayHandle::Wayland { display: 0x5000 },
        DisplayHandle::Drm,
        DisplayHandle::Gbm,
        DisplayHandle::Windows,
        DisplayHandle::Web,
        DisplayHandle::Android,
        DisplayHandle::Haiku,
        DisplayHandle::Unknown,
    ]
}

#[test]
fn xlib_window_on_xlib_display_calls_xlib() {
    let call = SurfaceCreateInfo::for_window(
        &WindowHandle::Xlib { window: 0x2a },
        &DisplayHandle::Xlib { display: Some(0xd15) },
    );
    assert_eq!(call, Ok(SurfaceCreateInfo::Xlib { window: 0x2a, dpy: Some(0xd15) }));
}

#[test]
fn xlib_display_without_a_connection_is_handed_on_as_it_is() {
    let call = SurfaceCreateInfo::for_window(&WindowHandle::Xlib { window: 1 }, &DisplayHandle::Xlib { display: None });
    assert_eq!(call, Ok(SurfaceCreateInfo::Xlib { window: 1, dpy: None }));
}

#[test]
fn xcb_window_on_xcb_display_calls_xcb() {
    let call = SurfaceCreateInfo::for_window(
        &WindowHandle::Xcb { window: 77 },
        &DisplayHandle::Xcb { connection: Some(0xc0) },
    );
    assert_eq!(call, Ok(SurfaceCreateInfo::Xcb { window: 77, connection: Some(0xc0) }));
}

#[test]
fn wayland_surface_on_wayland_display_calls_wayland() {
    let call = SurfaceCreateInfo::for_window(
        &WindowHandle::Wayland { surface: 0x51 },
        &DisplayHandle::Wayland { display: 0xd1 },
    );
    assert_eq!(call, Ok(SurfaceCreateInfo::Wayland { display: 0xd1, surface: 0x51 }));
}

#[test]
fn win32_window_on_windows_display_calls_win32() {
    let call = SurfaceCreateInfo::for_window(
        &WindowHandle::Win32 { hwnd: 0x40, hinstance: Some(0x41) },
        &DisplayHandle::Windows,
    );
    assert_eq!(call, Ok(SurfaceCreateInfo::Win32 { hwnd: 0x40, hinstance: Some(0x41) }));
}

#[test]
fn android_window_on_android_display_calls_android() {
    let call = SurfaceCreateInfo::for_window(
        &WindowHandle::AndroidNdk { a_native_window: 0xa0 },
        &DisplayHandle::Android,
    );
    assert_eq!(call, Ok(SurfaceCreateInfo::Android { window: 0xa0 }));
}

#[test]
fn web_canvas_has_no_platform_call() {
    for display in every_display() {
        assert_eq!(
            SurfaceCreateInfo::for_window(&WindowHandle::WebCanvas, &display),
            Err(SurfaceInitError::CreateSurfaceError)
        );
    }
}

#[test]
fn exactly_five_pairs_of_handles_have_a_platform_call() {
    let mut supported: Vec<(WindowHandle, DisplayHandle)> = Vec::new();
    for window in every_window() {
        for display in every_display() {
            match SurfaceCreateInfo::for_window(&window, &display) {
                Ok(_) => supported.push((window, display)),
                Err(error) => assert_eq!(error, SurfaceInitError::CreateSurfaceError),
            }
        }
    }
    assert_eq!(
        supported,
        vec![
            (WindowHandle::Xlib { window: 7 }, DisplayHandle::Xlib { display: Some(0x3000) }),
            (WindowHandle::Xcb { window: 8 }, DisplayHandle::Xcb { connection: Some(0x4000) }),
            (WindowHandle::Wayland { surface: 0x1000 }, DisplayHandle::Wayland { display: 0x5000 }),
            (WindowHandle::Win32 { hwnd: 9, hinstance: Some(10) }, DisplayHandle::Windows),
            (WindowHandle::AndroidNdk { a_native_window: 0x2000 }, DisplayHandle::Android),
        ]
    );
}

#[test]
fn window_on_the_display_of_another_system_has_no_platform_call() {
    assert_eq!(
        SurfaceCreateInfo::for_window(&WindowHandle::Xlib { window: 1 }, &DisplayHandle::Xcb { connection: Some(2) }),
        Err(SurfaceInitError::CreateSurfaceError)
    );
    assert_eq!(
        SurfaceCreateInfo::for_window(&WindowHandle::Wayland { surface: 1 }, &DisplayHandle::Xlib { display: Some(2) }),
        Err(SurfaceInitError::CreateSurfaceError)
    );
    assert_eq!(
        SurfaceCreateInfo::for_window(&WindowHandle::WinRt, &DisplayHandle::Windows),
        Err(SurfaceInitError::CreateSurfaceError)
    );
}

#[test]
fn created_surface_is_wrapped() {
    let raw = ash::vk::SurfaceKHR::from_raw(0x5afe);
    let surface = Surface::new(Some(raw)).unwrap();
    assert_eq!(surface.surface_handle(), raw);
    assert_eq!(surface.surface_handle().as_raw(), 0x5afe);
}

#[test]
fn missing_surface_is_an_error() {
    assert_eq!(Surface::new(None).err(), Some(SurfaceInitError::CreateSurfaceError));
}

#[test]
fn glfw_success_wraps_the_surface_it_wrote() {
    let raw = ash::vk::SurfaceKHR::from_raw(11);
    let surface = Surface::new_glfw(ash::vk::Result::SUCCESS.as_raw(), raw).unwrap();
    assert_eq!(surface.surface_handle(), raw);
}

#[test]
fn glfw_failure_is_an_error() {
    let raw = ash::vk::SurfaceKHR::null();
    for code in [
        ash::vk::Result::ERROR_INITIALIZATION_FAILED,
        ash::vk::Result::ERROR_EXTENSION_NOT_PRESENT,
        ash::vk::Result::ERROR_NATIVE_WINDOW_IN_USE_KHR,
        ash::vk::Result::INCOMPLETE,
    ] {
        assert_eq!(
            Surface::new_glfw(code.as_raw(), raw).err(),
            Some(SurfaceInitError::CreateSurfaceError)
        );
    }
}
