use graphicat::instance::{InstanceCreateInfo, InstanceInitError, RwhExtensionProvider, SurfaceExtensionProvider};
use graphicat::surface::SurfaceCreateInfo;
use graphicat::window::{DisplayHandle, WindowHandle};

fn extensions_for(window: WindowHandle) -> Option<Vec<String>> {
    RwhExtensionProvider::new(window).get_surface_extension()
}

fn pair(platform: &str) -> Option<Vec<String>> {
    Some(vec![platform.to_string(), "VK_KHR_surface".to_string()])
}

#[test]
fn xlib_window_needs_the_xlib_surface_extension() {
    assert_eq!(extensions_for(WindowHandle::Xlib { window: 1 }), pair("VK_KHR_xlib_surface"));
}

#[test]
fn xcb_window_needs_the_xcb_surface_extension() {
    assert_eq!(extensions_for(WindowHandle::Xcb { window: 1 }), pair("VK_KHR_xcb_surface"));
}

#[test]
fn wayland_window_needs_the_wayland_surface_extension() {
    assert_eq!(extensions_for(WindowHandle::Wayland { surface: 1 }), pair("VK_KHR_wayland_surface"));
}

#[test]
fn win32_window_needs_the_win32_surface_extension() {
    assert_eq!(
        extensions_for(WindowHandle::Win32 { hwnd: 1, hinstance: None }),
        pair("VK_KHR_win32_surface")
    );
}

#[test]
fn android_window_needs_the_android_surface_extension() {
    assert_eq!(
        extensions_for(WindowHandle::AndroidNdk { a_native_window: 0xa0 }),
        pair("VK_KHR_android_surface")
    );
}

#[test]
fn every_window_with_a_platform_call_has_surface_extensions() {
    let pairs = [
        (WindowHandle::Xlib { window: 1 }, DisplayHandle::Xlib { display: Some(2) }),
        (WindowHandle::Xcb { window: 1 }, DisplayHandle::Xcb { connection: Some(2) }),
        (WindowHandle::Wayland { surface: 1 }, DisplayHandle::Wayland { display: 2 }),
        (WindowHandle::Win32 { hwnd: 1, hinstance: Some(2) }, DisplayHandle::Windows),
        (WindowHandle::AndroidNdk { a_native_window: 1 }, DisplayHandle::Android),
    ];
    for (window, display) in pairs {
        assert!(SurfaceCreateInfo::for_window(&window, &display).is_ok());
        let extensions = extensions_for(window).unwrap();
        assert_eq!(extensions.len(), 2);
        assert_eq!(extensions[1], "VK_KHR_surface");
    }
}

#[test]
fn other_windows_have_no_surface_extensions() {
    for window in [
        WindowHandle::UiKit,
        WindowHandle::AppKit,
        WindowHandle::Orbital,
        WindowHandle::OhosNdk,
        WindowHandle::Drm,
        WindowHandle::Gbm,
        WindowHandle::WinRt,
        WindowHandle::Web,
        WindowHandle::WebCanvas,
        WindowHandle::WebOffscreenCanvas,
        WindowHandle::Haiku,
        WindowHandle::Unknown,
    ] {
        assert_eq!(extensions_for(window), None);
    }
}

#[test]
fn create_info_asks_for_api_version_1_3() {
    let info = InstanceCreateInfo::new(&vec![]);
    assert_eq!(info.api_version(), 4206592);
    assert_eq!(info.api_version(), (1 << 22) | (3 << 12));
    assert_eq!(ash::vk::api_version_major(info.api_version()), 1);
    assert_eq!(ash::vk::api_version_minor(info.api_version()), 3);
    assert!(info.enabled_extension_names().as_cstring_vec().is_empty());
}

#[test]
fn create_info_holds_the_extension_names_as_c_strings() {
    let extensions = extensions_for(WindowHandle::Xcb { window: 3 }).unwrap();
    let info = InstanceCreateInfo::new(&extensions);
    assert_eq!(
        info.enabled_extension_names().as_cstring_vec(),
        &vec![b"VK_KHR_xcb_surface\0".to_vec(), b"VK_KHR_surface\0".to_vec()]
    );
}

#[test]
fn loaded_entry_is_passed_on() {
    let outcome: Result<&str, ash::LoadingError> = Ok("entry");
    assert!(matches!(InstanceInitError::loaded(outcome), Ok("entry")));
}

#[test]
fn loading_failure_becomes_a_loading_error() {
    let missing = ash::vk::StaticFn::load_checked(|_| std::ptr::null()).err().unwrap();
    let outcome: Result<&str, ash::LoadingError> = Err(ash::LoadingError::from(missing));
    assert!(matches!(
        InstanceInitError::loaded(outcome),
        Err(InstanceInitError::VulkanLoadingError(ash::LoadingError::MissingEntryPoint(_)))
    ));
}

#[test]
fn created_instance_is_passed_on() {
    let outcome: Result<u32, ash::vk::Result> = Ok(5);
    assert!(matches!(InstanceInitError::created(outcome), Ok(5)));
}

#[test]
fn creation_failure_becomes_a_create_error_with_its_code() {
    let outcome: Result<u32, ash::vk::Result> = Err(ash::vk::Result::ERROR_EXTENSION_NOT_PRESENT);
    assert!(matches!(
        InstanceInitError::created(outcome),
        Err(InstanceInitError::InstanceCreateError(ash::vk::Result::ERROR_EXTENSION_NOT_PRESENT))
    ));
    let outcome: Result<u32, ash::vk::Result> = Err(ash::vk::Result::ERROR_INCOMPATIBLE_DRIVER);
    assert_eq!(
        format!("{:?}", InstanceInitError::created(outcome).unwrap_err()),
        "InstanceCreateError(ERROR_INCOMPATIBLE_DRIVER)"
    );
}
