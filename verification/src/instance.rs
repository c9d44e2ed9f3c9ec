//! Bringing up an instance: the extensions a windowing system needs, the
//! request the native creation call is made with, and what becomes of the
//! outcomes of loading and creating.
use crate::ffi_util::{c_string, CStringArray};
use crate::gpu::names;
use crate::surface::has_platform_branch;
use crate::window::WindowHandle;
use vstd::prelude::*;
use vstd::utf8::encode_utf8;

verus! {

/// Why the Vulkan library could not be loaded. Opaque here: it is only carried.
#[verifier::external_type_specification]
#[verifier::external_body]
pub struct ExLoadingError(ash::LoadingError);

/// A native result code. Opaque here: it is only carried.
#[verifier::external_type_specification]
#[verifier::external_body]
pub struct ExVkResult(ash::vk::Result);

/// A windowing back-end that knows which instance extensions it needs in
/// order to present to a surface.
pub trait SurfaceExtensionProvider {
    /// The names of those extensions, or nothing where the back-end cannot
    /// present through Vulkan.
    fn get_surface_extension(&self) -> Option<Vec<String>>;
}

/// Why no instance came into being.
#[derive(Debug)]
pub enum InstanceInitError {
    /// The native entry point could not be located on the host.
    VulkanLoadingError(ash::LoadingError),
    /// The native creation call turned the request down, with this code.
    InstanceCreateError(ash::vk::Result),
}

impl InstanceInitError {
    /// The loaded entry point, or the error for the failure to load it.
    pub fn loaded<E>(outcome: Result<E, ash::LoadingError>) -> (entry: Result<E, InstanceInitError>)
        ensures
            match outcome {
                Ok(loaded) => entry == Ok::<E, InstanceInitError>(loaded),
                Err(error) => entry == Err::<E, InstanceInitError>(
                    InstanceInitError::VulkanLoadingError(error),
                ),
            },
    {
        match outcome {
            Ok(loaded) => Ok(loaded),
            Err(loading_error) => Err(InstanceInitError::VulkanLoadingError(loading_error)),
        }
    }

    /// The created instance, or the error for the code the creation call
    /// failed with.
    pub fn created<I>(outcome: Result<I, ash::vk::Result>) -> (instance: Result<
        I,
        InstanceInitError,
    >)
        ensures
            match outcome {
                Ok(created) => instance == Ok::<I, InstanceInitError>(created),
                Err(code) => instance == Err::<I, InstanceInitError>(
                    InstanceInitError::InstanceCreateError(code),
                ),
            },
    {
        match outcome {
            Ok(created) => Ok(created),
            Err(code) => Err(InstanceInitError::InstanceCreateError(code)),
        }
    }
}

/// The number Vulkan writes an API version as.
pub open spec fn api_version(variant: u32, major: u32, minor: u32, patch: u32) -> u32 {
    (variant << 29) | (major << 22) | (minor << 12) | patch
}

/// `ash::vk::API_VERSION_1_3`: version 1.3.0 of the API, variant 0, in
/// Vulkan's encoding. Believed, not proved.
#[verifier::external_body]
fn api_version_1_3() -> (version: u32)
    ensures
        version == api_version(0, 1, 3, 0),
{
    ash::vk::API_VERSION_1_3
}

/// What the native instance-creation call is made with.
pub struct InstanceCreateInfo {
    api_version: u32,
    enabled_extension_names: CStringArray,
}

/// What an [`InstanceCreateInfo`] holds.
pub struct InstanceCreateInfoView {
    /// The API version the instance is asked to speak.
    pub api_version: u32,
    /// The extensions the instance is asked to enable, as C strings.
    pub enabled_extension_names: Seq<Seq<u8>>,
}

impl View for InstanceCreateInfo {
    type V = InstanceCreateInfoView;

    closed spec fn view(&self) -> InstanceCreateInfoView {
        InstanceCreateInfoView {
            api_version: self.api_version,
            enabled_extension_names: self.enabled_extension_names@,
        }
    }
}

impl InstanceCreateInfo {
    /// A request for an instance of API version 1.3 with `extensions`
    /// enabled. Each name is handed on in its C form; the request owns the
    /// storage, so the strings live as long as it does.
    pub fn new(extensions: &Vec<String>) -> (info: Self)
        ensures
            info@.api_version == api_version(0, 1, 3, 0),
            info@.enabled_extension_names.len() == extensions.len(),
            forall|i: int|
                0 <= i < extensions.len() ==> #[trigger] info@.enabled_extension_names[i]
                    == c_string(encode_utf8(extensions[i]@)),
    {
        Self {
            api_version: api_version_1_3(),
            enabled_extension_names: CStringArray::from_vec(extensions),
        }
    }

    /// The API version the instance is asked to speak.
    pub fn api_version(&self) -> (version: u32)
        ensures
            version == self@.api_version,
    {
        self.api_version
    }

    /// The extensions the instance is asked to enable.
    pub fn enabled_extension_names(&self) -> (array: &CStringArray)
        ensures
            array@ == self@.enabled_extension_names,
    {
        &self.enabled_extension_names
    }
}

/// The instance extensions needed to present to a window of `window`'s
/// system: the system's own surface extension and the general one. Xlib,
/// XCB, Wayland, Win32 and Android have them; for every other system there
/// are none, as no surface can be created there.
pub open spec fn surface_extensions(window: WindowHandle) -> Option<Seq<Seq<char>>> {
    match window {
        WindowHandle::Xlib { .. } => Some(seq!["VK_KHR_xlib_surface"@, "VK_KHR_surface"@]),
        WindowHandle::Xcb { .. } => Some(seq!["VK_KHR_xcb_surface"@, "VK_KHR_surface"@]),
        WindowHandle::Wayland { .. } => Some(seq!["VK_KHR_wayland_surface"@, "VK_KHR_surface"@]),
        WindowHandle::Win32 { .. } => Some(seq!["VK_KHR_win32_surface"@, "VK_KHR_surface"@]),
        WindowHandle::AndroidNdk { .. } => Some(
            seq!["VK_KHR_android_surface"@, "VK_KHR_surface"@],
        ),
        _ => None,
    }
}

/// The systems that have surface extensions are the systems on which a
/// surface can be created: the extensions a window asks for are there
/// whenever its platform call is.
pub proof fn surface_extensions_match_platform_calls(window: WindowHandle)
    ensures
        surface_extensions(window) is Some <==> has_platform_branch(window),
        surface_extensions(window) matches Some(requested) ==> requested.len() == 2
            && requested[1] == "VK_KHR_surface"@,
{
}

/// An extension provider for a window known by its native handle.
pub struct RwhExtensionProvider {
    window_handle: WindowHandle,
}

/// A provider is the handle of its window.
impl View for RwhExtensionProvider {
    type V = WindowHandle;

    closed spec fn view(&self) -> WindowHandle {
        self.window_handle
    }
}

impl RwhExtensionProvider {
    /// A provider for the window with this handle.
    pub fn new(window_handle: WindowHandle) -> (provider: Self)
        ensures
            provider@ == window_handle,
    {
        Self { window_handle }
    }
}

/// The system's surface extension followed by the general one.
fn extension_pair(platform: &str) -> (pair: Vec<String>)
    ensures
        names(pair@) == seq![platform@, "VK_KHR_surface"@],
{
    let mut pair: Vec<String> = Vec::new();
    pair.push(platform.to_owned());
    pair.push("VK_KHR_surface".to_owned());
    assert(names(pair@) =~= seq![platform@, "VK_KHR_surface"@]);
    pair
}

impl SurfaceExtensionProvider for RwhExtensionProvider {
    fn get_surface_extension(&self) -> (extensions: Option<Vec<String>>)
        ensures
            match extensions {
                Some(requested) => surface_extensions(self@) == Some(names(requested@)),
                None => surface_extensions(self@) is None,
            },
    {
        match self.window_handle {
            WindowHandle::Xlib { .. } => Some(extension_pair("VK_KHR_xlib_surface")),
            WindowHandle::Xcb { .. } => Some(extension_pair("VK_KHR_xcb_surface")),
            WindowHandle::Wayland { .. } => Some(extension_pair("VK_KHR_wayland_surface")),
            WindowHandle::Win32 { .. } => Some(extension_pair("VK_KHR_win32_surface")),
            WindowHandle::AndroidNdk { .. } => Some(extension_pair("VK_KHR_android_surface")),
            _ => None,
        }
    }
}

} // verus!
