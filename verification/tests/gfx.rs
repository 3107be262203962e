use herebedragons::error::Error;
use herebedragons::gfx::{
    window_handle_kind, Format, NewInstanceOptions, SampleOptions, ScopedResource,
    SwapChainOptions, SwapEffect, WindowHandleKind, DXGI_ALPHA_MODE_UNSPECIFIED,
    DXGI_SCALING_STRETCH, DXGI_USAGE_RENDER_TARGET_OUTPUT,
};
use herebedragons::hresult::{IntoResult, NativeResult};

#[test]
fn scoped_resource_is_pure_delegation() {
    let parent = String::from("device");
    let wrapped = ScopedResource::new(&parent, 42u32);
    // reading through the wrapper behaves exactly as reading the resource
    assert_eq!(*wrapped.resource(), 42);
    assert_eq!(wrapped.parent(), &parent);
    assert_eq!(wrapped.into_resource(), 42);
}

#[test]
fn native_result_success_yields_the_value() {
    let r = NativeResult { value: 10u32, code: 0 }.into_result();
    assert_eq!(r.unwrap(), 10);
    // a positive status is still a success
    let r = NativeResult { value: 11u32, code: 1 }.into_result();
    assert_eq!(r.unwrap(), 11);
}

#[test]
fn native_result_failure_preserves_the_code() {
    let r = NativeResult { value: 10u32, code: -2005270526 }.into_result();
    assert_eq!(r.unwrap_err(), Error::WindowsError(-2005270526));
}

#[test]
fn error_codes_are_exposed_for_logging() {
    assert_eq!(Error::WindowsError(-5).native_code(), Some(-5));
    assert_eq!(Error::LoadLibraryError.native_code(), None);
    assert_eq!(Error::UnsupportedWindowHandle.native_code(), None);
}

#[test]
fn swap_chain_options_translate_to_the_native_descriptor() {
    let options = SwapChainOptions {
        backbuffer_count: 3,
        swap_effect: SwapEffect::FlipDiscard,
        sample_options: SampleOptions { sample_count: 8 },
        width: 1280,
        height: 720,
        format: Format::R8G8B8A8UNorm,
    };
    let desc = options.to_native_desc();
    assert_eq!(desc.width, 1280);
    assert_eq!(desc.height, 720);
    assert_eq!(desc.format, 28);
    assert!(!desc.stereo);
    assert_eq!(desc.sample_count, 8);
    assert_eq!(desc.sample_quality, 0);
    assert_eq!(desc.buffer_usage, DXGI_USAGE_RENDER_TARGET_OUTPUT);
    assert_eq!(desc.buffer_count, 3);
    assert_eq!(desc.scaling, DXGI_SCALING_STRETCH);
    assert_eq!(desc.swap_effect, 4);
    assert_eq!(desc.alpha_mode, DXGI_ALPHA_MODE_UNSPECIFIED);
    assert_eq!(desc.flags, 0);
}

#[test]
fn swap_effects_map_to_their_native_codes() {
    assert_eq!(SwapEffect::Discard.to_dxgi(), 0);
    assert_eq!(SwapEffect::Sequential.to_dxgi(), 1);
    assert_eq!(SwapEffect::FlipSequential.to_dxgi(), 3);
    assert_eq!(SwapEffect::FlipDiscard.to_dxgi(), 4);
}

#[test]
fn instance_options_default_to_no_debug_layer() {
    let options = NewInstanceOptions::default();
    assert!(!options.enable_debug_layer);
}

#[test]
fn window_handle_kinds_follow_the_platform_variant() {
    let win32 = raw_window_handle::RawWindowHandle::Win32(
        raw_window_handle::Win32WindowHandle::empty(),
    );
    assert_eq!(window_handle_kind(&win32), WindowHandleKind::Win32);

    let wayland = raw_window_handle::RawWindowHandle::Wayland(
        raw_window_handle::WaylandWindowHandle::empty(),
    );
    assert_eq!(window_handle_kind(&wayland), WindowHandleKind::Wayland);

    let xlib = raw_window_handle::RawWindowHandle::Xlib(
        raw_window_handle::XlibWindowHandle::empty(),
    );
    assert_eq!(window_handle_kind(&xlib), WindowHandleKind::Xlib);
}
