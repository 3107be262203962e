use herebedragons::adapters::NativeAdapterRecord;
use herebedragons::backend_d3d12::{
    Instance, NativeEvent, NativeHost, Queue, ResourceKind,
};
use herebedragons::error::Error;
use herebedragons::gfx::Instance as _;
use herebedragons::gfx::{
    Format, NewInstanceOptions, SampleOptions, SwapChainOptions, SwapEffect, WindowHandleKind,
};
use herebedragons::renderer::render_main;

use NativeEvent::{Created, Destroyed};
use ResourceKind::{CommandAllocator, Device, Factory, Fence, Queue as QueueKind, SwapChain};

fn one_adapter() -> Vec<NativeAdapterRecord> {
    vec![NativeAdapterRecord {
        code: 0,
        desc_code: 0,
        device_id: 7,
        vendor_id: 9,
        description: vec![0x47, 0x50, 0x55, 0],
        flags: 0,
    }]
}

#[test]
fn successful_run_creates_and_destroys_in_exact_reverse_order() {
    let mut host = NativeHost::new(Vec::new());
    let report = render_main(&mut host, one_adapter(), WindowHandleKind::Win32, 640, 480, 2)
        .unwrap();
    assert_eq!(report.adapter_count, 1);
    assert_eq!(report.backbuffer_count, 2);
    assert!(report.debug_layer_active);
    assert!(report.debug_factory);
    assert_eq!(report.device_adapter_index, 0);
    assert_eq!(report.selected_adapter.device_id, 7);
    assert_eq!(report.selected_adapter.description, "GPU");
    assert_eq!(
        host.trace,
        vec![
            Created(Factory, 0),
            Created(Device, 1),
            Created(QueueKind, 2),
            Created(CommandAllocator, 3),
            Created(Fence, 4),
            Created(CommandAllocator, 5),
            Created(Fence, 6),
            Created(SwapChain, 7),
            Destroyed(SwapChain, 7),
            Destroyed(Fence, 6),
            Destroyed(CommandAllocator, 5),
            Destroyed(Fence, 4),
            Destroyed(CommandAllocator, 3),
            Destroyed(QueueKind, 2),
            Destroyed(Device, 1),
            Destroyed(Factory, 0),
        ]
    );
}

#[test]
fn three_backbuffers_when_asked_for_three() {
    let mut host = NativeHost::new(Vec::new());
    let report = render_main(&mut host, one_adapter(), WindowHandleKind::Win32, 640, 480, 3)
        .unwrap();
    assert_eq!(report.backbuffer_count, 3);
    // three allocator/fence pairs were created
    let allocators = host
        .trace
        .iter()
        .filter(|e| matches!(e, Created(CommandAllocator, _)))
        .count();
    let fences = host.trace.iter().filter(|e| matches!(e, Created(Fence, _))).count();
    assert_eq!(allocators, 3);
    assert_eq!(fences, 3);
}

#[test]
fn allocator_failure_on_slot_one_aborts_the_whole_pool() {
    // the twelfth scripted status is slot 1's allocator
    let script = vec![0, 0, 0, 0, 0, 0, 0, 0, 0, 0, 0, -7];
    let mut host = NativeHost::new(script);
    let result = render_main(&mut host, one_adapter(), WindowHandleKind::Win32, 640, 480, 3);
    assert_eq!(result.unwrap_err(), Error::WindowsError(-7));
    // slot 0 was created and released; slots 1 and 2 never came to be
    assert_eq!(
        host.trace,
        vec![
            Created(Factory, 0),
            Created(Device, 1),
            Created(QueueKind, 2),
            Created(CommandAllocator, 3),
            Created(Fence, 4),
            Destroyed(Fence, 4),
            Destroyed(CommandAllocator, 3),
            Destroyed(QueueKind, 2),
            Destroyed(Device, 1),
            Destroyed(Factory, 0),
        ]
    );
}

#[test]
fn fence_failure_releases_the_dangling_allocator_first() {
    // the eleventh scripted status is slot 0's fence
    let script = vec![0, 0, 0, 0, 0, 0, 0, 0, 0, 0, -3];
    let mut host = NativeHost::new(script);
    let result = render_main(&mut host, one_adapter(), WindowHandleKind::Win32, 640, 480, 2);
    assert_eq!(result.unwrap_err(), Error::WindowsError(-3));
    assert_eq!(
        host.trace,
        vec![
            Created(Factory, 0),
            Created(Device, 1),
            Created(QueueKind, 2),
            Created(CommandAllocator, 3),
            Destroyed(CommandAllocator, 3),
            Destroyed(QueueKind, 2),
            Destroyed(Device, 1),
            Destroyed(Factory, 0),
        ]
    );
}

#[test]
fn unsupported_window_fails_after_releasing_the_pool() {
    let mut host = NativeHost::new(Vec::new());
    let result = render_main(&mut host, one_adapter(), WindowHandleKind::Wayland, 640, 480, 1);
    assert_eq!(result.unwrap_err(), Error::UnsupportedWindowHandle);
    // no swap chain was ever created
    assert!(!host.trace.iter().any(|e| matches!(e, Created(SwapChain, _))));
}

#[test]
fn swap_chain_rejects_non_win32_window_before_any_native_call() {
    let mut host = NativeHost::new(vec![0]);
    let instance = Instance {
        factory: 0,
        debug_active: false,
        debug_factory: false,
        adapter_records: Vec::new(),
    };
    let queue = Queue { handle: 1 };
    let options = SwapChainOptions {
        backbuffer_count: 2,
        swap_effect: SwapEffect::Discard,
        sample_options: SampleOptions { sample_count: 1 },
        width: 64,
        height: 64,
        format: Format::R8G8B8A8UNorm,
    };
    let result = instance.create_swap_chain_checked(&mut host, WindowHandleKind::AppKit, &queue, &options);
    assert_eq!(result.unwrap_err(), Error::UnsupportedWindowHandle);
    // nothing was created and no scripted status was consumed
    assert!(host.trace.is_empty());
    assert_eq!(host.script, vec![0]);
}

#[test]
fn debug_layer_unavailable_still_creates_the_instance() {
    // the fourth scripted status is the debug-interface status
    let script = vec![0, 0, 0, -5];
    let mut host = NativeHost::new(script);
    let instance = Instance::new_with_adapters(
        &mut host,
        NewInstanceOptions { enable_debug_layer: true },
        Vec::new(),
    )
    .unwrap();
    assert!(!instance.debug_active);
    assert!(instance.debug_factory);
    assert_eq!(host.trace, vec![Created(Factory, 0)]);
}

#[test]
fn debug_layer_available_comes_up() {
    let mut host = NativeHost::new(Vec::new());
    let instance = Instance::new_with_adapters(
        &mut host,
        NewInstanceOptions { enable_debug_layer: true },
        Vec::new(),
    )
    .unwrap();
    assert!(instance.debug_active);
    assert!(instance.debug_factory);
}

#[test]
fn info_queue_unavailable_falls_back_to_the_plain_factory() {
    // the sixth scripted status is the info-queue status: unavailable means
    // the plain factory comes up, with the debug layer still active
    let script = vec![0, 0, 0, 0, 0, -9];
    let mut host = NativeHost::new(script);
    let instance = Instance::new_with_adapters(
        &mut host,
        NewInstanceOptions { enable_debug_layer: true },
        Vec::new(),
    )
    .unwrap();
    assert!(instance.debug_active);
    assert!(!instance.debug_factory);
    assert_eq!(host.trace, vec![Created(Factory, 0)]);
}

#[test]
fn info_queue_load_failure_is_fatal() {
    // the fifth scripted status is the info-queue load
    let script = vec![0, 0, 0, 0, -2];
    let mut host = NativeHost::new(script);
    let result = Instance::new_with_adapters(
        &mut host,
        NewInstanceOptions { enable_debug_layer: true },
        Vec::new(),
    );
    assert_eq!(result.unwrap_err(), Error::LoadLibraryError);
    assert!(host.trace.is_empty());
}

#[test]
fn the_device_records_the_adapter_it_was_created_from() {
    let mut host = NativeHost::new(Vec::new());
    let instance = Instance {
        factory: 0,
        debug_active: false,
        debug_factory: false,
        adapter_records: Vec::new(),
    };
    let adapter = herebedragons::backend_d3d12::Adapter::new(4);
    let device = instance.create_device(&mut host, &adapter).unwrap();
    assert_eq!(device.resource().adapter_index, 4);
}

#[test]
fn the_swap_chain_carries_its_descriptor_and_queue() {
    let mut host = NativeHost::new(Vec::new());
    let instance = Instance {
        factory: 0,
        debug_active: false,
        debug_factory: false,
        adapter_records: Vec::new(),
    };
    let queue = Queue { handle: 5 };
    let options = SwapChainOptions {
        backbuffer_count: 2,
        swap_effect: SwapEffect::FlipDiscard,
        sample_options: SampleOptions { sample_count: 4 },
        width: 320,
        height: 240,
        format: Format::R8G8B8A8UNorm,
    };
    let swap_chain = instance
        .create_swap_chain_checked(&mut host, WindowHandleKind::Win32, &queue, &options)
        .unwrap();
    assert_eq!(swap_chain.resource().queue, 5);
    let desc = swap_chain.resource().desc;
    assert_eq!(desc, options.to_native_desc());
    assert_eq!(desc.buffer_count, 2);
    assert_eq!(desc.swap_effect, 4);
    assert_eq!(desc.width, 320);
}

#[test]
fn library_load_failure_is_fatal() {
    let script = vec![-1];
    let mut host = NativeHost::new(script);
    let result = Instance::new(&mut host, NewInstanceOptions::default());
    assert_eq!(result.unwrap_err(), Error::LoadLibraryError);
    assert!(host.trace.is_empty());
}

#[test]
fn factory_failure_preserves_the_native_code() {
    let script = vec![0, 0, -11];
    let mut host = NativeHost::new(script);
    let result = Instance::new(&mut host, NewInstanceOptions::default());
    assert_eq!(result.unwrap_err(), Error::WindowsError(-11));
}

#[test]
fn enumeration_failure_releases_the_instance() {
    let mut bad = NativeAdapterRecord {
        code: -9,
        desc_code: 0,
        device_id: 0,
        vendor_id: 0,
        description: Vec::new(),
        flags: 0,
    };
    bad.code = -9;
    let mut host = NativeHost::new(Vec::new());
    let result = render_main(&mut host, vec![bad], WindowHandleKind::Win32, 640, 480, 1);
    assert_eq!(result.unwrap_err(), Error::WindowsError(-9));
    assert_eq!(host.trace, vec![Created(Factory, 0), Destroyed(Factory, 0)]);
}

#[test]
fn swap_chain_from_a_raw_window_handle() {
    let mut host = NativeHost::new(Vec::new());
    let instance = Instance {
        factory: 0,
        debug_active: false,
        debug_factory: false,
        adapter_records: Vec::new(),
    };
    let queue = Queue { handle: 2 };
    let options = SwapChainOptions {
        backbuffer_count: 1,
        swap_effect: SwapEffect::Discard,
        sample_options: SampleOptions { sample_count: 1 },
        width: 32,
        height: 32,
        format: Format::R8G8B8A8UNorm,
    };
    let win32 = raw_window_handle::RawWindowHandle::Win32(
        raw_window_handle::Win32WindowHandle::empty(),
    );
    let swap_chain = instance.create_swap_chain(&mut host, &win32, &queue, &options).unwrap();
    assert_eq!(swap_chain.resource().queue, 2);
    assert_eq!(swap_chain.resource().desc, options.to_native_desc());

    let wayland = raw_window_handle::RawWindowHandle::Wayland(
        raw_window_handle::WaylandWindowHandle::empty(),
    );
    let mut untouched = NativeHost::new(Vec::new());
    let result = instance.create_swap_chain(&mut untouched, &wayland, &queue, &options);
    assert_eq!(result.unwrap_err(), Error::UnsupportedWindowHandle);
    assert!(untouched.trace.is_empty());
}
