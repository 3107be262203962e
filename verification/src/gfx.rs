//! The backend capability contract: the trait family every concrete backend
//! implements, the plain configuration and descriptor values shared by all
//! backends, the scoped-resource ownership wrapper, and the translation of
//! portable swap-chain options into the raw native descriptor layout.

use vstd::prelude::*;

use raw_window_handle::RawWindowHandle as Raw;

use crate::error::Error;

verus! {

/// How the native presentation engine treats a backbuffer after presenting it.
#[derive(Debug, Clone, Copy, PartialEq, Eq, Structural)]
pub enum SwapEffect {
    Discard,
    Sequential,
    FlipSequential,
    FlipDiscard,
}

/// Pixel format of the swap-chain backbuffers.
#[derive(Debug, Clone, Copy, PartialEq, Eq, Structural)]
pub enum Format {
    R8G8B8A8UNorm,
}

/// Configuration consumed when an instance is created.
#[derive(Debug, Clone, Copy, PartialEq, Eq, Structural)]
pub struct NewInstanceOptions {
    pub enable_debug_layer: bool,
}

impl Default for NewInstanceOptions {
    fn default() -> (r: Self)
        ensures
            !r.enable_debug_layer,
    {
        NewInstanceOptions { enable_debug_layer: false }
    }
}

/// Multisampling configuration of a swap chain.
#[derive(Debug, Clone, Copy, PartialEq, Eq, Structural)]
pub struct SampleOptions {
    pub sample_count: usize,
}

impl Default for SampleOptions {
    fn default() -> (r: Self)
        ensures
            r.sample_count == 0,
    {
        SampleOptions { sample_count: 0 }
    }
}

/// Configuration consumed when a swap chain is created.
#[derive(Debug, Clone, Copy, PartialEq, Eq, Structural)]
pub struct SwapChainOptions {
    pub backbuffer_count: usize,
    pub swap_effect: SwapEffect,
    pub sample_options: SampleOptions,
    pub width: u32,
    pub height: u32,
    pub format: Format,
}

/// Immutable snapshot describing one physical GPU adapter.
#[derive(Debug, Clone)]
pub struct AdapterDescription {
    pub device_id: u32,
    pub vendor_id: u32,
    pub description: String,
    pub has_hw_acceleration: bool,
}

/// The family of roles a concrete backend binds together. Each associated
/// type is expected to implement the role trait of the same name; the bound
/// is stated at the use sites rather than here so that the family is not
/// defined in terms of itself. `Host` is the backend's connection to the
/// native driver, handed explicitly to every operation that makes native
/// calls, so that what those calls did is part of each operation's state.
pub trait Backend: Sized {
    type Host;
    type Instance;
    type Adapter;
    type Device;
    type Queue;
    type DescriptorHeap;
    type CommandAllocator;
    type CommandList;
    type Fence;
    type SwapChain;
}

/// Root handle of one native graphics session: enumerates hardware and
/// creates the objects that everything else is built from.
pub trait Instance<B: Backend>: Sized {
    fn new(host: &mut B::Host, options: NewInstanceOptions) -> Result<Self, Error>;

    fn enumerate_adapters(&self) -> Result<Vec<AdapterDetails<B>>, Error>;

    fn create_device(&self, host: &mut B::Host, adapter: &B::Adapter) -> Result<
        ScopedResource<B::Instance, B::Device>,
        Error,
    >;

    fn create_swap_chain(
        &self,
        host: &mut B::Host,
        raw_window: &raw_window_handle::RawWindowHandle,
        queue: &B::Queue,
        options: &SwapChainOptions,
    ) -> Result<ScopedResource<B::Instance, B::SwapChain>, Error>
        requires
            options.sample_options.sample_count <= u32::MAX,
            options.backbuffer_count <= u32::MAX,
    ;
}

pub trait Adapter<B: Backend> {
}

/// Logical GPU context: the parent of queues, command allocators and fences.
pub trait Device<B: Backend> {
    fn create_queue(&self, host: &mut B::Host) -> Result<
        ScopedResource<B::Device, B::Queue>,
        Error,
    >;

    fn create_command_allocator(&self, host: &mut B::Host) -> Result<
        ScopedResource<B::Device, B::CommandAllocator>,
        Error,
    >;

    fn create_fence(&self, host: &mut B::Host, initial: u64) -> Result<
        ScopedResource<B::Device, B::Fence>,
        Error,
    >;
}

pub trait Queue<B: Backend> {
}

pub trait DescriptorHeap<B: Backend> {
}

pub trait CommandAllocator<B: Backend> {
}

pub trait CommandList<B: Backend> {
}

pub trait Fence<B: Backend> {
}

pub trait SwapChain<B: Backend> {
}

/// One enumerated physical GPU: the opaque adapter handle paired with its
/// immutable description.
pub struct AdapterDetails<B: Backend> {
    pub adapter: B::Adapter,
    pub description: AdapterDescription,
}

/// Ownership wrapper binding a created resource to the parent that created
/// it: it holds a non-owning reference to the parent and owns the resource,
/// so the resource cannot outlive its parent and is released first.
///
/// The wrapper is pure delegation: it adds no state and no behaviour beyond
/// the pairing itself.
#[derive(Debug)]
pub struct ScopedResource<'a, P, T> {
    pub parent: &'a P,
    pub resource: T,
}

impl<'a, P, T> ScopedResource<'a, P, T> {
    /// Ties `resource` to the lifetime of `parent`.
    pub fn new(parent: &'a P, resource: T) -> (r: Self)
        ensures
            r.parent == parent,
            r.resource == resource,
    {
        ScopedResource { parent, resource }
    }

    /// The wrapped resource, unchanged.
    pub fn resource(&self) -> (r: &T)
        ensures
            r == self.resource,
    {
        &self.resource
    }

    /// The parent the resource is tied to, unchanged.
    pub fn parent(&self) -> (r: &'a P)
        ensures
            r == self.parent,
    {
        self.parent
    }

    /// Releases the tie and hands the resource back, unchanged.
    pub fn into_resource(self) -> (r: T)
        ensures
            r == self.resource,
    {
        self.resource
    }
}

/// The platform kind of a native window handle.
#[derive(Debug, Clone, Copy, PartialEq, Eq, Structural)]
pub enum WindowHandleKind {
    UiKit,
    AppKit,
    Orbital,
    Xlib,
    Xcb,
    Wayland,
    Drm,
    Gbm,
    Win32,
    WinRt,
    Web,
    AndroidNdk,
    Haiku,
    Unknown,
}

#[verifier::external_type_specification]
#[verifier::external_body]
pub struct ExRawWindowHandle(raw_window_handle::RawWindowHandle);

/// The platform kind a native window handle carries: a function of the
/// handle alone, fixed by the reading wrapper below.
pub uninterp spec fn spec_window_kind(h: raw_window_handle::RawWindowHandle) -> WindowHandleKind;

/// Relies on raw_window_handle::RawWindowHandle: reads which platform
/// variant the handle carries, one arm per variant; the enum is
/// non-exhaustive, so variants added later map to `Unknown`.
#[verifier::external_body]
pub fn window_handle_kind(raw_window: &raw_window_handle::RawWindowHandle) -> (r:
    WindowHandleKind)
    ensures
        r == spec_window_kind(*raw_window),
{
    match raw_window {
        Raw::UiKit(_) => WindowHandleKind::UiKit,
        Raw::AppKit(_) => WindowHandleKind::AppKit,
        Raw::Orbital(_) => WindowHandleKind::Orbital,
        Raw::Xlib(_) => WindowHandleKind::Xlib,
        Raw::Xcb(_) => WindowHandleKind::Xcb,
        Raw::Wayland(_) => WindowHandleKind::Wayland,
        Raw::Drm(_) => WindowHandleKind::Drm,
        Raw::Gbm(_) => WindowHandleKind::Gbm,
        Raw::Win32(_) => WindowHandleKind::Win32,
        Raw::WinRt(_) => WindowHandleKind::WinRt,
        Raw::Web(_) => WindowHandleKind::Web,
        Raw::AndroidNdk(_) => WindowHandleKind::AndroidNdk,
        Raw::Haiku(_) => WindowHandleKind::Haiku, _ => WindowHandleKind::Unknown,
    }
}

/// `DXGI_FORMAT_R8G8B8A8_UNORM` in the native format enumeration.
pub const DXGI_FORMAT_R8G8B8A8_UNORM: u32 = 28;

/// `DXGI_USAGE_RENDER_TARGET_OUTPUT` in the native usage flags.
pub const DXGI_USAGE_RENDER_TARGET_OUTPUT: u32 = 32;

/// `DXGI_SCALING_STRETCH` in the native scaling enumeration.
pub const DXGI_SCALING_STRETCH: u32 = 0;

/// `DXGI_ALPHA_MODE_UNSPECIFIED` in the native alpha-mode enumeration.
pub const DXGI_ALPHA_MODE_UNSPECIFIED: u32 = 0;

impl Format {
    /// The native format code of this pixel format.
    pub fn to_dxgi(self) -> (r: u32)
        ensures
            r == self.spec_dxgi(),
    {
        match self {
            Format::R8G8B8A8UNorm => DXGI_FORMAT_R8G8B8A8_UNORM,
        }
    }

    /// The native format code, as a mathematical value.
    pub open spec fn spec_dxgi(self) -> u32 {
        match self {
            Format::R8G8B8A8UNorm => DXGI_FORMAT_R8G8B8A8_UNORM,
        }
    }
}

impl SwapEffect {
    /// The native swap-effect code of this portable swap effect.
    pub fn to_dxgi(self) -> (r: u32)
        ensures
            r == self.spec_dxgi(),
    {
        match self {
            SwapEffect::Discard => 0,
            SwapEffect::Sequential => 1,
            SwapEffect::FlipSequential => 3,
            SwapEffect::FlipDiscard => 4,
        }
    }

    /// The native swap-effect code, as a mathematical value.
    pub open spec fn spec_dxgi(self) -> u32 {
        match self {
            SwapEffect::Discard => 0,
            SwapEffect::Sequential => 1,
            SwapEffect::FlipSequential => 3,
            SwapEffect::FlipDiscard => 4,
        }
    }
}

/// The raw swap-chain descriptor layout handed to the native API, with every
/// field already translated to its native encoding.
#[derive(Debug, Clone, Copy, PartialEq, Eq, Structural)]
pub struct SwapchainDesc {
    pub width: u32,
    pub height: u32,
    pub format: u32,
    pub stereo: bool,
    pub sample_count: u32,
    pub sample_quality: u32,
    pub buffer_usage: u32,
    pub buffer_count: u32,
    pub scaling: u32,
    pub swap_effect: u32,
    pub alpha_mode: u32,
    pub flags: u32,
}

impl SwapChainOptions {
    /// The raw native descriptor these options translate to, as a
    /// mathematical value: dimensions and counts are copied, the format and
    /// swap effect are mapped to their native codes, and the remaining
    /// fields take the fixed values a render-target swap chain uses.
    pub open spec fn spec_native_desc(self) -> SwapchainDesc {
        SwapchainDesc {
            width: self.width,
            height: self.height,
            format: self.format.spec_dxgi(),
            stereo: false,
            sample_count: self.sample_options.sample_count as u32,
            sample_quality: 0,
            buffer_usage: DXGI_USAGE_RENDER_TARGET_OUTPUT,
            buffer_count: self.backbuffer_count as u32,
            scaling: DXGI_SCALING_STRETCH,
            swap_effect: self.swap_effect.spec_dxgi(),
            alpha_mode: DXGI_ALPHA_MODE_UNSPECIFIED,
            flags: 0,
        }
    }

    /// Translates the portable options into the raw native descriptor.
    pub fn to_native_desc(&self) -> (r: SwapchainDesc)
        requires
            self.sample_options.sample_count <= u32::MAX,
            self.backbuffer_count <= u32::MAX,
        ensures
            r == self.spec_native_desc(),
            r.sample_count == self.sample_options.sample_count,
            r.buffer_count == self.backbuffer_count,
    {
        SwapchainDesc {
            width: self.width,
            height: self.height,
            format: self.format.to_dxgi(),
            stereo: false,
            sample_count: self.sample_options.sample_count as u32,
            sample_quality: 0,
            buffer_usage: DXGI_USAGE_RENDER_TARGET_OUTPUT,
            buffer_count: self.backbuffer_count as u32,
            scaling: DXGI_SCALING_STRETCH,
            swap_effect: self.swap_effect.to_dxgi(),
            alpha_mode: DXGI_ALPHA_MODE_UNSPECIFIED,
            flags: 0,
        }
    }
}

} // verus!
