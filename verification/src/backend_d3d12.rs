//! A model of the Direct3D 12 backend, verified against a scripted native
//! session.
//!
//! The native driver itself cannot run inside the verified library, so the
//! session stands in for it: every native call draws its status code from a
//! finite script (a script that runs out keeps answering success), and every
//! native object created or released is recorded in an event trace. The
//! decision logic around the calls — the debug-layer fallback at instance
//! creation, enumeration, the error translation, and the teardown order —
//! is exactly the backend's and is verified; the trace makes creation and
//! destruction order a provable property.
//!
//! Each creation call other than instance creation is modelled as one
//! scripted status: the native API reports its failures for these through a
//! single status code. Instance creation keeps its longer flow, because its
//! logic — two library loads, the optional debug-interface probe with its
//! degraded path, then factory creation — is where the decisions live.

use vstd::prelude::*;

use crate::adapters::{enumerate_adapter_records, EnumeratedAdapter, NativeAdapterRecord};
use crate::error::Error;
use crate::gfx;
use crate::gfx::{
    AdapterDetails, NewInstanceOptions, ScopedResource, SwapChainOptions, SwapchainDesc,
    WindowHandleKind,
};
use crate::hresult::{IntoResult, NativeResult};

verus! {

/// The kinds of native object whose creation and release the session tracks.
#[derive(Debug, Clone, Copy, PartialEq, Eq, Structural)]
pub enum ResourceKind {
    Factory,
    Device,
    Queue,
    CommandAllocator,
    CommandList,
    Fence,
    SwapChain,
}

/// One observable native action: an object of some kind was created under a
/// handle, or released.
#[derive(Debug, Clone, Copy, PartialEq, Eq, Structural)]
pub enum NativeEvent {
    Created(ResourceKind, u64),
    Destroyed(ResourceKind, u64),
}

/// The status code the script answers at position `k`: the scripted code
/// while the script lasts, success afterwards.
pub open spec fn code_at(s: Seq<i32>, k: int) -> i32 {
    if 0 <= k < s.len() {
        s[k]
    } else {
        0
    }
}

/// The script after `n` answers have been drawn from it.
pub open spec fn consume(s: Seq<i32>, n: int) -> Seq<i32> {
    if 0 <= n <= s.len() {
        s.skip(n)
    } else if n < 0 {
        s
    } else {
        Seq::empty()
    }
}

/// Drawing answers one after the other is drawing them all at once.
pub proof fn lemma_consume_consume(s: Seq<i32>, a: int, b: int)
    requires
        a >= 0,
        b >= 0,
    ensures
        consume(consume(s, a), b) == consume(s, a + b),
{
    if a <= s.len() {
        if b <= s.len() - a {
            assert(consume(consume(s, a), b) =~= consume(s, a + b));
        } else {
            assert(consume(consume(s, a), b) =~= consume(s, a + b));
        }
    } else {
        assert(consume(consume(s, a), b) =~= consume(s, a + b));
    }
}

/// Later answers are unchanged by drawing earlier ones.
pub proof fn lemma_code_at_consume(s: Seq<i32>, a: int, k: int)
    requires
        a >= 0,
        k >= 0,
    ensures
        code_at(consume(s, a), k) == code_at(s, a + k),
{
}

/// The scripted native session: stands in for the native driver. Each call
/// draws the next status code from the script; each object created or
/// released is appended to the trace. Handles are the trace position at
/// creation, so every created object has a unique handle.
#[derive(Debug)]
pub struct NativeHost {
    pub script: Vec<i32>,
    pub trace: Vec<NativeEvent>,
}

impl NativeHost {
    /// A fresh session that will answer the given status codes in order.
    pub fn new(script: Vec<i32>) -> (r: Self)
        ensures
            r.script == script,
            r.trace@ == Seq::<NativeEvent>::empty(),
    {
        NativeHost { script, trace: Vec::new() }
    }

    /// One native call that produces no tracked object (a library load or an
    /// interface probe): answers the next scripted status.
    fn native_call(&mut self) -> (r: i32)
        ensures
            r == code_at(old(self).script@, 0),
            final(self).script@ == consume(old(self).script@, 1),
            final(self).trace == old(self).trace,
    {
        if self.script.len() > 0 {
            let code = self.script.remove(0);
            proof {
                assert(final(self).script@ =~= consume(old(self).script@, 1));
            }
            code
        } else {
            0
        }
    }

    /// One native creation call: on a success status the object is created
    /// under the next handle and recorded; on a failing status nothing is
    /// created and the status comes back as a native-API error.
    fn create(&mut self, kind: ResourceKind) -> (r: Result<u64, Error>)
        ensures
            final(self).script@ == consume(old(self).script@, 1),
            code_at(old(self).script@, 0) >= 0 ==> (r matches Ok(h) && h == old(
                self,
            ).trace@.len() as u64 && final(self).trace@ == old(self).trace@.push(
                NativeEvent::Created(kind, old(self).trace@.len() as u64),
            )),
            code_at(old(self).script@, 0) < 0 ==> (r == Err::<u64, Error>(
                Error::WindowsError(code_at(old(self).script@, 0)),
            ) && final(self).trace == old(self).trace),
    {
        let code = self.native_call();
        let handle = self.trace.len() as u64;
        match (NativeResult { value: handle, code }).into_result() {
            Ok(handle) => {
                self.trace.push(NativeEvent::Created(kind, handle));
                Ok(handle)
            },
            Err(e) => Err(e),
        }
    }

    /// One native release call: recorded, never failing.
    fn destroy(&mut self, kind: ResourceKind, handle: u64)
        ensures
            final(self).script == old(self).script,
            final(self).trace@ == old(self).trace@.push(NativeEvent::Destroyed(kind, handle)),
    {
        self.trace.push(NativeEvent::Destroyed(kind, handle));
    }
}

/// The Direct3D 12 backend tag, binding the role types of this module
/// together.
#[derive(Debug, Clone)]
pub struct BackendD3D12;

impl gfx::Backend for BackendD3D12 {
    type Host = NativeHost;
    type Instance = Instance;
    type Adapter = Adapter;
    type Device = Device;
    type Queue = Queue;
    type DescriptorHeap = DescriptorHeap;
    type CommandAllocator = CommandAllocator;
    type CommandList = CommandList;
    type Fence = Fence;
    type SwapChain = SwapChain;
}

/// One physical GPU as enumeration handed it out: its native enumeration
/// index stands for the native adapter object, which is never released
/// explicitly.
#[derive(Debug, Clone, Copy)]
pub struct Adapter {
    pub index: usize,
}

impl Adapter {
    pub fn new(index: usize) -> (r: Self)
        ensures
            r.spec_index() == index,
    {
        Adapter { index }
    }

    /// The underlying native enumeration index.
    pub fn raw(&self) -> (r: usize)
        ensures
            r == self.spec_index(),
    {
        self.index
    }

    pub open spec fn spec_index(self) -> usize {
        self.index
    }
}

impl gfx::Adapter<BackendD3D12> for Adapter {

}

/// Root handle of one backend session: owns the native factory and the
/// enumeration answers of the hardware behind it.
#[derive(Debug)]
pub struct Instance {
    /// Handle of the native factory object.
    pub factory: u64,
    /// Whether the debug layer came up; requesting it on an environment
    /// without a debug interface degrades to `false`, never to a failure.
    pub debug_active: bool,
    /// Which factory flavor came up: the debug-flagged factory when the
    /// info queue was available, else the plain factory — the documented
    /// fallback to a lesser context.
    pub debug_factory: bool,
    /// The native enumeration's answers, one per adapter index.
    pub adapter_records: Vec<NativeAdapterRecord>,
}

/// What instance creation leaves behind, given the session before (`pre`)
/// and after (`post`), the options, the enumeration answers handed over,
/// and the result: the exact contract of [`Instance::new`].
pub open spec fn instance_new_post(
    pre: NativeHost,
    post: NativeHost,
    options: NewInstanceOptions,
    records: Seq<NativeAdapterRecord>,
    r: Result<Instance, Error>,
) -> bool {
    let s = pre.script@;
    let t = pre.trace@;
    if code_at(s, 0) < 0 {
        &&& r == Err::<Instance, Error>(Error::LoadLibraryError)
        &&& post.script@ == consume(s, 1)
        &&& post.trace@ == t
    } else if code_at(s, 1) < 0 {
        &&& r == Err::<Instance, Error>(Error::LoadLibraryError)
        &&& post.script@ == consume(s, 2)
        &&& post.trace@ == t
    } else if !options.enable_debug_layer {
        if code_at(s, 2) >= 0 {
            &&& r matches Ok(inst)
            &&& inst.factory == t.len() as u64
            &&& !inst.debug_active
            &&& !inst.debug_factory
            &&& inst.adapter_records@ == records
            &&& post.script@ == consume(s, 3)
            &&& post.trace@ == t.push(
                NativeEvent::Created(ResourceKind::Factory, t.len() as u64),
            )
        } else {
            &&& r == Err::<Instance, Error>(Error::WindowsError(code_at(s, 2)))
            &&& post.script@ == consume(s, 3)
            &&& post.trace@ == t
        }
    } else if code_at(s, 2) < 0 {
        &&& r == Err::<Instance, Error>(Error::LoadLibraryError)
        &&& post.script@ == consume(s, 3)
        &&& post.trace@ == t
    } else if code_at(s, 4) < 0 {
        &&& r == Err::<Instance, Error>(Error::LoadLibraryError)
        &&& post.script@ == consume(s, 5)
        &&& post.trace@ == t
    } else if code_at(s, 6) >= 0 {
        &&& r matches Ok(inst)
        &&& inst.factory == t.len() as u64
        &&& inst.debug_active == (code_at(s, 3) >= 0)
        &&& inst.debug_factory == (code_at(s, 5) >= 0)
        &&& inst.adapter_records@ == records
        &&& post.script@ == consume(s, 7)
        &&& post.trace@ == t.push(NativeEvent::Created(ResourceKind::Factory, t.len() as u64))
    } else {
        &&& r == Err::<Instance, Error>(Error::WindowsError(code_at(s, 6)))
        &&& post.script@ == consume(s, 7)
        &&& post.trace@ == t
    }
}

impl Instance {
    /// Creates the instance against the native session: loads the two
    /// native libraries (either failing to load is fatal); with the debug
    /// layer requested, probes the debug interface and the info queue, each
    /// a load (fatal on failure) followed by a status (degraded path on
    /// failure — a missing debug interface only leaves the layer off, a
    /// missing info queue falls back from the debug-flagged factory to the
    /// plain one, never a failure); then creates the factory.
    ///
    /// The scripted statuses are drawn in this order: the two library
    /// loads; with the debug layer requested, the debug-interface load and
    /// status, then the info-queue load and status; then factory creation.
    pub fn new_with_adapters(
        host: &mut NativeHost,
        options: NewInstanceOptions,
        adapter_records: Vec<NativeAdapterRecord>,
    ) -> (r: Result<Instance, Error>)
        ensures
            instance_new_post(*old(host), *final(host), options, adapter_records@, r),
    {
        let ghost s = host.script@;
        let d3d12_load = host.native_call();
        if d3d12_load < 0 {
            return Err(Error::LoadLibraryError);
        }
        let dxgi_load = host.native_call();
        proof {
            lemma_consume_consume(s, 1, 1);
            lemma_code_at_consume(s, 1, 0);
        }
        if dxgi_load < 0 {
            return Err(Error::LoadLibraryError);
        }
        let mut debug_active = false;
        let mut debug_factory = false;
        if options.enable_debug_layer {
            // the debug interface: a failed load is fatal, a failing
            // status only leaves the layer off
            let debug_load = host.native_call();
            proof {
                lemma_consume_consume(s, 2, 1);
                lemma_code_at_consume(s, 2, 0);
            }
            if debug_load < 0 {
                return Err(Error::LoadLibraryError);
            }
            let debug_status = host.native_call();
            proof {
                lemma_consume_consume(s, 3, 1);
                lemma_code_at_consume(s, 3, 0);
            }
            if debug_status >= 0 {
                debug_active = true;
            }
            // the info queue decides the factory flavor: unavailable means
            // the plain factory, not a failure
            let info_queue_load = host.native_call();
            proof {
                lemma_consume_consume(s, 4, 1);
                lemma_code_at_consume(s, 4, 0);
            }
            if info_queue_load < 0 {
                return Err(Error::LoadLibraryError);
            }
            let info_queue_status = host.native_call();
            proof {
                lemma_consume_consume(s, 5, 1);
                lemma_code_at_consume(s, 5, 0);
            }
            if info_queue_status >= 0 {
                debug_factory = true;
            }
        }
        proof {
            let consumed_so_far: int = if options.enable_debug_layer {
                6
            } else {
                2
            };
            lemma_consume_consume(s, consumed_so_far, 1);
            lemma_code_at_consume(s, consumed_so_far, 0);
        }
        match host.create(ResourceKind::Factory) {
            Ok(factory) => Ok(
                Instance { factory, debug_active, debug_factory, adapter_records },
            ),
            Err(e) => Err(e),
        }
    }

    /// Releases the native factory.
    pub fn destroy(self, host: &mut NativeHost)
        ensures
            final(host).script == old(host).script,
            final(host).trace@ == old(host).trace@.push(
                NativeEvent::Destroyed(ResourceKind::Factory, self.factory),
            ),
    {
        host.destroy(ResourceKind::Factory, self.factory);
    }

    /// Creates the swap chain for a window, tied to this instance. The
    /// window handle's platform kind is validated first: the backend only
    /// presents to Win32 windows, and any other kind is a configuration
    /// error reported before any native call is made. With a supported
    /// window, the options are translated to the raw native descriptor and
    /// the native creation call receives that descriptor and the given
    /// queue; its scripted status decides.
    pub fn create_swap_chain_checked<'a>(
        &'a self,
        host: &mut NativeHost,
        window: WindowHandleKind,
        queue: &Queue,
        options: &SwapChainOptions,
    ) -> (r: Result<ScopedResource<'a, Instance, SwapChain>, Error>)
        requires
            options.sample_options.sample_count <= u32::MAX,
            options.backbuffer_count <= u32::MAX,
        ensures
            window != WindowHandleKind::Win32 ==> (r == Err::<
                ScopedResource<'a, Instance, SwapChain>,
                Error,
            >(Error::UnsupportedWindowHandle) && *final(host) == *old(host)),
            window == WindowHandleKind::Win32 ==> {
                &&& final(host).script@ == consume(old(host).script@, 1)
                &&& code_at(old(host).script@, 0) >= 0 ==> (r matches Ok(s) && s.parent == self
                    && s.resource.handle == old(host).trace@.len() as u64 && s.resource.desc
                    == options.spec_native_desc() && s.resource.queue == queue.handle
                    && final(host).trace@ == old(host).trace@.push(
                    NativeEvent::Created(ResourceKind::SwapChain, old(host).trace@.len() as u64),
                ))
                &&& code_at(old(host).script@, 0) < 0 ==> (r == Err::<
                    ScopedResource<'a, Instance, SwapChain>,
                    Error,
                >(Error::WindowsError(code_at(old(host).script@, 0))) && final(host).trace == old(
                    host,
                ).trace)
            },
    {
        if !matches!(window, WindowHandleKind::Win32) {
            return Err(Error::UnsupportedWindowHandle);
        }
        let desc = options.to_native_desc();
        match host.create(ResourceKind::SwapChain) {
            Ok(handle) => Ok(
                ScopedResource::new(self, SwapChain { handle, desc, queue: queue.handle }),
            ),
            Err(e) => Err(e),
        }
    }

}

impl gfx::Instance<BackendD3D12> for Instance {
    /// As [`Instance::new_with_adapters`], for a session with no enumerable hardware
    /// configured: the capability contract does not carry the enumeration
    /// answers, so they start empty.
    fn new(host: &mut NativeHost, options: NewInstanceOptions) -> (r: Result<Instance, Error>)
        ensures
            instance_new_post(
                *old(host),
                *final(host),
                options,
                Seq::<NativeAdapterRecord>::empty(),
                r,
            ),
    {
        let adapter_records: Vec<NativeAdapterRecord> = Vec::new();
        proof {
            assert(adapter_records@ =~= Seq::<NativeAdapterRecord>::empty());
        }
        Instance::new_with_adapters(host, options, adapter_records)
    }

    /// Walks the native enumeration answers and hands back the adapters in
    /// native preference order, each index paired with its decoded
    /// description; the exact protocol is
    /// [`enumerate_adapter_records`](crate::adapters::enumerate_adapter_records).
    fn enumerate_adapters(&self) -> (r: Result<Vec<AdapterDetails<BackendD3D12>>, Error>)
        ensures
            ({
                let records = self.adapter_records@;
                let n = crate::adapters::enum_prefix_len(records);
                if n == records.len() || crate::adapters::is_terminator(records[n as int]) {
                    r matches Ok(v) && v@.len() == n && (forall|i: int|
                        0 <= i < n ==> (#[trigger] v@[i]).adapter.spec_index() == i
                            && crate::adapters::spec_description(records[i], v@[i].description))
                } else {
                    r == Err::<Vec<AdapterDetails<BackendD3D12>>, Error>(
                        Error::WindowsError(crate::adapters::failure_code(records[n as int])),
                    )
                }
            }),
    {
        let mut enumerated = match enumerate_adapter_records(&self.adapter_records) {
            Ok(v) => v,
            Err(e) => {
                return Err(e);
            },
        };
        let ghost orig = enumerated@;
        let mut out: Vec<AdapterDetails<BackendD3D12>> = Vec::new();
        while enumerated.len() > 0
            invariant
                out@.len() + enumerated@.len() == orig.len(),
                enumerated@ == orig.skip(out@.len() as int),
                forall|k: int|
                    0 <= k < out@.len() ==> (#[trigger] out@[k]).adapter.spec_index()
                        == orig[k].index && out@[k].description == orig[k].description,
            decreases enumerated@.len(),
        {
            let EnumeratedAdapter { index, description } = enumerated.remove(0);
            out.push(AdapterDetails { adapter: Adapter::new(index), description });
            proof {
                assert(enumerated@ =~= orig.skip(out@.len() as int));
            }
        }
        Ok(out)
    }

    /// Creates the logical device for one enumerated adapter, tied to this
    /// instance: one native creation call, succeeding exactly when its
    /// scripted status does. One call, one device: the device records the
    /// adapter it was created from, and no pooling or reuse happens here.
    fn create_device<'a>(&'a self, host: &mut NativeHost, adapter: &Adapter) -> (r: Result<
        ScopedResource<'a, Instance, Device>,
        Error,
    >)
        ensures
            final(host).script@ == consume(old(host).script@, 1),
            code_at(old(host).script@, 0) >= 0 ==> (r matches Ok(d) && d.parent == self
                && d.resource.handle == old(host).trace@.len() as u64
                && d.resource.adapter_index == adapter.spec_index() && final(host).trace@ == old(
                host,
            ).trace@.push(
                NativeEvent::Created(ResourceKind::Device, old(host).trace@.len() as u64),
            )),
            code_at(old(host).script@, 0) < 0 ==> (r == Err::<
                ScopedResource<'a, Instance, Device>,
                Error,
            >(Error::WindowsError(code_at(old(host).script@, 0))) && final(host).trace == old(
                host,
            ).trace),
    {
        let adapter_index = adapter.raw();
        match host.create(ResourceKind::Device) {
            Ok(handle) => Ok(ScopedResource::new(self, Device { handle, adapter_index })),
            Err(e) => Err(e),
        }
    }

    /// As [`Instance::create_swap_chain_checked`], from the platform's own
    /// window handle: the handle's platform kind is read off and validated;
    /// only a Win32 handle reaches the native creation call.
    fn create_swap_chain<'a>(
        &'a self,
        host: &mut NativeHost,
        raw_window: &raw_window_handle::RawWindowHandle,
        queue: &Queue,
        options: &SwapChainOptions,
    ) -> (r: Result<ScopedResource<'a, Instance, SwapChain>, Error>)
        ensures
            crate::gfx::spec_window_kind(*raw_window) != WindowHandleKind::Win32 ==> (r == Err::<
                ScopedResource<'a, Instance, SwapChain>,
                Error,
            >(Error::UnsupportedWindowHandle) && *final(host) == *old(host)),
            crate::gfx::spec_window_kind(*raw_window) == WindowHandleKind::Win32 ==> {
                &&& final(host).script@ == consume(old(host).script@, 1)
                &&& code_at(old(host).script@, 0) >= 0 ==> (r matches Ok(s) && s.parent == self
                    && s.resource.handle == old(host).trace@.len() as u64 && s.resource.desc
                    == options.spec_native_desc() && s.resource.queue == queue.handle
                    && final(host).trace@ == old(host).trace@.push(
                    NativeEvent::Created(ResourceKind::SwapChain, old(host).trace@.len() as u64),
                ))
                &&& code_at(old(host).script@, 0) < 0 ==> (r == Err::<
                    ScopedResource<'a, Instance, SwapChain>,
                    Error,
                >(Error::WindowsError(code_at(old(host).script@, 0))) && final(host).trace == old(
                    host,
                ).trace)
            },
    {
        let window = crate::gfx::window_handle_kind(raw_window);
        Instance::create_swap_chain_checked(self, host, window, queue, options)
    }
}

/// Logical GPU context: the parent of queues, command allocators and
/// fences, created from exactly one adapter, whose enumeration index it
/// records.
#[derive(Debug)]
pub struct Device {
    pub handle: u64,
    /// The enumeration index of the adapter this device was created from.
    pub adapter_index: usize,
}

impl Device {
    pub fn new(handle: u64, adapter_index: usize) -> (r: Self)
        ensures
            r.handle == handle,
            r.adapter_index == adapter_index,
    {
        Device { handle, adapter_index }
    }

    /// Releases the native device.
    pub fn destroy(self, host: &mut NativeHost)
        ensures
            final(host).script == old(host).script,
            final(host).trace@ == old(host).trace@.push(
                NativeEvent::Destroyed(ResourceKind::Device, self.handle),
            ),
    {
        host.destroy(ResourceKind::Device, self.handle);
    }
}

impl gfx::Device<BackendD3D12> for Device {
    /// Creates the command queue, tied to this device: one native creation
    /// call, succeeding exactly when its scripted status does.
    fn create_queue<'a>(&'a self, host: &mut NativeHost) -> (r: Result<
        ScopedResource<'a, Device, Queue>,
        Error,
    >)
        ensures
            final(host).script@ == consume(old(host).script@, 1),
            code_at(old(host).script@, 0) >= 0 ==> (r matches Ok(q) && q.parent == self
                && q.resource.handle == old(host).trace@.len() as u64 && final(host).trace@ == old(
                host,
            ).trace@.push(
                NativeEvent::Created(ResourceKind::Queue, old(host).trace@.len() as u64),
            )),
            code_at(old(host).script@, 0) < 0 ==> (r == Err::<
                ScopedResource<'a, Device, Queue>,
                Error,
            >(Error::WindowsError(code_at(old(host).script@, 0))) && final(host).trace == old(
                host,
            ).trace),
    {
        match host.create(ResourceKind::Queue) {
            Ok(handle) => Ok(ScopedResource::new(self, Queue { handle })),
            Err(e) => Err(e),
        }
    }

    /// Creates one command allocator, tied to this device.
    fn create_command_allocator<'a>(&'a self, host: &mut NativeHost) -> (r: Result<
        ScopedResource<'a, Device, CommandAllocator>,
        Error,
    >)
        ensures
            final(host).script@ == consume(old(host).script@, 1),
            code_at(old(host).script@, 0) >= 0 ==> (r matches Ok(a) && a.parent == self
                && a.resource.handle == old(host).trace@.len() as u64 && final(host).trace@ == old(
                host,
            ).trace@.push(
                NativeEvent::Created(ResourceKind::CommandAllocator, old(host).trace@.len() as u64),
            )),
            code_at(old(host).script@, 0) < 0 ==> (r == Err::<
                ScopedResource<'a, Device, CommandAllocator>,
                Error,
            >(Error::WindowsError(code_at(old(host).script@, 0))) && final(host).trace == old(
                host,
            ).trace),
    {
        match host.create(ResourceKind::CommandAllocator) {
            Ok(handle) => Ok(ScopedResource::new(self, CommandAllocator { handle })),
            Err(e) => Err(e),
        }
    }

    /// Creates one fence starting at `initial`, tied to this device.
    fn create_fence<'a>(&'a self, host: &mut NativeHost, initial: u64) -> (r: Result<
        ScopedResource<'a, Device, Fence>,
        Error,
    >)
        ensures
            final(host).script@ == consume(old(host).script@, 1),
            code_at(old(host).script@, 0) >= 0 ==> (r matches Ok(f) && f.parent == self
                && f.resource.handle == old(host).trace@.len() as u64 && f.resource.value == initial
                && final(host).trace@ == old(host).trace@.push(
                NativeEvent::Created(ResourceKind::Fence, old(host).trace@.len() as u64),
            )),
            code_at(old(host).script@, 0) < 0 ==> (r == Err::<
                ScopedResource<'a, Device, Fence>,
                Error,
            >(Error::WindowsError(code_at(old(host).script@, 0))) && final(host).trace == old(
                host,
            ).trace),
    {
        match host.create(ResourceKind::Fence) {
            Ok(handle) => Ok(ScopedResource::new(self, Fence { handle, value: initial })),
            Err(e) => Err(e),
        }
    }
}

/// Ordered submission channel for command lists.
#[derive(Debug)]
pub struct Queue {
    pub handle: u64,
}

impl Queue {
    pub fn new(handle: u64) -> (r: Self)
        ensures
            r.handle == handle,
    {
        Queue { handle }
    }

    /// Releases the native queue.
    pub fn destroy(self, host: &mut NativeHost)
        ensures
            final(host).script == old(host).script,
            final(host).trace@ == old(host).trace@.push(
                NativeEvent::Destroyed(ResourceKind::Queue, self.handle),
            ),
    {
        host.destroy(ResourceKind::Queue, self.handle);
    }
}

impl gfx::Queue<BackendD3D12> for Queue {

}

/// Backing storage for recorded commands, one per backbuffer slot.
#[derive(Debug)]
pub struct CommandAllocator {
    pub handle: u64,
}

impl CommandAllocator {
    pub fn new(handle: u64) -> (r: Self)
        ensures
            r.handle == handle,
    {
        CommandAllocator { handle }
    }

    /// Releases the native allocator.
    pub fn destroy(self, host: &mut NativeHost)
        ensures
            final(host).script == old(host).script,
            final(host).trace@ == old(host).trace@.push(
                NativeEvent::Destroyed(ResourceKind::CommandAllocator, self.handle),
            ),
    {
        host.destroy(ResourceKind::CommandAllocator, self.handle);
    }
}

impl gfx::CommandAllocator<BackendD3D12> for CommandAllocator {

}

/// A recorded stream of GPU commands.
#[derive(Debug)]
pub struct CommandList {
    pub handle: u64,
}

impl CommandList {
    pub fn new(handle: u64) -> (r: Self)
        ensures
            r.handle == handle,
    {
        CommandList { handle }
    }

    /// Releases the native command list.
    pub fn destroy(self, host: &mut NativeHost)
        ensures
            final(host).script == old(host).script,
            final(host).trace@ == old(host).trace@.push(
                NativeEvent::Destroyed(ResourceKind::CommandList, self.handle),
            ),
    {
        host.destroy(ResourceKind::CommandList, self.handle);
    }
}

impl gfx::CommandList<BackendD3D12> for CommandList {

}

/// GPU/host synchronization primitive with a monotonically increasing value.
#[derive(Debug)]
pub struct Fence {
    pub handle: u64,
    pub value: u64,
}

impl Fence {
    pub fn new(handle: u64, value: u64) -> (r: Self)
        ensures
            r.handle == handle,
            r.value == value,
    {
        Fence { handle, value }
    }

    /// Releases the native fence.
    pub fn destroy(self, host: &mut NativeHost)
        ensures
            final(host).script == old(host).script,
            final(host).trace@ == old(host).trace@.push(
                NativeEvent::Destroyed(ResourceKind::Fence, self.handle),
            ),
    {
        host.destroy(ResourceKind::Fence, self.handle);
    }
}

impl gfx::Fence<BackendD3D12> for Fence {

}

/// Chain of presentable backbuffer images bound to a window surface,
/// carrying the raw descriptor it was created with and the handle of the
/// presentation queue it presents through.
#[derive(Debug)]
pub struct SwapChain {
    pub handle: u64,
    /// The raw native descriptor the creation call received.
    pub desc: SwapchainDesc,
    /// Handle of the presentation queue the creation call received.
    pub queue: u64,
}

impl SwapChain {
    /// Releases the native swap chain.
    pub fn destroy(self, host: &mut NativeHost)
        ensures
            final(host).script == old(host).script,
            final(host).trace@ == old(host).trace@.push(
                NativeEvent::Destroyed(ResourceKind::SwapChain, self.handle),
            ),
    {
        host.destroy(ResourceKind::SwapChain, self.handle);
    }
}

impl gfx::SwapChain<BackendD3D12> for SwapChain {

}

/// Storage for resource descriptors visible to the GPU.
#[derive(Debug)]
pub struct DescriptorHeap {
    pub handle: u64,
}

impl gfx::DescriptorHeap<BackendD3D12> for DescriptorHeap {

}

} // verus!
