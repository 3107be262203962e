//! The renderer resource pool: one instance, one device, one queue, a
//! fixed-size pool of per-backbuffer command allocators and fences, and a
//! swap chain, created strictly in dependency order and released strictly in
//! reverse on every path out — early failure included.
//!
//! Construction is all-or-nothing: the first failing creation releases
//! everything created so far, in reverse creation order, and reports that
//! failure; no partial pool is ever handed out. The contracts below pin the
//! session's event trace exactly, so both the creation order and the
//! release order are proved, not just the final counts.

use vstd::prelude::*;

use crate::adapters::{enum_prefix_len, is_terminator, failure_code, spec_description,
    NativeAdapterRecord};
use crate::backend_d3d12::{code_at, consume, lemma_code_at_consume, lemma_consume_consume,
    CommandAllocator, Device, Fence, Instance, NativeEvent, NativeHost, ResourceKind};
use crate::error::Error;
use crate::gfx::Device as _;
use crate::gfx::Instance as _;
use crate::gfx::{AdapterDescription, Format, NewInstanceOptions, SampleOptions, ScopedResource,
    SwapChainOptions, SwapEffect, WindowHandleKind};

verus! {

/// One frame slot's resources: a command allocator and a fence, each tied to
/// the device that created them.
pub struct BackbufferResources<'a> {
    pub command_allocator: ScopedResource<'a, Device, CommandAllocator>,
    pub fence: ScopedResource<'a, Device, Fence>,
}

/// The position of the first failing status among the next `n` answers of
/// the script, from position `i` on; `n` when all of them succeed.
pub open spec fn first_bad_from(s: Seq<i32>, i: int, n: int) -> int
    decreases n - i when i <= n
{
    if i >= n {
        n
    } else if code_at(s, i) < 0 {
        i
    } else {
        first_bad_from(s, i + 1, n)
    }
}

/// The position of the first failing status among the first `n` answers of
/// the script; `n` when all of them succeed.
pub open spec fn first_bad(s: Seq<i32>, n: int) -> int {
    first_bad_from(s, 0, n)
}

proof fn lemma_first_bad_from(s: Seq<i32>, i: int, n: int)
    requires
        0 <= i <= n,
    ensures
        i <= first_bad_from(s, i, n) <= n,
        forall|k: int| i <= k < first_bad_from(s, i, n) ==> code_at(s, k) >= 0,
        first_bad_from(s, i, n) < n ==> code_at(s, first_bad_from(s, i, n)) < 0,
    decreases n - i,
{
    if i < n && code_at(s, i) >= 0 {
        lemma_first_bad_from(s, i + 1, n);
    }
}

/// `first_bad` points at the first failing status: every status before it
/// succeeds, and the status there (when it is in range) fails.
pub proof fn lemma_first_bad(s: Seq<i32>, n: int)
    requires
        n >= 0,
    ensures
        0 <= first_bad(s, n) <= n,
        forall|k: int| 0 <= k < first_bad(s, n) ==> code_at(s, k) >= 0,
        first_bad(s, n) < n ==> code_at(s, first_bad(s, n)) < 0,
{
    lemma_first_bad_from(s, 0, n);
}

/// The first `m` creation events of a backbuffer pool whose first handle is
/// `h0`: allocator then fence, slot by slot.
pub open spec fn slot_creation_events(h0: int, m: int) -> Seq<NativeEvent> {
    Seq::new(
        m as nat,
        |i: int|
            if i % 2 == 0 {
                NativeEvent::Created(ResourceKind::CommandAllocator, (h0 + i) as u64)
            } else {
                NativeEvent::Created(ResourceKind::Fence, (h0 + i) as u64)
            },
    )
}

/// The release events of `n` full backbuffer slots whose first handle is
/// `h0`: fence then allocator, per slot, in reverse slot order.
pub open spec fn slot_teardown_events(h0: int, n: int) -> Seq<NativeEvent> {
    Seq::new(
        (2 * n) as nat,
        |i: int|
            {
                let slot = n - 1 - i / 2;
                if i % 2 == 0 {
                    NativeEvent::Destroyed(ResourceKind::Fence, (h0 + 2 * slot + 1) as u64)
                } else {
                    NativeEvent::Destroyed(ResourceKind::CommandAllocator, (h0 + 2 * slot) as u64)
                }
            },
    )
}

/// The release events of a backbuffer pool: fence then allocator, per slot,
/// in reverse slot order.
pub open spec fn teardown_events<'a>(bbs: Seq<BackbufferResources<'a>>) -> Seq<NativeEvent>
    decreases bbs.len(),
{
    if bbs.len() == 0 {
        Seq::empty()
    } else {
        teardown_events(bbs.drop_first()) + seq![
            NativeEvent::Destroyed(ResourceKind::Fence, bbs.first().fence.resource.handle),
            NativeEvent::Destroyed(
                ResourceKind::CommandAllocator,
                bbs.first().command_allocator.resource.handle,
            ),
        ]
    }
}

/// For a pool created under consecutive handles starting at `h0`, the
/// release events take the closed form of `slot_teardown_events`.
pub proof fn lemma_teardown_closed<'a>(bbs: Seq<BackbufferResources<'a>>, h0: int, n: int)
    requires
        n == bbs.len(),
        forall|k: int|
            0 <= k < n ==> (#[trigger] bbs[k]).command_allocator.resource.handle == (h0
                + 2 * k) as u64 && bbs[k].fence.resource.handle == (h0 + 2 * k + 1) as u64,
    ensures
        teardown_events(bbs) == slot_teardown_events(h0, n),
    decreases n,
{
    if n == 0 {
        assert(teardown_events(bbs) =~= slot_teardown_events(h0, n));
    } else {
        assert(forall|k: int|
            0 <= k < n - 1 ==> #[trigger] bbs.drop_first()[k] == bbs[k + 1]);
        lemma_teardown_closed(bbs.drop_first(), h0 + 2, n - 1);
        assert(teardown_events(bbs) =~= slot_teardown_events(h0, n));
    }
}

/// One slot's worth of membership in the pool: allocator and fence tied to
/// `device`, under the two consecutive handles starting at `base`.
pub open spec fn slot_resources<'a>(
    bb: BackbufferResources<'a>,
    device: &Device,
    base: int,
) -> bool {
    &&& bb.command_allocator.parent == device
    &&& bb.command_allocator.resource.handle == base as u64
    &&& bb.fence.parent == device
    &&& bb.fence.resource.handle == (base + 1) as u64
    &&& bb.fence.resource.value == 0
}

/// Releases a backbuffer pool: fence then allocator, per slot, in reverse
/// slot order.
#[verifier::loop_isolation(false)]
pub fn release_backbuffers<'a>(host: &mut NativeHost, backbuffers: Vec<BackbufferResources<'a>>)
    ensures
        final(host).script == old(host).script,
        final(host).trace@ == old(host).trace@ + teardown_events(backbuffers@),
{
    let mut backbuffers = backbuffers;
    let ghost orig = backbuffers@;
    let ghost t0 = host.trace@;
    let ghost s0 = host.script;
    proof {
        assert(orig.skip(orig.len() as int) =~= Seq::<BackbufferResources>::empty());
        assert(orig.subrange(0, orig.len() as int) =~= orig);
    }
    while backbuffers.len() > 0
        invariant
            backbuffers@.len() <= orig.len(),
            backbuffers@ == orig.subrange(0, backbuffers@.len() as int),
            host.script == s0,
            host.trace@ == t0 + teardown_events(orig.skip(backbuffers@.len() as int)),
        decreases backbuffers@.len(),
    {
        let ghost m = backbuffers@.len() as int;
        let bb = match backbuffers.pop() {
            Some(bb) => bb,
            None => {
                proof {
                    assert(false);
                }
                return ;
            },
        };
        let BackbufferResources { command_allocator, fence } = bb;
        fence.into_resource().destroy(host);
        command_allocator.into_resource().destroy(host);
        proof {
            assert(backbuffers@ == orig.subrange(0, m).subrange(0, m - 1));
            assert(backbuffers@ =~= orig.subrange(0, m - 1));
            assert(orig.skip(m - 1).drop_first() =~= orig.skip(m));
            assert(orig.skip(m - 1).first() == orig[m - 1]);
            assert(host.trace@ =~= t0 + teardown_events(orig.skip(m - 1)));
        }
    }
    proof {
        assert(orig.skip(0) =~= orig);
    }
}

/// Creates the fixed-size pool of per-backbuffer resources: for each slot,
/// in slot order, one command allocator and one fence starting at zero.
///
/// Fail-fast: the first failing creation stops the batch, releases every
/// resource the batch created so far — the slot's own dangling allocator
/// first when its fence failed, then the full slots in reverse order — and
/// reports that failure. Later slots are never created.
#[verifier::loop_isolation(false)]
pub fn create_backbuffers<'a>(
    host: &mut NativeHost,
    device: &'a Device,
    count: usize,
) -> (r: Result<Vec<BackbufferResources<'a>>, Error>)
    ensures
        ({
            let s = old(host).script@;
            let t = old(host).trace@;
            let h0 = t.len() as int;
            let j = first_bad(s, 2 * (count as int));
            if j == 2 * (count as int) {
                &&& r matches Ok(v)
                &&& v@.len() == count
                &&& forall|k: int|
                    0 <= k < count ==> slot_resources(#[trigger] v@[k], device, h0 + 2 * k)
                &&& final(host).trace@ == t + slot_creation_events(h0, 2 * (count as int))
                &&& final(host).script@ == consume(s, 2 * (count as int))
            } else {
                &&& r == Err::<Vec<BackbufferResources<'a>>, Error>(
                    Error::WindowsError(code_at(s, j)),
                )
                &&& final(host).script@ == consume(s, j + 1)
                &&& final(host).trace@ == t + slot_creation_events(h0, j) + (if j % 2 == 1 {
                    seq![
                        NativeEvent::Destroyed(
                            ResourceKind::CommandAllocator,
                            (h0 + j - 1) as u64,
                        ),
                    ]
                } else {
                    Seq::<NativeEvent>::empty()
                }) + slot_teardown_events(h0, j / 2)
            }
        }),
{
    let ghost s = host.script@;
    let ghost t = host.trace@;
    let ghost h0 = t.len() as int;
    proof {
        lemma_first_bad(s, 2 * (count as int));
    }
    let mut v: Vec<BackbufferResources<'a>> = Vec::new();
    let mut k: usize = 0;
    while k < count
        invariant
            k <= count,
            forall|i: int| 0 <= i < 2 * k ==> code_at(s, i) >= 0,
            host.script@ == consume(s, 2 * (k as int)),
            host.trace@ == t + slot_creation_events(h0, 2 * (k as int)),
            v@.len() == k,
            forall|q: int| 0 <= q < k ==> slot_resources(#[trigger] v@[q], device, h0 + 2 * q),
            h0 == t.len() as int,
            first_bad(s, 2 * (count as int)) <= 2 * (count as int),
            forall|i: int|
                0 <= i < first_bad(s, 2 * (count as int)) ==> code_at(s, i) >= 0,
            first_bad(s, 2 * (count as int)) < 2 * (count as int) ==> code_at(
                s,
                first_bad(s, 2 * (count as int)),
            ) < 0,
        decreases count - k,
    {
        let ghost j = first_bad(s, 2 * (count as int));
        proof {
            lemma_code_at_consume(s, 2 * (k as int), 0);
            lemma_consume_consume(s, 2 * (k as int), 1);
        }
        let allocator = match device.create_command_allocator(host) {
            Ok(a) => a,
            Err(e) => {
                let ghost vv = v@;
                proof {
                    assert(j == 2 * (k as int));
                    lemma_teardown_closed(vv, h0, k as int);
                }
                release_backbuffers(host, v);
                proof {
                    assert(host.trace@ =~= t + slot_creation_events(h0, j)
                        + Seq::<NativeEvent>::empty() + slot_teardown_events(h0, j / 2));
                }
                return Err(e);
            },
        };
        proof {
            lemma_code_at_consume(s, 2 * (k as int) + 1, 0);
            lemma_consume_consume(s, 2 * (k as int) + 1, 1);
            assert(host.trace@ =~= t + slot_creation_events(h0, 2 * (k as int) + 1));
        }
        let fence = match device.create_fence(host, 0) {
            Ok(f) => f,
            Err(e) => {
                let ghost vv = v@;
                proof {
                    assert(j == 2 * (k as int) + 1);
                    lemma_teardown_closed(vv, h0, k as int);
                }
                allocator.into_resource().destroy(host);
                release_backbuffers(host, v);
                proof {
                    assert(host.trace@ =~= t + slot_creation_events(h0, j) + seq![
                        NativeEvent::Destroyed(
                            ResourceKind::CommandAllocator,
                            (h0 + j - 1) as u64,
                        ),
                    ] + slot_teardown_events(h0, j / 2));
                }
                return Err(e);
            },
        };
        v.push(BackbufferResources { command_allocator: allocator, fence });
        k += 1;
        proof {
            assert(host.trace@ =~= t + slot_creation_events(h0, 2 * (k as int)));
        }
    }
    proof {
        assert(first_bad(s, 2 * (count as int)) == 2 * (count as int));
    }
    Ok(v)
}

/// What a completed run reports back: how many adapters enumeration found,
/// the description of the adapter the default policy selected (its
/// hardware-acceleration flag is carried for inspection, never assumed),
/// the enumeration index of the adapter the device was created from,
/// whether the debug layer came up and which factory flavor did, and the
/// size of the backbuffer pool.
#[derive(Debug)]
pub struct RenderReport {
    pub adapter_count: usize,
    pub selected_adapter: AdapterDescription,
    /// The enumeration index of the adapter the device was created from:
    /// the selected adapter's, which the default policy makes the first.
    pub device_adapter_index: usize,
    pub debug_layer_active: bool,
    /// Whether the debug-flagged factory came up, or the plain fallback.
    pub debug_factory: bool,
    pub backbuffer_count: usize,
}

/// Creation events of the instance/device/queue chain under the three
/// consecutive handles starting at `h0`.
pub open spec fn chain_events(h0: int) -> Seq<NativeEvent> {
    seq![
        NativeEvent::Created(ResourceKind::Factory, h0 as u64),
        NativeEvent::Created(ResourceKind::Device, (h0 + 1) as u64),
        NativeEvent::Created(ResourceKind::Queue, (h0 + 2) as u64),
    ]
}

/// Release events of that chain, in reverse creation order.
pub open spec fn chain_teardown(h0: int) -> Seq<NativeEvent> {
    seq![
        NativeEvent::Destroyed(ResourceKind::Queue, (h0 + 2) as u64),
        NativeEvent::Destroyed(ResourceKind::Device, (h0 + 1) as u64),
        NativeEvent::Destroyed(ResourceKind::Factory, h0 as u64),
    ]
}

/// Runs the full renderer lifecycle against a native session: instance with
/// the debug layer requested, adapter enumeration, default adapter
/// selection, device, queue, the backbuffer pool, the swap chain — then
/// releases everything in exact reverse order: swap chain, backbuffers
/// (fence then allocator, per slot, in reverse slot order), queue, device,
/// instance.
///
/// Any failure along the chain releases exactly what was created, in the
/// same reverse order, and reports the failure: the session's trace after a
/// failed run shows every created object released. The contract pins the
/// trace on every path.
pub fn render_main(
    host: &mut NativeHost,
    adapter_records: Vec<NativeAdapterRecord>,
    window: WindowHandleKind,
    width: u32,
    height: u32,
    backbuffer_count: usize,
) -> (r: Result<RenderReport, Error>)
    requires
        // a configuration whose enumeration succeeds with no adapter at all
        // is outside this renderer's contract, as is a pool too large for
        // the native descriptor's counters
        (enum_prefix_len(adapter_records@) == adapter_records@.len() || is_terminator(
            adapter_records@[enum_prefix_len(adapter_records@) as int],
        )) ==> enum_prefix_len(adapter_records@) > 0,
        backbuffer_count <= u32::MAX,
        2 * backbuffer_count <= usize::MAX,
    ensures
        ({
            let s = old(host).script@;
            let t = old(host).trace@;
            let h0 = t.len() as int;
            let records = adapter_records@;
            let m = enum_prefix_len(records);
            let enum_ok = m == records.len() || is_terminator(records[m as int]);
            let n = backbuffer_count as int;
            let j = first_bad(consume(s, 9), 2 * n);
            if code_at(s, 0) < 0 {
                &&& r == Err::<RenderReport, Error>(Error::LoadLibraryError)
                &&& final(host).script@ == consume(s, 1)
                &&& final(host).trace@ == t
            } else if code_at(s, 1) < 0 {
                &&& r == Err::<RenderReport, Error>(Error::LoadLibraryError)
                &&& final(host).script@ == consume(s, 2)
                &&& final(host).trace@ == t
            } else if code_at(s, 2) < 0 {
                &&& r == Err::<RenderReport, Error>(Error::LoadLibraryError)
                &&& final(host).script@ == consume(s, 3)
                &&& final(host).trace@ == t
            } else if code_at(s, 4) < 0 {
                &&& r == Err::<RenderReport, Error>(Error::LoadLibraryError)
                &&& final(host).script@ == consume(s, 5)
                &&& final(host).trace@ == t
            } else if code_at(s, 6) < 0 {
                &&& r == Err::<RenderReport, Error>(Error::WindowsError(code_at(s, 6)))
                &&& final(host).script@ == consume(s, 7)
                &&& final(host).trace@ == t
            } else if !enum_ok {
                &&& r == Err::<RenderReport, Error>(
                    Error::WindowsError(failure_code(records[m as int])),
                )
                &&& final(host).script@ == consume(s, 7)
                &&& final(host).trace@ == t + seq![
                    NativeEvent::Created(ResourceKind::Factory, h0 as u64),
                    NativeEvent::Destroyed(ResourceKind::Factory, h0 as u64),
                ]
            } else if code_at(s, 7) < 0 {
                &&& r == Err::<RenderReport, Error>(Error::WindowsError(code_at(s, 7)))
                &&& final(host).script@ == consume(s, 8)
                &&& final(host).trace@ == t + seq![
                    NativeEvent::Created(ResourceKind::Factory, h0 as u64),
                    NativeEvent::Destroyed(ResourceKind::Factory, h0 as u64),
                ]
            } else if code_at(s, 8) < 0 {
                &&& r == Err::<RenderReport, Error>(Error::WindowsError(code_at(s, 8)))
                &&& final(host).script@ == consume(s, 9)
                &&& final(host).trace@ == t + seq![
                    NativeEvent::Created(ResourceKind::Factory, h0 as u64),
                    NativeEvent::Created(ResourceKind::Device, (h0 + 1) as u64),
                    NativeEvent::Destroyed(ResourceKind::Device, (h0 + 1) as u64),
                    NativeEvent::Destroyed(ResourceKind::Factory, h0 as u64),
                ]
            } else if j < 2 * n {
                &&& r == Err::<RenderReport, Error>(Error::WindowsError(code_at(s, 9 + j)))
                &&& final(host).script@ == consume(s, 9 + j + 1)
                &&& final(host).trace@ == t + chain_events(h0) + slot_creation_events(h0 + 3, j)
                    + (if j % 2 == 1 {
                    seq![
                        NativeEvent::Destroyed(
                            ResourceKind::CommandAllocator,
                            (h0 + 3 + j - 1) as u64,
                        ),
                    ]
                } else {
                    Seq::<NativeEvent>::empty()
                }) + slot_teardown_events(h0 + 3, j / 2) + chain_teardown(h0)
            } else if window != WindowHandleKind::Win32 {
                &&& r == Err::<RenderReport, Error>(Error::UnsupportedWindowHandle)
                &&& final(host).script@ == consume(s, 9 + 2 * n)
                &&& final(host).trace@ == t + chain_events(h0) + slot_creation_events(
                    h0 + 3,
                    2 * n,
                ) + slot_teardown_events(h0 + 3, n) + chain_teardown(h0)
            } else if code_at(s, 9 + 2 * n) < 0 {
                &&& r == Err::<RenderReport, Error>(Error::WindowsError(code_at(s, 9 + 2 * n)))
                &&& final(host).script@ == consume(s, 10 + 2 * n)
                &&& final(host).trace@ == t + chain_events(h0) + slot_creation_events(
                    h0 + 3,
                    2 * n,
                ) + slot_teardown_events(h0 + 3, n) + chain_teardown(h0)
            } else {
                &&& r matches Ok(rep)
                &&& rep.adapter_count == m
                &&& spec_description(records[0], rep.selected_adapter)
                &&& rep.device_adapter_index == 0
                &&& rep.debug_layer_active == (code_at(s, 3) >= 0)
                &&& rep.debug_factory == (code_at(s, 5) >= 0)
                &&& rep.backbuffer_count == backbuffer_count
                &&& final(host).script@ == consume(s, 10 + 2 * n)
                &&& final(host).trace@ == t + chain_events(h0) + slot_creation_events(
                    h0 + 3,
                    2 * n,
                ) + seq![
                    NativeEvent::Created(ResourceKind::SwapChain, (h0 + 3 + 2 * n) as u64),
                    NativeEvent::Destroyed(ResourceKind::SwapChain, (h0 + 3 + 2 * n) as u64),
                ] + slot_teardown_events(h0 + 3, n) + chain_teardown(h0)
            }
        }),
{
    let ghost s = host.script@;
    let ghost t = host.trace@;
    let ghost h0 = t.len() as int;
    let ghost n = backbuffer_count as int;

    let instance = match Instance::new_with_adapters(
        host,
        NewInstanceOptions { enable_debug_layer: true },
        adapter_records,
    ) {
        Ok(inst) => inst,
        Err(e) => {
            return Err(e);
        },
    };
    let adapters = match instance.enumerate_adapters() {
        Ok(v) => v,
        Err(e) => {
            instance.destroy(host);
            proof {
                assert(host.trace@ =~= t + seq![
                    NativeEvent::Created(ResourceKind::Factory, h0 as u64),
                    NativeEvent::Destroyed(ResourceKind::Factory, h0 as u64),
                ]);
            }
            return Err(e);
        },
    };
    let adapter_count = adapters.len();
    let default_adapter = match crate::adapters::select_adapter_default(adapters) {
        Some(a) => a,
        None => {
            // unreachable: the precondition promises at least one adapter
            // whenever enumeration succeeds
            proof {
                assert(false);
            }
            instance.destroy(host);
            return Err(Error::LoadLibraryError);
        },
    };
    proof {
        lemma_code_at_consume(s, 7, 0);
        lemma_consume_consume(s, 7, 1);
    }
    let device = match instance.create_device(host, &default_adapter.adapter) {
        Ok(d) => d,
        Err(e) => {
            instance.destroy(host);
            proof {
                assert(host.trace@ =~= t + seq![
                    NativeEvent::Created(ResourceKind::Factory, h0 as u64),
                    NativeEvent::Destroyed(ResourceKind::Factory, h0 as u64),
                ]);
            }
            return Err(e);
        },
    };
    proof {
        lemma_code_at_consume(s, 8, 0);
        lemma_consume_consume(s, 8, 1);
    }
    let queue = match device.resource().create_queue(host) {
        Ok(q) => q,
        Err(e) => {
            device.into_resource().destroy(host);
            instance.destroy(host);
            proof {
                assert(host.trace@ =~= t + seq![
                    NativeEvent::Created(ResourceKind::Factory, h0 as u64),
                    NativeEvent::Created(ResourceKind::Device, (h0 + 1) as u64),
                    NativeEvent::Destroyed(ResourceKind::Device, (h0 + 1) as u64),
                    NativeEvent::Destroyed(ResourceKind::Factory, h0 as u64),
                ]);
            }
            return Err(e);
        },
    };
    proof {
        lemma_first_bad(consume(s, 9), 2 * n);
        lemma_consume_consume(s, 9, first_bad(consume(s, 9), 2 * n) + 1);
        lemma_consume_consume(s, 9, 2 * n);
        lemma_code_at_consume(s, 9, first_bad(consume(s, 9), 2 * n));
        assert(host.trace@ =~= t + chain_events(h0));
    }
    let backbuffers = match create_backbuffers(host, device.resource(), backbuffer_count) {
        Ok(v) => v,
        Err(e) => {
            queue.into_resource().destroy(host);
            device.into_resource().destroy(host);
            instance.destroy(host);
            proof {
                let j = first_bad(consume(s, 9), 2 * n);
                assert(host.trace@ =~= t + chain_events(h0) + slot_creation_events(h0 + 3, j) + (
                if j % 2 == 1 {
                    seq![
                        NativeEvent::Destroyed(
                            ResourceKind::CommandAllocator,
                            (h0 + 3 + j - 1) as u64,
                        ),
                    ]
                } else {
                    Seq::<NativeEvent>::empty()
                }) + slot_teardown_events(h0 + 3, j / 2) + chain_teardown(h0));
            }
            return Err(e);
        },
    };
    let swap_chain_options = SwapChainOptions {
        backbuffer_count,
        swap_effect: SwapEffect::Discard,
        sample_options: SampleOptions { sample_count: 8 },
        width,
        height,
        format: Format::R8G8B8A8UNorm,
    };
    proof {
        lemma_code_at_consume(s, 9 + 2 * n, 0);
        lemma_consume_consume(s, 9 + 2 * n, 1);
    }
    let swap_chain = match instance.create_swap_chain_checked(
        host,
        window,
        queue.resource(),
        &swap_chain_options,
    ) {
        Ok(sc) => sc,
        Err(e) => {
            let ghost bbs = backbuffers@;
            proof {
                lemma_teardown_closed(bbs, h0 + 3, n);
            }
            release_backbuffers(host, backbuffers);
            queue.into_resource().destroy(host);
            device.into_resource().destroy(host);
            instance.destroy(host);
            proof {
                assert(host.trace@ =~= t + chain_events(h0) + slot_creation_events(h0 + 3, 2 * n)
                    + slot_teardown_events(h0 + 3, n) + chain_teardown(h0));
            }
            return Err(e);
        },
    };
    let backbuffer_len = backbuffers.len();
    let report = RenderReport {
        adapter_count,
        selected_adapter: default_adapter.description,
        device_adapter_index: device.resource().adapter_index,
        debug_layer_active: instance.debug_active,
        debug_factory: instance.debug_factory,
        backbuffer_count: backbuffer_len,
    };
    let ghost bbs = backbuffers@;
    proof {
        lemma_teardown_closed(bbs, h0 + 3, n);
    }
    swap_chain.into_resource().destroy(host);
    release_backbuffers(host, backbuffers);
    queue.into_resource().destroy(host);
    device.into_resource().destroy(host);
    instance.destroy(host);
    proof {
        assert(host.trace@ =~= t + chain_events(h0) + slot_creation_events(h0 + 3, 2 * n) + seq![
            NativeEvent::Created(ResourceKind::SwapChain, (h0 + 3 + 2 * n) as u64),
            NativeEvent::Destroyed(ResourceKind::SwapChain, (h0 + 3 + 2 * n) as u64),
        ] + slot_teardown_events(h0 + 3, n) + chain_teardown(h0));
    }
    Ok(report)
}

} // verus!
