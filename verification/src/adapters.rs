//! The adapter enumeration and selection protocol.
//!
//! The native API answers enumeration one index at a time: each probe either
//! yields an adapter, signals "no more items" (the terminator status, which
//! ends the walk without being an error), or fails with some other status
//! (which aborts the whole enumeration with that error). The protocol is
//! stated and verified over the finite sequence of native answers; the
//! adapters come back in the order the native API ranked them, highest
//! preference first.

use vstd::prelude::*;

use crate::error::Error;
use crate::gfx::{AdapterDescription, AdapterDetails, Backend};

verus! {

/// `DXGI_ERROR_NOT_FOUND`: the status an index past the last adapter answers
/// with. It is the enumeration terminator, not a failure.
pub const DXGI_ERROR_NOT_FOUND: i32 = -2005270526;

/// `DXGI_ADAPTER_FLAG_SOFTWARE`: the adapter-flag bit marking a software
/// rasterizer.
pub const DXGI_ADAPTER_FLAG_SOFTWARE: u32 = 2;

/// The native enumeration's answer for one adapter index: the status of the
/// enumeration probe itself, the status of the description query that
/// follows it, and the raw description fields.
#[derive(Debug, Clone)]
pub struct NativeAdapterRecord {
    /// Status of the enumeration probe for this index.
    pub code: i32,
    /// Status of the description query for this index.
    pub desc_code: i32,
    pub device_id: u32,
    pub vendor_id: u32,
    /// The adapter name as a NUL-terminated wide-character buffer.
    pub description: Vec<u16>,
    /// Native adapter flag bits.
    pub flags: u32,
}

/// One adapter the enumeration walk produced: its native enumeration index
/// and its decoded description.
#[derive(Debug, Clone)]
pub struct EnumeratedAdapter {
    pub index: usize,
    pub description: AdapterDescription,
}

/// The text a wide-character buffer decodes to. Named here and fixed by the
/// decoding wrapper below; the decoding itself is the standard library's.
pub uninterp spec fn utf16_text(units: Seq<u16>) -> Seq<char>;

/// Relies on String::from_utf16_lossy: the decoded text is a function of the
/// code units alone, so two decodings of equal buffers agree.
#[verifier::external_body]
fn decode_utf16(units: &Vec<u16>) -> (r: String)
    ensures
        r@ == utf16_text(units@),
{
    String::from_utf16_lossy(units)
}

/// Length of the buffer's content before its first NUL unit; the whole
/// buffer when no unit is NUL.
pub open spec fn wide_len(s: Seq<u16>) -> nat
    decreases s.len(),
{
    if s.len() == 0 {
        0
    } else if s[0] == 0 {
        0
    } else {
        (1 + wide_len(s.drop_first())) as nat
    }
}

/// `wide_len` points at the first NUL unit: everything before it is
/// non-NUL, and the unit there (when the buffer has one) is NUL.
pub proof fn lemma_wide_len(s: Seq<u16>)
    ensures
        wide_len(s) <= s.len(),
        forall|i: int| 0 <= i < wide_len(s) ==> s[i] != 0,
        wide_len(s) < s.len() ==> s[wide_len(s) as int] == 0,
    decreases s.len(),
{
    if s.len() != 0 && s[0] != 0 {
        lemma_wide_len(s.drop_first());
        assert forall|i: int| 0 <= i < wide_len(s) implies s[i] != 0 by {
            if i > 0 {
                assert(s.drop_first()[i - 1] == s[i]);
            }
        }
        if wide_len(s) < s.len() {
            assert(s.drop_first()[wide_len(s.drop_first()) as int] == s[wide_len(s) as int]);
        }
    }
}

/// Decodes a NUL-terminated wide-character buffer: the text is whatever the
/// content before the first NUL decodes to.
pub fn decode_description(units: &Vec<u16>) -> (r: String)
    ensures
        r@ == utf16_text(units@.subrange(0, wide_len(units@) as int)),
{
    proof {
        lemma_wide_len(units@);
    }
    let mut n: usize = 0;
    while n < units.len() && units[n] != 0
        invariant
            n <= wide_len(units@),
            wide_len(units@) <= units@.len(),
            forall|i: int| 0 <= i < wide_len(units@) ==> units@[i] != 0,
            wide_len(units@) < units@.len() ==> units@[wide_len(units@) as int] == 0,
        decreases units@.len() - n,
    {
        n += 1;
    }
    let mut prefix: Vec<u16> = Vec::new();
    let mut i: usize = 0;
    while i < n
        invariant
            i <= n,
            n <= units@.len(),
            prefix@ == units@.subrange(0, i as int),
        decreases n - i,
    {
        prefix.push(units[i]);
        assert(prefix@ == units@.subrange(0, i + 1 as int));
        i += 1;
    }
    assert(n == wide_len(units@));
    assert(prefix@ == units@.subrange(0, wide_len(units@) as int));
    decode_utf16(&prefix)
}

/// True when this index's answers let the walk take an adapter and move on.
pub open spec fn is_item(r: NativeAdapterRecord) -> bool {
    r.code >= 0 && r.desc_code >= 0
}

/// True when this index's answers end the walk cleanly.
pub open spec fn is_terminator(r: NativeAdapterRecord) -> bool {
    r.code == DXGI_ERROR_NOT_FOUND || (r.code >= 0 && r.desc_code == DXGI_ERROR_NOT_FOUND)
}

/// The status that aborts the walk at this index (meaningful when the record
/// is neither an item nor the terminator).
pub open spec fn failure_code(r: NativeAdapterRecord) -> i32 {
    if r.code < 0 {
        r.code
    } else {
        r.desc_code
    }
}

/// How many adapters the walk takes before it stops, one way or the other.
pub open spec fn enum_prefix_len(records: Seq<NativeAdapterRecord>) -> nat
    decreases records.len(),
{
    if records.len() == 0 {
        0
    } else if !is_item(records[0]) {
        0
    } else {
        (1 + enum_prefix_len(records.drop_first())) as nat
    }
}

/// The walk stops at the first record that is not an item, and never takes
/// more adapters than there are records: enumeration is finite.
pub proof fn lemma_enumeration_terminates(records: Seq<NativeAdapterRecord>)
    ensures
        enum_prefix_len(records) <= records.len(),
        forall|i: int| 0 <= i < enum_prefix_len(records) ==> is_item(#[trigger] records[i]),
        enum_prefix_len(records) < records.len() ==> !is_item(
            records[enum_prefix_len(records) as int],
        ),
    decreases records.len(),
{
    if records.len() != 0 && is_item(records[0]) {
        lemma_enumeration_terminates(records.drop_first());
        assert forall|i: int| 0 <= i < enum_prefix_len(records) implies is_item(
            #[trigger] records[i],
        ) by {
            if i > 0 {
                assert(records.drop_first()[i - 1] == records[i]);
            }
        }
        if enum_prefix_len(records) < records.len() {
            assert(records.drop_first()[enum_prefix_len(records.drop_first()) as int]
                == records[enum_prefix_len(records) as int]);
        }
    }
}

/// A record whose first answer is the terminator ends the walk at once:
/// the result is an empty list, not an error.
pub proof fn lemma_terminator_first(records: Seq<NativeAdapterRecord>)
    requires
        records.len() > 0,
        is_terminator(records[0]),
    ensures
        enum_prefix_len(records) == 0,
{
}

/// The description decoded from one native record: identifiers are copied,
/// hardware acceleration is the absence of the software-rasterizer flag, and
/// the name is the decoded wide-character content before its first NUL.
pub open spec fn spec_description(r: NativeAdapterRecord, d: AdapterDescription) -> bool {
    &&& d.device_id == r.device_id
    &&& d.vendor_id == r.vendor_id
    &&& d.has_hw_acceleration == (r.flags & DXGI_ADAPTER_FLAG_SOFTWARE == 0)
    &&& d.description@ == utf16_text(r.description@.subrange(0, wide_len(r.description@) as int))
}

/// Walks the native enumeration answers in order and collects the adapters.
///
/// The walk ends cleanly at the terminator status or at the end of the
/// answers, yielding every adapter taken so far in native preference order;
/// any other failing status aborts the whole call with that status. The
/// walk is total: it answers for every finite sequence of records.
pub fn enumerate_adapter_records(records: &Vec<NativeAdapterRecord>) -> (r: Result<
    Vec<EnumeratedAdapter>,
    Error,
>)
    ensures
        ({
            let n = enum_prefix_len(records@);
            if n == records@.len() || is_terminator(records@[n as int]) {
                r matches Ok(v) && v@.len() == n && (forall|i: int|
                    0 <= i < n ==> (#[trigger] v@[i]).index == i && spec_description(
                        records@[i],
                        v@[i].description,
                    ))
            } else {
                r == Err::<Vec<EnumeratedAdapter>, Error>(
                    Error::WindowsError(failure_code(records@[n as int])),
                )
            }
        }),
{
    proof {
        lemma_enumeration_terminates(records@);
    }
    let mut out: Vec<EnumeratedAdapter> = Vec::new();
    let mut i: usize = 0;
    loop
        invariant
            i <= enum_prefix_len(records@),
            enum_prefix_len(records@) <= records@.len(),
            forall|k: int| 0 <= k < enum_prefix_len(records@) ==> is_item(#[trigger] records@[k]),
            enum_prefix_len(records@) < records@.len() ==> !is_item(
                records@[enum_prefix_len(records@) as int],
            ),
            out@.len() == i,
            forall|k: int|
                0 <= k < i ==> (#[trigger] out@[k]).index == k && spec_description(
                    records@[k],
                    out@[k].description,
                ),
        decreases records@.len() - i,
    {
        if i == records.len() {
            return Ok(out);
        }
        let rec = &records[i];
        if rec.code == DXGI_ERROR_NOT_FOUND {
            assert(i == enum_prefix_len(records@));
            return Ok(out);
        }
        if rec.code < 0 {
            assert(i == enum_prefix_len(records@));
            return Err(Error::WindowsError(rec.code));
        }
        if rec.desc_code == DXGI_ERROR_NOT_FOUND {
            assert(i == enum_prefix_len(records@));
            return Ok(out);
        }
        if rec.desc_code < 0 {
            assert(i == enum_prefix_len(records@));
            return Err(Error::WindowsError(rec.desc_code));
        }
        let description = AdapterDescription {
            device_id: rec.device_id,
            vendor_id: rec.vendor_id,
            description: decode_description(&rec.description),
            has_hw_acceleration: rec.flags & DXGI_ADAPTER_FLAG_SOFTWARE == 0,
        };
        out.push(EnumeratedAdapter { index: i, description });
        i += 1;
    }
}

/// The default selection policy: the first adapter of the enumeration's
/// result, which is the one the native API ranked highest. An empty list
/// selects nothing: availability of an adapter is never assumed, and the
/// selected adapter's fields (its hardware-acceleration flag among them)
/// are exactly what enumeration reported.
pub fn select_adapter_default<B: Backend>(adapters: Vec<AdapterDetails<B>>) -> (r: Option<
    AdapterDetails<B>,
>)
    ensures
        adapters@.len() == 0 ==> r is None,
        adapters@.len() > 0 ==> (r matches Some(a) && a == adapters@[0]),
{
    let mut adapters = adapters;
    if adapters.len() == 0 {
        None
    } else {
        Some(adapters.remove(0))
    }
}

/// A filtering policy: the position of the first adapter with hardware
/// acceleration, skipping software rasterizers; nothing when every adapter
/// is software.
pub fn find_hw_adapter<B: Backend>(adapters: &Vec<AdapterDetails<B>>) -> (r: Option<usize>)
    ensures
        r matches Some(i) ==> i < adapters@.len()
            && adapters@[i as int].description.has_hw_acceleration && (forall|k: int|
            0 <= k < i ==> !(#[trigger] adapters@[k]).description.has_hw_acceleration),
        r is None ==> forall|k: int|
            0 <= k < adapters@.len() ==> !(#[trigger] adapters@[k]).description.has_hw_acceleration,
{
    let mut i: usize = 0;
    while i < adapters.len()
        invariant
            i <= adapters@.len(),
            forall|k: int|
                0 <= k < i ==> !(#[trigger] adapters@[k]).description.has_hw_acceleration,
        decreases adapters@.len() - i,
    {
        if adapters[i].description.has_hw_acceleration {
            return Some(i);
        }
        i += 1;
    }
    None
}

/// A deterministic test-selection policy: the position of the first adapter
/// with the given vendor and device identifiers.
pub fn find_adapter_by_ids<B: Backend>(
    adapters: &Vec<AdapterDetails<B>>,
    vendor_id: u32,
    device_id: u32,
) -> (r: Option<usize>)
    ensures
        r matches Some(i) ==> i < adapters@.len() && adapters@[i as int].description.vendor_id
            == vendor_id && adapters@[i as int].description.device_id == device_id && (forall|
            k: int,
        |
            0 <= k < i ==> !((#[trigger] adapters@[k]).description.vendor_id == vendor_id
                && adapters@[k].description.device_id == device_id)),
        r is None ==> forall|k: int|
            0 <= k < adapters@.len() ==> !((#[trigger] adapters@[k]).description.vendor_id
                == vendor_id && adapters@[k].description.device_id == device_id),
{
    let mut i: usize = 0;
    while i < adapters.len()
        invariant
            i <= adapters@.len(),
            forall|k: int|
                0 <= k < i ==> !((#[trigger] adapters@[k]).description.vendor_id == vendor_id
                    && adapters@[k].description.device_id == device_id),
        decreases adapters@.len() - i,
    {
        if adapters[i].description.vendor_id == vendor_id && adapters[i].description.device_id
            == device_id {
            return Some(i);
        }
        i += 1;
    }
    None
}

} // verus!
