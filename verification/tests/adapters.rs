use herebedragons::adapters::{
    enumerate_adapter_records, find_adapter_by_ids, find_hw_adapter, select_adapter_default,
    NativeAdapterRecord, DXGI_ERROR_NOT_FOUND,
};
use herebedragons::backend_d3d12::{Adapter, BackendD3D12};
use herebedragons::error::Error;
use herebedragons::gfx::{AdapterDescription, AdapterDetails};

fn record(device_id: u32, vendor_id: u32, name: &str, flags: u32) -> NativeAdapterRecord {
    let mut description: Vec<u16> = name.encode_utf16().collect();
    description.push(0);
    NativeAdapterRecord { code: 0, desc_code: 0, device_id, vendor_id, description, flags }
}

fn terminator() -> NativeAdapterRecord {
    NativeAdapterRecord {
        code: DXGI_ERROR_NOT_FOUND,
        desc_code: 0,
        device_id: 0,
        vendor_id: 0,
        description: Vec::new(),
        flags: 0,
    }
}

#[test]
fn terminator_first_yields_empty_list() {
    let records = vec![terminator()];
    let adapters = enumerate_adapter_records(&records).unwrap();
    assert!(adapters.is_empty());
}

#[test]
fn no_records_yields_empty_list() {
    let records: Vec<NativeAdapterRecord> = Vec::new();
    let adapters = enumerate_adapter_records(&records).unwrap();
    assert!(adapters.is_empty());
}

#[test]
fn enumeration_stops_at_terminator() {
    let records = vec![
        record(10, 0x10DE, "First GPU", 0),
        record(20, 0x1002, "Second GPU", 0),
        terminator(),
        record(30, 0x8086, "Past the end", 0),
    ];
    let adapters = enumerate_adapter_records(&records).unwrap();
    assert_eq!(adapters.len(), 2);
    assert_eq!(adapters[0].index, 0);
    assert_eq!(adapters[0].description.device_id, 10);
    assert_eq!(adapters[0].description.description, "First GPU");
    assert_eq!(adapters[1].index, 1);
    assert_eq!(adapters[1].description.vendor_id, 0x1002);
}

#[test]
fn enumeration_failure_aborts_with_the_code() {
    let mut bad = record(10, 1, "Broken", 0);
    bad.code = -42;
    let records = vec![record(1, 1, "Good", 0), bad, record(2, 2, "Never reached", 0)];
    let result = enumerate_adapter_records(&records);
    assert_eq!(result.unwrap_err(), Error::WindowsError(-42));
}

#[test]
fn description_failure_aborts_with_the_code() {
    let mut bad = record(10, 1, "Broken", 0);
    bad.desc_code = -13;
    let records = vec![bad];
    let result = enumerate_adapter_records(&records);
    assert_eq!(result.unwrap_err(), Error::WindowsError(-13));
}

#[test]
fn description_is_cut_at_the_first_nul() {
    // "GPU", a NUL, then residue the buffer still carries
    let records = vec![NativeAdapterRecord {
        code: 0,
        desc_code: 0,
        device_id: 1,
        vendor_id: 1,
        description: vec![0x47, 0x50, 0x55, 0, 0x58, 0x58],
        flags: 0,
    }];
    let adapters = enumerate_adapter_records(&records).unwrap();
    assert_eq!(adapters[0].description.description, "GPU");
}

#[test]
fn description_decodes_non_ascii_units() {
    let records = vec![record(1, 1, "Carte graphique intégrée", 0)];
    let adapters = enumerate_adapter_records(&records).unwrap();
    assert_eq!(adapters[0].description.description, "Carte graphique intégrée");
}

#[test]
fn software_flag_clears_hw_acceleration() {
    let records = vec![record(1, 1, "Software rasterizer", 2), record(2, 2, "Real GPU", 0)];
    let adapters = enumerate_adapter_records(&records).unwrap();
    assert!(!adapters[0].description.has_hw_acceleration);
    assert!(adapters[1].description.has_hw_acceleration);
}

fn details(device_id: u32, vendor_id: u32, hw: bool) -> AdapterDetails<BackendD3D12> {
    AdapterDetails {
        adapter: Adapter::new(device_id as usize),
        description: AdapterDescription {
            device_id,
            vendor_id,
            description: String::new(),
            has_hw_acceleration: hw,
        },
    }
}

#[test]
fn default_selection_takes_the_first_adapter() {
    // the first adapter is selected even without hardware acceleration:
    // the flag is reported for inspection, never assumed true
    let adapters = vec![details(1, 100, false), details(2, 200, true)];
    let selected = select_adapter_default(adapters).unwrap();
    assert_eq!(selected.description.device_id, 1);
    assert!(!selected.description.has_hw_acceleration);
}

#[test]
fn default_selection_of_nothing_is_none() {
    let adapters: Vec<AdapterDetails<BackendD3D12>> = Vec::new();
    assert!(select_adapter_default(adapters).is_none());
}

#[test]
fn hw_filter_skips_software_adapters() {
    let adapters = vec![details(1, 100, false), details(2, 200, true), details(3, 300, true)];
    assert_eq!(find_hw_adapter(&adapters), Some(1));
}

#[test]
fn hw_filter_finds_nothing_among_software_adapters() {
    let adapters = vec![details(1, 100, false)];
    assert_eq!(find_hw_adapter(&adapters), None);
}

#[test]
fn id_selection_matches_both_identifiers() {
    let adapters = vec![details(1, 100, true), details(2, 200, true), details(2, 300, true)];
    assert_eq!(find_adapter_by_ids(&adapters, 300, 2), Some(2));
    assert_eq!(find_adapter_by_ids(&adapters, 100, 2), None);
}

#[test]
fn enumeration_without_a_terminator_still_ends() {
    // the walk is bounded by the answers there are
    let records = vec![record(1, 1, "A", 0), record(2, 2, "B", 0)];
    let adapters = enumerate_adapter_records(&records).unwrap();
    assert_eq!(adapters.len(), 2);
}
