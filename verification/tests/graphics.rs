use computer_specs::graphics::{
    decode_adapter_name, describe_adapter, get_graphics_info, AdapterDesc, AdapterProbe,
};

fn wide(name: &str) -> Vec<u16> {
    let mut units: Vec<u16> = name.encode_utf16().collect();
    units.push(0);
    units
}

fn desc(name: &str, flags: u32, memory: u64) -> AdapterDesc {
    AdapterDesc { name: wide(name), flags, dedicated_video_memory: memory }
}

#[test]
fn name_stops_at_null_terminator() {
    // 'A' 'B' NUL 'C': the decoder must not read past the terminator.
    let buf: Vec<u16> = vec![65, 66, 0, 67];
    assert_eq!(decode_adapter_name(&buf), "AB");
}

#[test]
fn name_without_terminator_is_whole_buffer() {
    let buf: Vec<u16> = vec![71, 80, 85];
    assert_eq!(decode_adapter_name(&buf), "GPU");
}

#[test]
fn qualifying_adapter_line() {
    let a = desc("Test GPU", 0, 4 * 1024 * 1024 * 1024);
    assert_eq!(describe_adapter(&a), Some(String::from("Test GPU (4 GB)")));
}

#[test]
fn software_adapter_excluded_despite_memory() {
    // The software flag wins even with plenty of dedicated memory.
    let a = desc("Renderer", 2, 8 * 1024 * 1024 * 1024);
    assert_eq!(describe_adapter(&a), None);
}

#[test]
fn zero_memory_adapter_excluded_without_flag() {
    let a = desc("Integrated", 0, 0);
    assert_eq!(describe_adapter(&a), None);
}

#[test]
fn scan_filters_and_formats_in_order() {
    let probes = vec![
        AdapterProbe::Found(desc("First", 0, 1024 * 1024 * 1024)),
        AdapterProbe::Found(desc("Soft", 2, 1024 * 1024 * 1024)),
        AdapterProbe::Unavailable,
        AdapterProbe::Found(desc("Second", 0, 2 * 1024 * 1024 * 1024)),
        AdapterProbe::End,
    ];
    assert_eq!(
        get_graphics_info(&probes),
        vec![String::from("First (1 GB)"), String::from("Second (2 GB)")]
    );
}

#[test]
fn scan_stops_at_first_end_signal() {
    // Whatever stands after the end-of-enumeration signal is never looked at.
    let probes = vec![
        AdapterProbe::Found(desc("Before", 0, 1024 * 1024 * 1024)),
        AdapterProbe::End,
        AdapterProbe::Found(desc("After", 0, 1024 * 1024 * 1024)),
    ];
    assert_eq!(get_graphics_info(&probes), vec![String::from("Before (1 GB)")]);
}

#[test]
fn empty_trace_yields_no_adapters() {
    let probes: Vec<AdapterProbe> = vec![AdapterProbe::End];
    assert_eq!(get_graphics_info(&probes), Vec::<String>::new());
}

#[test]
fn retrieval_failure_skips_only_that_index() {
    let probes = vec![
        AdapterProbe::Unavailable,
        AdapterProbe::Found(desc("Card", 0, 512 * 1024 * 1024)),
        AdapterProbe::End,
    ];
    assert_eq!(get_graphics_info(&probes), vec![String::from("Card (512 MB)")]);
}
