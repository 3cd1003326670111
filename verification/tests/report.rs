use computer_specs::graphics::{AdapterDesc, AdapterProbe};
use computer_specs::report::get_computer_specs;

#[test]
fn report_is_fully_populated() {
    let probes = vec![AdapterProbe::End];
    let report = get_computer_specs(&probes, &None);
    assert!(!report.os.is_empty());
    assert!(!report.cpu.is_empty());
    assert!(report.ram.contains(' '));
    assert!(report.storage_used.contains(' '));
    assert!(report.storage_total.contains(' '));
    assert_eq!(report.gpu, Vec::<String>::new());
    assert_eq!(report.directx, "Unknown");
}

#[test]
fn report_carries_platform_readings_through() {
    let name: Vec<u16> = vec![86, 82, 65, 77, 0];  // "VRAM" then the terminator
    let probes = vec![
        AdapterProbe::Found(AdapterDesc {
            name,
            flags: 0,
            dedicated_video_memory: 2 * 1024 * 1024 * 1024,
        }),
        AdapterProbe::End,
    ];
    let stored = Some(String::from("4.12.0000.0904"));
    let report = get_computer_specs(&probes, &stored);
    assert_eq!(report.gpu, vec![String::from("VRAM (2 GB)")]);
    assert_eq!(report.directx, "DirectX 12");
}
