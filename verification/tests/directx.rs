use computer_specs::directx::get_directx_version;

#[test]
fn stored_twelve_maps_to_label() {
    let stored = Some(String::from("4.12.0000.0904"));
    assert_eq!(get_directx_version(&stored), "DirectX 12");
}

#[test]
fn stored_nine_maps_to_label() {
    let stored = Some(String::from("4.09.00.0904"));
    assert_eq!(get_directx_version(&stored), "DirectX 9.0c");
}

#[test]
fn stored_ten_maps_to_label() {
    let stored = Some(String::from("4.10.0000.0904"));
    assert_eq!(get_directx_version(&stored), "DirectX 10");
}

#[test]
fn stored_eleven_maps_to_label() {
    let stored = Some(String::from("4.11.0000.0904"));
    assert_eq!(get_directx_version(&stored), "DirectX 11");
}

#[test]
fn unrecognized_value_is_echoed() {
    let stored = Some(String::from("9.9.9.9"));
    assert_eq!(get_directx_version(&stored), "Unknown (9.9.9.9)");
}

#[test]
fn missing_value_is_unknown() {
    assert_eq!(get_directx_version(&None), "Unknown");
}

#[test]
fn empty_value_is_echoed() {
    let stored = Some(String::new());
    assert_eq!(get_directx_version(&stored), "Unknown ()");
}
