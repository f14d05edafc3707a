use steamdeck_touch::device::{
    HidDeviceId, RECONNECT_DELAY_MS, ReadDisposition, is_touch_interface, read_disposition,
    select_device,
};

fn id(vendor_id: u16, product_id: u16, interface_number: i32) -> HidDeviceId {
    HidDeviceId { vendor_id, product_id, interface_number }
}

#[test]
fn touch_interface_needs_all_three_fields() {
    assert!(is_touch_interface(&id(0x28DE, 0x1205, 2)));
    assert!(!is_touch_interface(&id(0x28DE, 0x1205, 0)));
    assert!(!is_touch_interface(&id(0x28DE, 0x1206, 2)));
    assert!(!is_touch_interface(&id(0x046D, 0x1205, 2)));
}

#[test]
fn select_device_skips_other_interfaces() {
    let devices = vec![
        id(0x046D, 0xC07E, 0),
        id(0x28DE, 0x1205, 0),
        id(0x28DE, 0x1205, 2),
        id(0x28DE, 0x1205, 2),
    ];
    assert_eq!(select_device(&devices), Some(2));
}

#[test]
fn select_device_absent_is_none() {
    let devices = vec![id(0x046D, 0xC07E, 0), id(0x28DE, 0x1205, 1)];
    assert_eq!(select_device(&devices), None);
    assert_eq!(select_device(&Vec::new()), None);
}

#[test]
fn failed_read_leads_to_one_delayed_reconnect() {
    let reads: [Option<usize>; 3] = [None, Some(64), Some(64)];
    let mut reconnects: usize = 0;
    for read in reads {
        match read_disposition(read) {
            ReadDisposition::Reconnect { delay_ms } => {
                assert_eq!(delay_ms, RECONNECT_DELAY_MS);
                reconnects += 1;
            }
            ReadDisposition::Process => {}
            ReadDisposition::Discard => panic!("full reads must be processed"),
        }
    }
    assert_eq!(reconnects, 1);
}

#[test]
fn wrong_size_read_is_discarded() {
    assert_eq!(read_disposition(Some(63)), ReadDisposition::Discard);
    assert_eq!(read_disposition(Some(65)), ReadDisposition::Discard);
    assert_eq!(read_disposition(Some(0)), ReadDisposition::Discard);
    assert_eq!(read_disposition(Some(64)), ReadDisposition::Process);
}
