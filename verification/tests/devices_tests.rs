use rawaccel_userspace::devices::{collect_devices, device_name, instance_id, RawMouseDevice};
use rawaccel_userspace::driver::io_layout;
use rawaccel_userspace::models::{accel_mode, accel_union, cap_mode, ACCEL_UNION_SIZE};

fn buffer(s: &str, len: usize) -> Vec<u16> {
    let mut units: Vec<u16> = s.encode_utf16().collect();
    units.resize(len, 0);
    units
}

fn id_bytes(s: &str) -> Vec<u8> {
    let mut bytes = Vec::new();
    for u in s.encode_utf16().chain(std::iter::once(0)) {
        bytes.extend_from_slice(&u.to_le_bytes());
    }
    bytes
}

#[test]
fn device_names_join_manufacturer_and_product() {
    let p = Some(buffer("G502 Mouse", 127));
    let m = Some(buffer("Logitech", 127));
    assert_eq!(device_name(&p, &m), "Logitech G502 Mouse");
    let p2 = Some(buffer("Logitech G502", 127));
    assert_eq!(device_name(&p2, &m), "Logitech G502");
    assert_eq!(device_name(&p, &None), "G502 Mouse");
    assert_eq!(device_name(&None, &m), "");
    // An unpaired surrogate reads as U+FFFD.
    let odd = Some(vec![0x41, 0xD800, 0x42, 0, 0]);
    assert_eq!(device_name(&odd, &None), "A\u{FFFD}B");
}

#[test]
fn instance_ids_drop_the_last_component() {
    assert_eq!(instance_id(&id_bytes("HID\\VID_046D&PID_C08B\\7&1a2b")), "HID\\VID_046D&PID_C08B");
    assert_eq!(instance_id(&id_bytes("PLAIN")), "PLAIN");
    assert_eq!(instance_id(&vec![0x41, 0x00, 0x42]), "A");
}

#[test]
fn device_list_holds_each_id_once() {
    let raw = |name: &str, id: &str| RawMouseDevice {
        product: Some(buffer(name, 127)),
        manufacturer: None,
        instance_id: id_bytes(id),
    };
    let devices = collect_devices(&vec![
        raw("First", "HID\\A\\1"),
        raw("Second", "HID\\B\\1"),
        raw("Again", "HID\\A\\2"),
    ]);
    assert_eq!(devices.len(), 2);
    assert_eq!(devices[0].name, "First");
    assert_eq!(devices[0].id, "HID\\A");
    assert_eq!(devices[1].name, "Second");
    assert_eq!(devices[1].id, "HID\\B");
}

#[test]
fn driver_buffer_layout() {
    let l = io_layout(24, 3000, 2, 1240, 1).unwrap();
    assert_eq!(l.modifier_offset, 24);
    assert_eq!(l.modifier_data_size, 6000);
    assert_eq!(l.device_offset, 6024);
    assert_eq!(l.device_data_size, 1240);
    assert_eq!(l.total_size, 7264);
    assert_eq!(l.profile_offset(3000, 1), 3024);
    assert!(io_layout(24, usize::MAX / 2, 3, 1, 1).is_none());
    assert!(io_layout(usize::MAX, 0, 0, 1, 1).is_none());
}

#[test]
fn union_writes_a_prefix() {
    assert_eq!(std::mem::size_of::<accel_union>(), 72);
    let mut u = accel_union::default();
    u.memory[10] = 9;
    u.write(&[1, 2, 3]);
    assert_eq!(&u.memory[..4], &[1, 2, 3, 0]);
    assert_eq!(u.memory[10], 9);
    u.write(&[7u8; ACCEL_UNION_SIZE]);
    assert!(u.memory.iter().all(|b| *b == 7));
}

#[test]
fn mode_codes_match_the_driver_header() {
    let modes = [
        accel_mode::classic,
        accel_mode::jump,
        accel_mode::natural,
        accel_mode::synchronous,
        accel_mode::power,
        accel_mode::lookup,
        accel_mode::tiered,
        accel_mode::noaccel,
    ];
    for (i, m) in modes.iter().enumerate() {
        assert_eq!(m.code(), i as i32);
        assert_eq!(accel_mode::from_code(i as i32), Some(*m));
    }
    assert_eq!(accel_mode::from_code(8), None);
    assert_eq!(accel_mode::default(), accel_mode::noaccel);
    assert_eq!(cap_mode::default(), cap_mode::out);
    assert_eq!(cap_mode::in_.code(), 1);
    assert_eq!(cap_mode::from_code(-1), None);
}
