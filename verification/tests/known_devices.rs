use arctis_battery::known_devices::{
    arctis_devices, find_device, ArctisPID, Device, DEVICE_COUNT, REPORT_BUFFER_SIZE,
    REQUEST_BUFFER_SIZE, STEELSERIES_VID,
};
use arctis_battery::scaling::Scaling;

fn report_with(index: usize, raw: u8) -> [u8; REPORT_BUFFER_SIZE] {
    let mut report = [0u8; REPORT_BUFFER_SIZE];
    report[index] = raw;
    report
}

fn device_for(product_id: u16) -> Device<'static> {
    match find_device(STEELSERIES_VID, product_id) {
        Some(device) => device,
        None => panic!("no entry for product {:#06x}", product_id),
    }
}

#[test]
fn constants_have_their_values() {
    assert_eq!(STEELSERIES_VID, 0x1038);
    assert_eq!(REQUEST_BUFFER_SIZE, 32);
    assert_eq!(REPORT_BUFFER_SIZE, 32);
    assert_eq!(DEVICE_COUNT, 17);
}

#[test]
fn product_numbers_of_the_models() {
    let expected: [(ArctisPID, u16); 17] = [
        (ArctisPID::Arctis7_2019, 0x12ad),
        (ArctisPID::Arctis7_2017, 0x1260),
        (ArctisPID::ArctisPro_Wireless, 0x1290),
        (ArctisPID::ArctisPro_2019, 0x1252),
        (ArctisPID::ArctisPro_GameDac, 0x1280),
        (ArctisPID::Arctis1W, 0x12b3),
        (ArctisPID::Arctis1X, 0x12b6),
        (ArctisPID::Arctis7X, 0x12d7),
        (ArctisPID::Arctis7P, 0x12d5),
        (ArctisPID::Arctis9, 0x12c2),
        (ArctisPID::Arctis7_Plus, 0x220e),
        (ArctisPID::Arctis7_Plus_Destiny, 0x2236),
        (ArctisPID::Arctis7P_Plus, 0x2212),
        (ArctisPID::Arctis7X_Plus, 0x2216),
        (ArctisPID::ArctisNova7, 0x2202),
        (ArctisPID::ArctisNova7X, 0x2206),
        (ArctisPID::ArctisNova7P, 0x220a),
    ];
    for (pid, number) in expected {
        let converted: u16 = pid.into();
        assert_eq!(converted, number);
    }
}

#[test]
fn table_lists_the_models_in_order() {
    let names = [
        "Arctis 7 (2019)",
        "Arctis 7 (2017)",
        "Arctis Pro Wireless",
        "Arctis Pro 2019",
        "Arctis Pro GameDac",
        "Arctis 9",
        "Arctis 1 Wireless",
        "Arctis 1 Xbox",
        "Arctis 7X",
        "Arctis 7P",
        "Arctis 7 Plus",
        "Arctis 7 Destiny Plus",
        "Arctis 7P Plus",
        "Arctis 7X Plus",
        "Arctis Nova 7",
        "Arctis Nova 7X",
        "Arctis Nova 7P",
    ];
    let table = arctis_devices();
    assert_eq!(table.len(), names.len());
    for (device, name) in table.iter().zip(names) {
        assert_eq!(device.name, name);
    }
}

#[test]
fn table_keys_are_distinct() {
    let table = arctis_devices();
    for (i, first) in table.iter().enumerate() {
        for second in table.iter().skip(i + 1) {
            assert_ne!(Into::<u16>::into(first.pid), Into::<u16>::into(second.pid));
            assert_ne!(first.pid, second.pid);
        }
    }
}

#[test]
fn device_made_by_hand_is_checked() {
    let sound = Device {
        name: "bench",
        pid: ArctisPID::Arctis9,
        reportid: 0,
        addr_battery: 0,
        idx_battery: 31,
        calculate_battery: Scaling::LinearOffset { min: 7, max: 7 },
    };
    assert!(sound.is_well_formed());
    let beyond_the_reply = Device { idx_battery: 32, ..sound };
    assert!(!beyond_the_reply.is_well_formed());
    let reversed = Device { calculate_battery: Scaling::LinearOffset { min: 8, max: 7 }, ..sound };
    assert!(!reversed.is_well_formed());
}

#[test]
fn table_entries_are_well_formed() {
    for device in arctis_devices() {
        assert!(device.is_well_formed());
        assert!(usize::from(device.idx_battery) < REPORT_BUFFER_SIZE);
        if let Scaling::LinearOffset { min, max } = device.calculate_battery {
            assert!(min <= max);
        }
    }
}

#[test]
fn battery_bytes_stand_at_the_known_places() {
    for device in arctis_devices() {
        assert!([0, 2, 3, 4].contains(&device.idx_battery));
    }
    assert_eq!(device_for(0x1290).idx_battery, 0);
    assert_eq!(device_for(0x12ad).idx_battery, 2);
    assert_eq!(device_for(0x12b3).idx_battery, 3);
    assert_eq!(device_for(0x2236).idx_battery, 3);
    assert_eq!(device_for(0x12c2).idx_battery, 4);
}

#[test]
fn find_device_gives_the_entry_of_each_model() {
    for device in arctis_devices() {
        let found = find_device(STEELSERIES_VID, device.pid.into());
        assert_eq!(found, Some(device));
    }
}

#[test]
fn find_device_knows_the_arctis_7() {
    let device = device_for(0x12ad);
    assert_eq!(device.name, "Arctis 7 (2019)");
    assert_eq!(device.pid, ArctisPID::Arctis7_2019);
    assert_eq!(device.reportid, 0x06);
    assert_eq!(device.addr_battery, 0x18);
    assert_eq!(device.idx_battery, 2);
    assert_eq!(device.calculate_battery, Scaling::Identity);
}

#[test]
fn find_device_knows_the_arctis_nova_7() {
    let device = device_for(0x2202);
    assert_eq!(device.name, "Arctis Nova 7");
    assert_eq!(device.pid, ArctisPID::ArctisNova7);
    assert_eq!(device.reportid, 0x00);
    assert_eq!(device.addr_battery, 0xb0);
    assert_eq!(device.idx_battery, 2);
    assert_eq!(device.calculate_battery, Scaling::DiscreteLevels { levels: 4 });
}

#[test]
fn find_device_knows_the_arctis_9() {
    let device = device_for(0x12c2);
    assert_eq!(device.name, "Arctis 9");
    assert_eq!(device.reportid, 0x00);
    assert_eq!(device.addr_battery, 0x20);
    assert_eq!(device.idx_battery, 4);
    assert_eq!(device.calculate_battery, Scaling::LinearOffset { min: 100, max: 154 });
}

#[test]
fn find_device_rejects_an_unknown_product() {
    assert_eq!(find_device(STEELSERIES_VID, 0x0000), None);
    assert_eq!(find_device(STEELSERIES_VID, 0x12ae), None);
    assert_eq!(find_device(STEELSERIES_VID, 0xffff), None);
}

#[test]
fn find_device_rejects_another_vendor() {
    assert_eq!(find_device(0x046d, 0x12ad), None);
    assert_eq!(find_device(0x0000, 0x2202), None);
    assert_eq!(find_device(0x1039, 0x12c2), None);
}

#[test]
fn request_holds_report_number_and_address() {
    let frame = device_for(0x12ad).generate_request();
    assert_eq!(frame.len(), REQUEST_BUFFER_SIZE);
    assert_eq!(frame[0], 0x06);
    assert_eq!(frame[1], 0x18);
    assert!(frame[2..].iter().all(|byte| *byte == 0));
}

#[test]
fn request_of_the_arctis_pro_wireless() {
    let mut expected = [0u8; REQUEST_BUFFER_SIZE];
    expected[0] = 0x40;
    expected[1] = 0xaa;
    assert_eq!(device_for(0x1290).generate_request(), expected);
}

#[test]
fn request_of_every_model_is_padded_with_zeros() {
    for device in arctis_devices() {
        let frame = device.generate_request();
        assert_eq!(frame[0], device.reportid);
        assert_eq!(frame[1], device.addr_battery);
        assert!(frame[2..].iter().all(|byte| *byte == 0));
    }
}

#[test]
fn request_of_a_device_made_by_hand() {
    let device = Device {
        name: "bench",
        pid: ArctisPID::Arctis9,
        reportid: 0xff,
        addr_battery: 0x01,
        idx_battery: 31,
        calculate_battery: Scaling::Identity,
    };
    let frame = device.generate_request();
    assert_eq!(frame[0], 0xff);
    assert_eq!(frame[1], 0x01);
    assert!(frame[2..].iter().all(|byte| *byte == 0));
    assert_eq!(device.read_battery_percent(&report_with(31, 42)), 42);
}

#[test]
fn battery_percent_of_a_model_that_sends_percent() {
    let device = device_for(0x12ad);
    assert_eq!(device.read_battery_percent(&report_with(2, 57)), 57);
    assert_eq!(device.read_battery_percent(&report_with(2, 0)), 0);
    assert_eq!(device.read_battery_percent(&report_with(2, 100)), 100);
    // The byte is handed on as it came.
    assert_eq!(device.read_battery_percent(&report_with(2, 180)), 180);
    // Other bytes of the reply do not count.
    assert_eq!(device.read_battery_percent(&report_with(3, 57)), 0);
}

#[test]
fn battery_percent_of_a_model_that_sends_levels() {
    let device = device_for(0x2202);
    assert_eq!(device.read_battery_percent(&report_with(2, 0)), 0);
    assert_eq!(device.read_battery_percent(&report_with(2, 1)), 25);
    assert_eq!(device.read_battery_percent(&report_with(2, 2)), 50);
    assert_eq!(device.read_battery_percent(&report_with(2, 3)), 75);
    assert_eq!(device.read_battery_percent(&report_with(2, 4)), 100);
    assert_eq!(device.read_battery_percent(&report_with(2, 9)), 100);
}

#[test]
fn battery_percent_of_a_model_that_sends_a_band() {
    let device = device_for(0x12c2);
    assert_eq!(device.read_battery_percent(&report_with(4, 0x64)), 0);
    assert_eq!(device.read_battery_percent(&report_with(4, 127)), 50);
    assert_eq!(device.read_battery_percent(&report_with(4, 0x9a)), 100);
    assert_eq!(device.read_battery_percent(&report_with(4, 0x10)), 0);
    assert_eq!(device.read_battery_percent(&report_with(4, 0xff)), 100);
}

#[test]
fn battery_percent_of_the_first_byte() {
    let device = device_for(0x1290);
    assert_eq!(device.read_battery_percent(&report_with(0, 3)), 75);
}
