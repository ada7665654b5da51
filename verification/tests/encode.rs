use usb_capture::devices::{device_info_from_ids, UsbDeviceInfo};
use usb_capture::encode::{encode_device_list, encode_packet_list, encode_stats};
use usb_capture::packet::UsbPacket;
use usb_capture::session::CaptureState;

#[test]
fn empty_lists_encode_as_brackets() {
    let devices: Vec<UsbDeviceInfo> = Vec::new();
    assert_eq!(encode_device_list(&devices), "[]");
    let packets: Vec<UsbPacket> = Vec::new();
    assert_eq!(encode_packet_list(&packets), "[]");
}

#[test]
fn device_list_encoding_is_exact() {
    let devices = vec![device_info_from_ids(0x1234, 0xABCD)];
    let encoded = encode_device_list(&devices);
    assert_eq!(
        encoded,
        "[{\"vendor_id\":4660,\"product_id\":43981,\"vendor_name\":\"Vendor 0x1234\",\
         \"product_name\":\"Product 0xABCD\",\"device_id\":\"1234:ABCD\"}]"
    );
}

#[test]
fn device_list_encoding_parses_as_json() {
    let devices = vec![
        device_info_from_ids(0x1234, 0xABCD),
        device_info_from_ids(0x0001, 0x0002),
    ];
    let encoded = encode_device_list(&devices);
    let v: serde_json::Value = serde_json::from_str(&encoded).unwrap();
    let list = v.as_array().unwrap();
    assert_eq!(list.len(), 2);
    assert_eq!(list[0].get("vendor_id").unwrap().as_u64(), Some(0x1234));
    assert_eq!(list[0].get("product_id").unwrap().as_u64(), Some(0xABCD));
    assert_eq!(
        list[0].get("device_id").unwrap().as_str(),
        Some("1234:ABCD")
    );
    assert_eq!(
        list[1].get("vendor_name").unwrap().as_str(),
        Some("Vendor 0x0001")
    );
}

#[test]
fn packet_list_encoding_parses_as_json() {
    let mut s = CaptureState::new();
    assert_eq!(s.start(1, 2), Ok(()));
    let packets = s.poll(555);
    let encoded = encode_packet_list(&packets);
    let v: serde_json::Value = serde_json::from_str(&encoded).unwrap();
    let list = v.as_array().unwrap();
    assert_eq!(list.len(), 2);
    assert_eq!(list[0].get("timestamp").unwrap().as_u64(), Some(555));
    assert_eq!(list[0].get("packet_type").unwrap().as_u64(), Some(0));
    assert_eq!(list[0].get("data_length").unwrap().as_u64(), Some(16));
    assert_eq!(
        list[0].get("content").unwrap().as_str(),
        Some("HEX: 80 69 12 34 1C 23 2A 31 38 3F 46 4D 54 5B 56 78 (16 bytes)")
    );
    assert_eq!(list[1].get("packet_type").unwrap().as_u64(), Some(1));
    assert_eq!(list[1].get("data_length").unwrap().as_u64(), Some(8));
}

#[test]
fn string_fields_are_escaped() {
    let p = UsbPacket {
        timestamp: 1,
        packet_type: 2,
        content: String::from("say \"hi\" \\ bye"),
        data_length: 0,
    };
    let packets = vec![p];
    let encoded = encode_packet_list(&packets);
    assert_eq!(
        encoded,
        "[{\"timestamp\":1,\"packet_type\":2,\"content\":\"say \\\"hi\\\" \\\\ bye\",\
         \"data_length\":0}]"
    );
    let v: serde_json::Value = serde_json::from_str(&encoded).unwrap();
    assert_eq!(
        v.as_array().unwrap()[0].get("content").unwrap().as_str(),
        Some("say \"hi\" \\ bye")
    );
}

#[test]
fn stats_encoding_is_exact() {
    let mut s = CaptureState::new();
    assert_eq!(s.start(9, 9), Ok(()));
    let _ = s.poll(1);
    let st = s.stats();
    let encoded = encode_stats(&st);
    assert_eq!(
        encoded,
        "{\"packet_counter\":1,\"bytes_received\":16,\"bytes_sent\":8,\"is_capturing\":true}"
    );
    assert_eq!(s.stop(), Ok(()));
    let encoded = encode_stats(&s.stats());
    assert_eq!(
        encoded,
        "{\"packet_counter\":1,\"bytes_received\":16,\"bytes_sent\":8,\"is_capturing\":false}"
    );
}

#[test]
fn large_counters_encode_in_decimal() {
    let mut s = CaptureState::new();
    s.packet_counter = u64::MAX;
    s.bytes_received = 10_000_000_000;
    let st = s.stats();
    let encoded = encode_stats(&st);
    assert_eq!(
        encoded,
        "{\"packet_counter\":18446744073709551615,\"bytes_received\":10000000000,\
         \"bytes_sent\":0,\"is_capturing\":false}"
    );
}
