use bytes::BytesMut;
use h2_settings::experimental::ExperimentalSettings;
use h2_settings::frame::{Error, Head, KIND_SETTINGS};
use h2_settings::ids::SettingId;
use h2_settings::order::SettingsOrder;
use h2_settings::setting::Setting;
use h2_settings::settings::Settings;

fn record(code: u16, value: u32) -> Vec<u8> {
    let mut raw = Vec::new();
    raw.extend_from_slice(&code.to_be_bytes());
    raw.extend_from_slice(&value.to_be_bytes());
    raw
}

fn load_one(code: u16, value: u32) -> Result<Settings, Error> {
    let payload = record(code, value);
    Settings::load(Head::new(KIND_SETTINGS, 0, 0), &payload)
}

#[test]
fn setting_unknown_range_guard() {
    assert!(Setting::from_id(SettingId::Unknown(16), 42).is_none());
    assert!(Setting::from_id(SettingId::Unknown(15), 42).is_some());
    assert!(Setting::from_id(SettingId::Unknown(0), 42).is_none());
}

#[test]
fn ack_round_trip() {
    let head = Head::new(KIND_SETTINGS, 0x1, 0);
    let s = Settings::load(head, &[]).unwrap();
    assert!(s.is_ack());
    assert_eq!(s.header_table_size(), None);
    assert_eq!(s.is_push_enabled(), None);
    assert_eq!(s.max_concurrent_streams(), None);
    assert_eq!(s.initial_window_size(), None);
    assert_eq!(s.max_frame_size(), None);
    assert_eq!(s.max_header_list_size(), None);
    assert_eq!(s.is_extended_connect_protocol_enabled(), None);

    let mut buf = BytesMut::new();
    s.encode(&mut buf);
    assert_eq!(buf.len(), 9);
    // payload length 0, kind SETTINGS, the ACK flag, stream 0
    assert_eq!(&buf[..], &[0, 0, 0, 0x4, 0x1, 0, 0, 0, 0]);
}

#[test]
fn ack_with_payload_rejected() {
    let head = Head::new(KIND_SETTINGS, 0x1, 0);
    assert!(matches!(
        Settings::load(head, &[0]),
        Err(Error::InvalidPayloadLength)
    ));
}

#[test]
fn nonzero_stream_rejected() {
    let head = Head::new(KIND_SETTINGS, 0, 1);
    assert!(matches!(Settings::load(head, &[]), Err(Error::InvalidStreamId)));
}

#[test]
fn malformed_length_rejected() {
    let head = Head::new(KIND_SETTINGS, 0, 0);
    let payload = [0u8; 7];
    assert!(matches!(
        Settings::load(head, &payload),
        Err(Error::InvalidPayloadAckSettings)
    ));
}

#[test]
fn initial_window_size_boundaries() {
    let s = load_one(4, 2147483647).unwrap();
    assert_eq!(s.initial_window_size(), Some(2147483647));
    assert!(matches!(
        load_one(4, 2147483648),
        Err(Error::InvalidSettingValue)
    ));
}

#[test]
fn max_frame_size_boundaries() {
    assert_eq!(load_one(5, 16384).unwrap().max_frame_size(), Some(16384));
    assert_eq!(
        load_one(5, 16777215).unwrap().max_frame_size(),
        Some(16777215)
    );
    assert!(matches!(load_one(5, 16383), Err(Error::InvalidSettingValue)));
    assert!(matches!(
        load_one(5, 16777216),
        Err(Error::InvalidSettingValue)
    ));
}

#[test]
fn boolean_domain_validation() {
    assert_eq!(load_one(2, 0).unwrap().is_push_enabled(), Some(false));
    assert_eq!(load_one(2, 1).unwrap().is_push_enabled(), Some(true));
    assert!(matches!(load_one(2, 2), Err(Error::InvalidSettingValue)));
    assert_eq!(
        load_one(8, 1).unwrap().is_extended_connect_protocol_enabled(),
        Some(true)
    );
    assert!(matches!(load_one(8, 2), Err(Error::InvalidSettingValue)));
    assert!(matches!(load_one(9, 2), Err(Error::InvalidSettingValue)));
}

#[test]
fn unknown_code_on_wire_tolerated() {
    let mut payload = record(7, 123);
    payload.extend_from_slice(&record(1, 4096));
    payload.extend_from_slice(&record(3, 100));
    let s = Settings::load(Head::new(KIND_SETTINGS, 0, 0), &payload).unwrap();
    assert_eq!(s.header_table_size(), Some(4096));
    assert_eq!(s.max_concurrent_streams(), Some(100));
    assert_eq!(s.initial_window_size(), None);
    assert!(!s.is_ack());
}

#[test]
fn out_of_range_code_on_wire_tolerated() {
    // code 16 is beyond the representable range; the whole record is
    // skipped rather than rejected
    let mut payload = record(16, 5);
    payload.extend_from_slice(&record(6, 8192));
    let s = Settings::load(Head::new(KIND_SETTINGS, 0, 0), &payload).unwrap();
    assert_eq!(s.max_header_list_size(), Some(8192));
}

#[test]
fn later_record_overrides_earlier() {
    let mut payload = record(1, 100);
    payload.extend_from_slice(&record(1, 200));
    let s = Settings::load(Head::new(KIND_SETTINGS, 0, 0), &payload).unwrap();
    assert_eq!(s.header_table_size(), Some(200));
}

#[test]
fn encode_decode_value_fidelity() {
    let mut s = Settings::default();
    s.set_header_table_size(Some(4096));
    s.set_enable_push(true);
    s.set_max_concurrent_streams(Some(100));
    s.set_initial_window_size(Some(65535));
    s.set_max_frame_size(Some(16384));
    s.set_max_header_list_size(Some(262144));
    s.set_enable_connect_protocol(Some(1));
    s.set_no_rfc7540_priorities(false);

    let mut buf = BytesMut::new();
    s.encode(&mut buf);
    assert_eq!(buf.len(), 9 + 8 * 6);
    assert_eq!(&buf[..3], &[0, 0, 48]);

    let head = Head::new(KIND_SETTINGS, buf[4], 0);
    let decoded = Settings::load(head, &buf[9..]).unwrap();
    assert!(!decoded.is_ack());
    assert_eq!(decoded.header_table_size(), Some(4096));
    assert_eq!(decoded.is_push_enabled(), Some(true));
    assert_eq!(decoded.max_concurrent_streams(), Some(100));
    assert_eq!(decoded.initial_window_size(), Some(65535));
    assert_eq!(decoded.max_frame_size(), Some(16384));
    assert_eq!(decoded.max_header_list_size(), Some(262144));
    assert_eq!(decoded.is_extended_connect_protocol_enabled(), Some(true));
}

#[test]
fn encode_respects_custom_order() {
    let order = SettingsOrder::builder().push(SettingId::MaxFrameSize).build();
    let mut s = Settings::default();
    s.set_max_frame_size(Some(16385));
    s.set_header_table_size(Some(4096));
    s.set_settings_order(order);

    let mut buf = BytesMut::new();
    s.encode(&mut buf);
    assert_eq!(buf.len(), 9 + 2 * 6);
    // MaxFrameSize was pushed first, so its record precedes the rest
    assert_eq!(&buf[9..15], &[0, 5, 0, 0, 0x40, 0x01]);
    assert_eq!(&buf[15..21], &[0, 1, 0, 0, 0x10, 0x00]);
}

#[test]
fn encode_emits_experimental_at_unknown_slot() {
    let order = SettingsOrder::builder()
        .push(SettingId::Unknown(12))
        .build();
    let experimental = ExperimentalSettings::builder()
        .push(Setting::from_id(SettingId::Unknown(12), 77))
        .push(Setting::from_id(SettingId::Unknown(13), 88))
        .build();
    let mut s = Settings::default();
    s.set_enable_push(true);
    s.set_settings_order(order);
    s.set_experimental_settings(experimental);

    let mut buf = BytesMut::new();
    s.encode(&mut buf);
    // one experimental record reachable through the order, one standard
    assert_eq!(&buf[..3], &[0, 0, 12]);
    assert_eq!(buf.len(), 9 + 2 * 6);
    assert_eq!(&buf[9..15], &[0, 12, 0, 0, 0, 77]);
    assert_eq!(&buf[15..21], &[0, 2, 0, 0, 0, 1]);
}

#[test]
fn settings_clone_preserves_values() {
    let mut s = Settings::default();
    s.set_header_table_size(Some(123));
    let c = s.clone();
    assert_eq!(c.header_table_size(), Some(123));
    assert_eq!(c.is_push_enabled(), None);
}
