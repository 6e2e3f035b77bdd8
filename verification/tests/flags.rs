use h2_settings::flags::SettingsFlags;
use h2_settings::ids::SettingId;
use h2_settings::setting::Setting;

#[test]
fn flags_keep_only_the_ack_bit() {
    assert!(!SettingsFlags::empty().is_ack());
    assert!(SettingsFlags::ack().is_ack());
    assert!(SettingsFlags::load(0xFF).is_ack());
    assert!(!SettingsFlags::load(0xFE).is_ack());
    assert_eq!(SettingsFlags::load(0xFF).bits(), 0x1);
    assert_eq!(SettingsFlags::load(0xFE).bits(), 0x0);
    assert_eq!(SettingsFlags::default().bits(), 0x0);
}

#[test]
fn setting_load_parses_big_endian() {
    let raw = [0u8, 5, 0, 0, 0x40, 0];
    let st = Setting::load(&raw).unwrap();
    assert_eq!(st.id(), SettingId::MaxFrameSize);
    assert_eq!(st.value(), 16384);

    let raw = [0u8, 12, 0xAA, 0xBB, 0xCC, 0xDD];
    let st = Setting::load(&raw).unwrap();
    assert_eq!(st.id(), SettingId::Unknown(12));
    assert_eq!(st.value(), 0xAABBCCDD);

    let raw = [0u8, 0, 0, 0, 0, 1];
    assert!(Setting::load(&raw).is_none());
}
