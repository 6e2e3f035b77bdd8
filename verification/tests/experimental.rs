use h2_settings::experimental::ExperimentalSettings;
use h2_settings::ids::{SettingId, MAX_ID};
use h2_settings::setting::Setting;

#[test]
fn test_experimental_settings_builder() {
    // ids beyond MAX_ID are not representable and get dropped
    assert!(MAX_ID < 16);

    let unknown = ExperimentalSettings::builder()
        .extend(vec![
            Setting::from_id(SettingId::Unknown(16), 42),
            Setting::from_id(SettingId::Unknown(16), 84),
        ])
        .build();

    assert_eq!(unknown.len(), 0);

    let unknown = ExperimentalSettings::builder()
        .push(Setting::from_id(SettingId::Unknown(15), 42))
        .push(Setting::from_id(SettingId::Unknown(14), 84))
        // will ignore the duplicate
        .push(Setting::from_id(SettingId::Unknown(14), 84))
        .build();

    assert_eq!(unknown.len(), 2);

    // ignore non-unknown settings
    let unknown = ExperimentalSettings::builder()
        .push(Setting::from_id(SettingId::HeaderTableSize, 42))
        .push(Setting::from_id(SettingId::Unknown(15), 84))
        .build();
    assert_eq!(unknown.len(), 1);
}

#[test]
fn experimental_dedup_keeps_first_value() {
    let unknown = ExperimentalSettings::builder()
        .push(Setting::from_id(SettingId::Unknown(12), 7))
        .push(Setting::from_id(SettingId::Unknown(12), 9))
        .build();
    assert_eq!(unknown.len(), 1);
    let st = unknown.get(0);
    assert_eq!(st.id(), SettingId::Unknown(12));
    assert_eq!(st.value(), 7);
}

#[test]
fn experimental_spoofed_standard_code_dropped() {
    // an Unknown identifier whose code maps back to a standard one is
    // never stored
    let unknown = ExperimentalSettings::builder()
        .push(Setting::from_id(SettingId::Unknown(2), 1))
        .push(Setting::from_id(SettingId::Unknown(10), 3))
        .build();
    assert_eq!(unknown.len(), 1);
    assert_eq!(unknown.get(0).id(), SettingId::Unknown(10));
    assert_eq!(unknown.get(0).value(), 3);
}
