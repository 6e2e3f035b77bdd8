use h2_settings::ids::SettingId;
use h2_settings::order::SettingsOrder;

fn default_ids() -> Vec<SettingId> {
    vec![
        SettingId::HeaderTableSize,
        SettingId::EnablePush,
        SettingId::MaxConcurrentStreams,
        SettingId::InitialWindowSize,
        SettingId::MaxFrameSize,
        SettingId::MaxHeaderListSize,
        SettingId::EnableConnectProtocol,
        SettingId::NoRfc7540Priorities,
    ]
}

#[test]
fn test_settings_order() {
    let order = SettingsOrder::builder().build();
    assert!(order.len() > 0);
    assert_eq!(order.len(), default_ids().len());
    for (i, id) in default_ids().into_iter().enumerate() {
        assert_eq!(order.get(i), id);
    }

    let expected_order = vec![
        SettingId::HeaderTableSize,
        SettingId::EnablePush,
        SettingId::MaxConcurrentStreams,
        SettingId::InitialWindowSize,
        SettingId::MaxFrameSize,
        SettingId::MaxHeaderListSize,
        SettingId::NoRfc7540Priorities,
        SettingId::EnableConnectProtocol,
    ];
    let order = SettingsOrder::builder().extend(expected_order.clone()).build();
    assert_eq!(order.len(), expected_order.len());
    for (i, id) in expected_order.into_iter().enumerate() {
        assert_eq!(order.get(i), id);
    }
}

#[test]
fn test_settings_order_duplicate() {
    let order = SettingsOrder::builder()
        .push(SettingId::HeaderTableSize)
        .push(SettingId::HeaderTableSize)
        .build();

    assert_eq!(order.len(), default_ids().len());
    assert_eq!(order.get(0), SettingId::HeaderTableSize);
    assert_ne!(order.get(1), SettingId::HeaderTableSize);
}

#[test]
fn settings_order_unknown_id_kept_in_front() {
    let order = SettingsOrder::builder()
        .push(SettingId::Unknown(12))
        .push(SettingId::EnablePush)
        .build();
    assert_eq!(order.len(), 9);
    assert_eq!(order.get(0), SettingId::Unknown(12));
    assert_eq!(order.get(1), SettingId::EnablePush);
    assert_eq!(order.get(2), SettingId::HeaderTableSize);
}

#[test]
fn settings_order_unrepresentable_ids_dropped() {
    let order = SettingsOrder::builder()
        .push(SettingId::Unknown(0))
        .push(SettingId::Unknown(16))
        .build();
    assert_eq!(order.len(), default_ids().len());
    for (i, id) in default_ids().into_iter().enumerate() {
        assert_eq!(order.get(i), id);
    }
}

#[test]
fn settings_order_default_is_canonical() {
    let order = SettingsOrder::default();
    assert_eq!(order.len(), 8);
    for (i, id) in default_ids().into_iter().enumerate() {
        assert_eq!(order.get(i), id);
    }
}
