use sage_broker::{BrokerSettings, QoS, ReasonCode};

#[test]
fn valid_default_is_valid() {
    assert!(BrokerSettings::valid_default().is_valid());
}

#[test]
fn default_is_not_valid() {
    assert!(!BrokerSettings::default().is_valid());
}

#[test]
fn session_expiry_never_expires_is_valid() {
    let settings = BrokerSettings {
        session_expiry_interval: Some(0xFFFFFFFF),
        ..BrokerSettings::valid_default()
    };
    assert!(settings.is_valid());
}

#[test]
fn session_expiry_finite_is_invalid() {
    let settings = BrokerSettings {
        session_expiry_interval: Some(5),
        ..BrokerSettings::valid_default()
    };
    assert!(!settings.is_valid());
}

#[test]
fn maximum_qos_above_zero_is_invalid() {
    let settings = BrokerSettings {
        maximum_qos: QoS::AtLeastOnce,
        ..BrokerSettings::valid_default()
    };
    assert!(!settings.is_valid());
}

#[test]
fn receive_maximum_above_zero_is_invalid() {
    let settings = BrokerSettings {
        receive_maximum: 1,
        ..BrokerSettings::valid_default()
    };
    assert!(!settings.is_valid());
}

#[test]
fn retain_enabled_is_invalid() {
    let settings = BrokerSettings {
        retain_enabled: true,
        ..BrokerSettings::valid_default()
    };
    assert!(!settings.is_valid());
}

#[test]
fn maximum_packet_size_is_invalid() {
    let settings = BrokerSettings {
        maximum_packet_size: Some(1024),
        ..BrokerSettings::valid_default()
    };
    assert!(!settings.is_valid());
}

#[test]
fn topic_alias_maximum_above_zero_is_invalid() {
    let settings = BrokerSettings {
        topic_alias_maximum: 3,
        ..BrokerSettings::valid_default()
    };
    assert!(!settings.is_valid());
}

#[test]
fn check_qos_grants_level_zero() {
    let settings = BrokerSettings::valid_default();
    assert_eq!(settings.check_qos(QoS::AtMostOnce), ReasonCode::Success);
}

#[test]
fn check_qos_refuses_higher_levels() {
    let settings = BrokerSettings::valid_default();
    assert_eq!(settings.check_qos(QoS::AtLeastOnce), ReasonCode::QoSNotSupported);
    assert_eq!(settings.check_qos(QoS::ExactlyOnce), ReasonCode::QoSNotSupported);
}

#[test]
fn check_qos_on_permissive_settings() {
    let settings = BrokerSettings::default();
    assert_eq!(settings.check_qos(QoS::ExactlyOnce), ReasonCode::Success);
}
