use sage_broker::control::connect::acknowledge_connect;
use sage_broker::{Authentication, BrokerSettings, Connect, QoS, ReasonCode};

fn generated() -> String {
    String::from("sage_mqtt-0123456789012345678901")
}

#[test]
fn accepts_a_plain_connect() {
    let settings = BrokerSettings::valid_default();
    let ack = acknowledge_connect(&settings, &Connect::default(), generated());
    assert_eq!(ack.reason_code, ReasonCode::Success);
    assert!(!ack.session_present);
    assert_eq!(ack.reason_string, None);
}

#[test]
fn assigns_an_id_when_the_client_has_none() {
    let settings = BrokerSettings::valid_default();
    let ack = acknowledge_connect(&settings, &Connect::default(), generated());
    assert_eq!(ack.assigned_client_id, Some(generated()));
}

#[test]
fn keeps_the_client_chosen_id() {
    let settings = BrokerSettings::valid_default();
    let connect = Connect {
        client_id: Some(String::from("Jaden")),
        ..Default::default()
    };
    let ack = acknowledge_connect(&settings, &connect, generated());
    assert_eq!(ack.assigned_client_id, None);
}

#[test]
fn refuses_a_user_name() {
    let settings = BrokerSettings::valid_default();
    let connect = Connect {
        user_name: Some(String::from("admin")),
        ..Default::default()
    };
    let ack = acknowledge_connect(&settings, &connect, generated());
    assert_eq!(ack.reason_code, ReasonCode::BadAuthenticationMethod);
    assert!(ack.reason_string.is_some());
}

#[test]
fn refuses_enhanced_authentication() {
    let settings = BrokerSettings::valid_default();
    let connect = Connect {
        authentication: Some(Authentication {
            method: String::from("SCRAM"),
            data: vec![1, 2, 3],
        }),
        ..Default::default()
    };
    let ack = acknowledge_connect(&settings, &connect, generated());
    assert_eq!(ack.reason_code, ReasonCode::BadAuthenticationMethod);
}

#[test]
fn receive_maximum_is_the_smaller_value() {
    let settings = BrokerSettings::valid_default();
    let connect = Connect {
        receive_maximum: 17,
        ..Default::default()
    };
    let ack = acknowledge_connect(&settings, &connect, generated());
    assert_eq!(ack.receive_maximum, 0);
    let permissive = BrokerSettings::default();
    let ack = acknowledge_connect(&permissive, &connect, generated());
    assert_eq!(ack.receive_maximum, 17);
}

#[test]
fn session_expiry_prefers_the_client_value() {
    let settings = BrokerSettings::valid_default();
    let connect = Connect {
        session_expiry_interval: Some(0xFFFFFFFF),
        ..Default::default()
    };
    let ack = acknowledge_connect(&settings, &connect, generated());
    assert_eq!(ack.session_expiry_interval, Some(0xFFFFFFFF));
}

#[test]
fn session_expiry_can_be_forced_by_the_server() {
    let settings = BrokerSettings {
        force_session_expiry_interval: true,
        ..BrokerSettings::valid_default()
    };
    let connect = Connect {
        session_expiry_interval: Some(0xFFFFFFFF),
        ..Default::default()
    };
    let ack = acknowledge_connect(&settings, &connect, generated());
    assert_eq!(ack.session_expiry_interval, None);
}

#[test]
fn maximum_packet_size_is_the_smaller_of_both() {
    let base = BrokerSettings::valid_default();
    let client = Connect {
        maximum_packet_size: Some(512),
        ..Default::default()
    };
    let no_client = Connect::default();

    let ack = acknowledge_connect(&base, &client, generated());
    assert_eq!(ack.maximum_packet_size, Some(512));

    let server = BrokerSettings {
        maximum_packet_size: Some(256),
        ..BrokerSettings::valid_default()
    };
    let ack = acknowledge_connect(&server, &client, generated());
    assert_eq!(ack.maximum_packet_size, Some(256));

    let ack = acknowledge_connect(&server, &no_client, generated());
    assert_eq!(ack.maximum_packet_size, Some(256));

    let ack = acknowledge_connect(&base, &no_client, generated());
    assert_eq!(ack.maximum_packet_size, None);
}

#[test]
fn keep_alive_is_set_only_when_forced() {
    let settings = BrokerSettings::valid_default();
    let ack = acknowledge_connect(&settings, &Connect::default(), generated());
    assert_eq!(ack.keep_alive, None);

    let forced = BrokerSettings {
        force_keep_alive: true,
        keep_alive: 30,
        ..BrokerSettings::valid_default()
    };
    let ack = acknowledge_connect(&forced, &Connect::default(), generated());
    assert_eq!(ack.keep_alive, Some(30));
}

#[test]
fn capability_flags_are_all_off() {
    let settings = BrokerSettings::valid_default();
    let ack = acknowledge_connect(&settings, &Connect::default(), generated());
    assert!(!ack.wildcard_subscription_available);
    assert!(!ack.subscription_identifiers_available);
    assert!(!ack.shared_subscription_available);
    assert_eq!(ack.maximum_qos, QoS::AtMostOnce);
    assert!(!ack.retain_available);
    assert_eq!(ack.topic_alias_maximum, 0);
    assert!(ack.user_properties.is_empty());
    assert_eq!(ack.response_information, None);
    assert_eq!(ack.reference, None);
}
