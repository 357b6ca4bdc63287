use sage_broker::control::{run, Action};
use sage_broker::{
    BrokerSettings, Connect, Packet, Peer, Publish, QoS, ReasonCode, Sessions, Subscribe,
    SubscriptionOptions,
};

fn connect_with_id(id: &str) -> Packet {
    Packet::Connect(Connect {
        client_id: Some(String::from(id)),
        ..Default::default()
    })
}

fn dispatch(
    settings: &BrokerSettings,
    sessions: &mut Sessions,
    packet: Packet,
    peer: &mut Peer,
    session_id: &str,
) -> Vec<Action> {
    run(
        settings,
        sessions,
        packet,
        peer,
        false,
        String::from("sage_mqtt-generated0000000000"),
        String::from(session_id),
    )
}

#[test]
fn connect_success_registers_exactly_one_session() {
    let settings = BrokerSettings::valid_default();
    let mut sessions = Sessions::new();
    let mut peer = Peer::new(1);
    let actions = dispatch(
        &settings,
        &mut sessions,
        connect_with_id("Suzuki"),
        &mut peer,
        "session_a",
    );
    assert_eq!(actions.len(), 1);
    match &actions[0] {
        Action::Respond(Packet::ConnAck(ack)) => {
            assert_eq!(ack.reason_code, ReasonCode::Success);
            assert!(!ack.session_present);
        }
        other => panic!("unexpected action: {:?}", other),
    }
    assert_eq!(sessions.len(), 1);
    let s = sessions.get(&String::from("Suzuki")).unwrap();
    assert_eq!(s.id(), "session_a");
    assert_eq!(s.peer(), Some(1));
    assert_eq!(peer.session(), Some(&String::from("session_a")));
    assert!(!peer.closing());
}

#[test]
fn takeover_disconnects_the_prior_peer() {
    let settings = BrokerSettings::valid_default();
    let mut sessions = Sessions::new();

    let mut first = Peer::new(1);
    dispatch(
        &settings,
        &mut sessions,
        connect_with_id("Suzuki"),
        &mut first,
        "session_a",
    );

    let mut second = Peer::new(2);
    let actions = dispatch(
        &settings,
        &mut sessions,
        connect_with_id("Suzuki"),
        &mut second,
        "session_b",
    );

    assert_eq!(actions.len(), 2);
    match &actions[0] {
        Action::SendClose(peer_id, Packet::Disconnect(d)) => {
            assert_eq!(*peer_id, 1);
            assert_eq!(d.reason_code, ReasonCode::SessionTakenOver);
        }
        other => panic!("unexpected first action: {:?}", other),
    }
    match &actions[1] {
        Action::Respond(Packet::ConnAck(ack)) => {
            assert_eq!(ack.reason_code, ReasonCode::Success);
        }
        other => panic!("unexpected second action: {:?}", other),
    }
    assert_eq!(sessions.len(), 1);
    assert_eq!(sessions.get(&String::from("Suzuki")).unwrap().peer(), Some(2));
}

#[test]
fn clean_start_true_renews_the_session_id() {
    let settings = BrokerSettings::valid_default();
    let mut sessions = Sessions::new();

    let mut first = Peer::new(1);
    dispatch(
        &settings,
        &mut sessions,
        connect_with_id("Jaden"),
        &mut first,
        "session_a",
    );
    let first_id = String::from(sessions.get(&String::from("Jaden")).unwrap().id());

    let mut second = Peer::new(2);
    let reconnect = Packet::Connect(Connect {
        client_id: Some(String::from("Jaden")),
        clean_start: true,
        ..Default::default()
    });
    dispatch(&settings, &mut sessions, reconnect, &mut second, "session_b");
    let second_id = String::from(sessions.get(&String::from("Jaden")).unwrap().id());

    assert_eq!(first_id, "session_a");
    assert_eq!(second_id, "session_b");
    assert_ne!(first_id, second_id);
}

#[test]
fn clean_start_false_preserves_the_session_id() {
    let settings = BrokerSettings::valid_default();
    let mut sessions = Sessions::new();

    let mut first = Peer::new(1);
    dispatch(
        &settings,
        &mut sessions,
        connect_with_id("Jaden"),
        &mut first,
        "session_a",
    );

    let mut second = Peer::new(2);
    let actions = dispatch(
        &settings,
        &mut sessions,
        connect_with_id("Jaden"),
        &mut second,
        "session_b",
    );
    assert_eq!(sessions.get(&String::from("Jaden")).unwrap().id(), "session_a");
    match actions.last().unwrap() {
        Action::Respond(Packet::ConnAck(ack)) => assert!(ack.session_present),
        other => panic!("unexpected action: {:?}", other),
    }
}

#[test]
fn clean_start_true_discards_subscriptions() {
    let settings = BrokerSettings::valid_default();
    let mut sessions = Sessions::new();
    let mut peer = Peer::new(1);
    dispatch(
        &settings,
        &mut sessions,
        connect_with_id("Jaden"),
        &mut peer,
        "session_a",
    );
    let subscribe = Packet::Subscribe(Subscribe {
        packet_identifier: 7,
        subscriptions: vec![(String::from("hello/world"), SubscriptionOptions::default())],
        ..Default::default()
    });
    dispatch(&settings, &mut sessions, subscribe, &mut peer, "unused");
    assert_eq!(
        sessions.get(&String::from("Jaden")).unwrap().subs().len(),
        1
    );

    let mut second = Peer::new(2);
    let reconnect = Packet::Connect(Connect {
        client_id: Some(String::from("Jaden")),
        clean_start: true,
        ..Default::default()
    });
    dispatch(&settings, &mut sessions, reconnect, &mut second, "session_b");
    assert_eq!(
        sessions.get(&String::from("Jaden")).unwrap().subs().len(),
        0
    );
}

#[test]
fn connect_without_client_id_uses_the_assigned_one() {
    let settings = BrokerSettings::valid_default();
    let mut sessions = Sessions::new();
    let mut peer = Peer::new(1);
    let actions = dispatch(
        &settings,
        &mut sessions,
        Packet::Connect(Connect::default()),
        &mut peer,
        "session_a",
    );
    match &actions[0] {
        Action::Respond(Packet::ConnAck(ack)) => {
            assert_eq!(
                ack.assigned_client_id,
                Some(String::from("sage_mqtt-generated0000000000"))
            );
        }
        other => panic!("unexpected action: {:?}", other),
    }
    assert!(sessions
        .get(&String::from("sage_mqtt-generated0000000000"))
        .is_some());
}

#[test]
fn rejected_connect_closes_the_peer() {
    let settings = BrokerSettings::valid_default();
    let mut sessions = Sessions::new();
    let mut peer = Peer::new(1);
    let packet = Packet::Connect(Connect {
        user_name: Some(String::from("admin")),
        ..Default::default()
    });
    let actions = dispatch(&settings, &mut sessions, packet, &mut peer, "session_a");
    assert_eq!(actions.len(), 1);
    match &actions[0] {
        Action::RespondClose(Packet::ConnAck(ack)) => {
            assert_eq!(ack.reason_code, ReasonCode::BadAuthenticationMethod);
        }
        other => panic!("unexpected action: {:?}", other),
    }
    assert!(sessions.is_empty());
    assert!(peer.closing());
}

#[test]
fn subscribe_is_acknowledged_and_stored() {
    let settings = BrokerSettings::valid_default();
    let mut sessions = Sessions::new();
    let mut peer = Peer::new(1);
    dispatch(
        &settings,
        &mut sessions,
        connect_with_id("Suzuki"),
        &mut peer,
        "session_a",
    );
    let subscribe = Packet::Subscribe(Subscribe {
        packet_identifier: 42,
        subscriptions: vec![(String::from("hello/world"), SubscriptionOptions::default())],
        ..Default::default()
    });
    let actions = dispatch(&settings, &mut sessions, subscribe, &mut peer, "unused");
    assert_eq!(actions.len(), 1);
    match &actions[0] {
        Action::Respond(Packet::SubAck(ack)) => {
            assert_eq!(ack.packet_identifier, 42);
            assert_eq!(ack.reason_codes, vec![ReasonCode::Success]);
        }
        other => panic!("unexpected action: {:?}", other),
    }
    let session = sessions.get(&String::from("Suzuki")).unwrap();
    assert!(session.subs().has_filter(&String::from("hello/world")));
}

#[test]
fn subscribe_without_a_session_is_refused() {
    let settings = BrokerSettings::valid_default();
    let mut sessions = Sessions::new();
    let mut peer = Peer::new(1);
    let subscribe = Packet::Subscribe(Subscribe {
        packet_identifier: 3,
        subscriptions: vec![
            (String::from("a"), SubscriptionOptions::default()),
            (String::from("b"), SubscriptionOptions::default()),
        ],
        ..Default::default()
    });
    let actions = dispatch(&settings, &mut sessions, subscribe, &mut peer, "unused");
    match &actions[0] {
        Action::RespondClose(Packet::SubAck(ack)) => {
            assert_eq!(ack.packet_identifier, 3);
            assert_eq!(
                ack.reason_codes,
                vec![ReasonCode::UnspecifiedError, ReasonCode::UnspecifiedError]
            );
        }
        other => panic!("unexpected action: {:?}", other),
    }
    assert!(peer.closing());
}

#[test]
fn subscription_identifiers_are_refused() {
    let settings = BrokerSettings::valid_default();
    let mut sessions = Sessions::new();
    let mut peer = Peer::new(1);
    dispatch(
        &settings,
        &mut sessions,
        connect_with_id("Suzuki"),
        &mut peer,
        "session_a",
    );
    let subscribe = Packet::Subscribe(Subscribe {
        packet_identifier: 8,
        subscription_identifier: Some(451),
        subscriptions: vec![(String::from("hello/world"), SubscriptionOptions::default())],
        ..Default::default()
    });
    let actions = dispatch(&settings, &mut sessions, subscribe, &mut peer, "unused");
    match &actions[0] {
        Action::RespondClose(Packet::SubAck(ack)) => {
            assert_eq!(
                ack.reason_codes,
                vec![ReasonCode::SubscriptionIdentifiersNotSupported]
            );
        }
        other => panic!("unexpected action: {:?}", other),
    }
    assert!(peer.closing());
    assert!(!sessions
        .get(&String::from("Suzuki"))
        .unwrap()
        .subs()
        .has_filter(&String::from("hello/world")));
}

#[test]
fn unsupported_filters_get_their_reason_codes() {
    let settings = BrokerSettings::valid_default();
    let mut sessions = Sessions::new();
    let mut peer = Peer::new(1);
    dispatch(
        &settings,
        &mut sessions,
        connect_with_id("Suzuki"),
        &mut peer,
        "session_a",
    );
    let high_qos = SubscriptionOptions {
        qos: QoS::ExactlyOnce,
        ..SubscriptionOptions::default()
    };
    let subscribe = Packet::Subscribe(Subscribe {
        packet_identifier: 5,
        subscriptions: vec![
            (String::from("hello/+"), SubscriptionOptions::default()),
            (String::from("$share/g/topic"), SubscriptionOptions::default()),
            (String::from("plain"), high_qos),
            (String::from("hello/world"), SubscriptionOptions::default()),
        ],
        ..Default::default()
    });
    let actions = dispatch(&settings, &mut sessions, subscribe, &mut peer, "unused");
    match &actions[0] {
        Action::Respond(Packet::SubAck(ack)) => {
            assert_eq!(
                ack.reason_codes,
                vec![
                    ReasonCode::WildcardSubscriptionsNotSupported,
                    ReasonCode::SharedSubscriptionsNotSupported,
                    ReasonCode::QoSNotSupported,
                    ReasonCode::Success,
                ]
            );
        }
        other => panic!("unexpected action: {:?}", other),
    }
    let session = sessions.get(&String::from("Suzuki")).unwrap();
    assert!(session.subs().has_filter(&String::from("hello/world")));
    assert!(!session.subs().has_filter(&String::from("hello/+")));
    assert!(!session.subs().has_filter(&String::from("$share/g/topic")));
    assert!(!session.subs().has_filter(&String::from("plain")));
}

#[test]
fn pingreq_is_answered_with_pingresp() {
    let settings = BrokerSettings::valid_default();
    let mut sessions = Sessions::new();
    let mut peer = Peer::new(1);
    let actions = dispatch(&settings, &mut sessions, Packet::PingReq, &mut peer, "unused");
    assert_eq!(actions, vec![Action::Respond(Packet::PingResp)]);
    assert!(!peer.closing());
}

#[test]
fn publish_reaches_the_subscribed_peer() {
    let settings = BrokerSettings::valid_default();
    let mut sessions = Sessions::new();

    let mut subscriber = Peer::new(1);
    dispatch(
        &settings,
        &mut sessions,
        connect_with_id("Suzuki"),
        &mut subscriber,
        "session_a",
    );
    let subscribe = Packet::Subscribe(Subscribe {
        packet_identifier: 42,
        subscriptions: vec![(String::from("hello/world"), SubscriptionOptions::default())],
        ..Default::default()
    });
    dispatch(&settings, &mut sessions, subscribe, &mut subscriber, "unused");

    let mut bystander = Peer::new(2);
    dispatch(
        &settings,
        &mut sessions,
        connect_with_id("Jaden"),
        &mut bystander,
        "session_b",
    );

    let mut publisher = Peer::new(3);
    let publish = Packet::Publish(Publish {
        topic_name: String::from("hello/world"),
        message: vec![104, 105],
        ..Default::default()
    });
    let actions = dispatch(&settings, &mut sessions, publish, &mut publisher, "unused");
    assert_eq!(actions.len(), 1);
    match &actions[0] {
        Action::Send(peer_id, Packet::Publish(p)) => {
            assert_eq!(*peer_id, 1);
            assert_eq!(p.topic_name, String::from("hello/world"));
            assert_eq!(p.message, vec![104, 105]);
        }
        other => panic!("unexpected action: {:?}", other),
    }
}

#[test]
fn publish_on_an_unmatched_topic_emits_nothing() {
    let settings = BrokerSettings::valid_default();
    let mut sessions = Sessions::new();
    let mut peer = Peer::new(1);
    dispatch(
        &settings,
        &mut sessions,
        connect_with_id("Suzuki"),
        &mut peer,
        "session_a",
    );
    let publish = Packet::Publish(Publish {
        topic_name: String::from("hello/world"),
        ..Default::default()
    });
    let actions = dispatch(&settings, &mut sessions, publish, &mut peer, "unused");
    assert!(actions.is_empty());
}

#[test]
fn shutdown_answers_every_command_with_one_disconnect() {
    let settings = BrokerSettings::valid_default();
    let mut sessions = Sessions::new();
    let mut peer = Peer::new(1);
    let actions = run(
        &settings,
        &mut sessions,
        Packet::PingReq,
        &mut peer,
        true,
        String::from("unused-assigned"),
        String::from("unused-session"),
    );
    assert_eq!(actions.len(), 1);
    match &actions[0] {
        Action::RespondClose(Packet::Disconnect(d)) => {
            assert_eq!(d.reason_code, ReasonCode::ServerShuttingDown);
        }
        other => panic!("unexpected action: {:?}", other),
    }
    assert!(peer.closing());
    assert!(sessions.is_empty());
}

#[test]
fn unsupported_packets_are_refused() {
    let settings = BrokerSettings::valid_default();
    let mut sessions = Sessions::new();
    let mut peer = Peer::new(1);
    let actions = dispatch(
        &settings,
        &mut sessions,
        Packet::Unsupported,
        &mut peer,
        "unused",
    );
    assert_eq!(actions.len(), 1);
    match &actions[0] {
        Action::RespondClose(Packet::ConnAck(ack)) => {
            assert_eq!(ack.reason_code, ReasonCode::ImplementationSpecificError);
        }
        other => panic!("unexpected action: {:?}", other),
    }
    assert!(peer.closing());
}
