use vstd::prelude::*;

verus! {

/// Quality of service of a message delivery.
#[derive(Debug, Clone, Copy, PartialEq, Eq, Structural)]
pub enum QoS {
    /// The message arrives at the receiver either once or not at all.
    AtMostOnce,
    /// The message arrives at the receiver at least once.
    AtLeastOnce,
    /// The message arrives at the receiver exactly once.
    ExactlyOnce,
}

impl QoS {
    /// Numeric level of the quality of service, as carried on the wire.
    pub open spec fn level(self) -> int {
        match self {
            QoS::AtMostOnce => 0,
            QoS::AtLeastOnce => 1,
            QoS::ExactlyOnce => 2,
        }
    }
}

/// How retained messages are handled upon subscription.
#[derive(Debug, Clone, Copy, PartialEq, Eq, Structural)]
pub enum RetainHandling {
    /// Send retained messages at the time of the subscribe.
    OnSubscribe,
    /// Send retained messages at the time of the first subscribe.
    OnFirstSubscribe,
    /// Don't send retained messages.
    DontSend,
}

/// MQTT v5 reason codes used by this broker.
#[derive(Debug, Clone, Copy, PartialEq, Eq, Structural)]
pub enum ReasonCode {
    /// The operation succeeded; in a SUBACK also "granted QoS 0".
    Success,
    /// The subscription is accepted with a maximum QoS of 1.
    GrantedQoS1,
    /// The subscription is accepted with any QoS.
    GrantedQoS2,
    /// The server does not wish to reveal the failure reason.
    UnspecifiedError,
    /// The control packet cannot be parsed or is ill-formed.
    MalformedPacket,
    /// The control packet is well formed but violates the protocol.
    ProtocolError,
    /// The operation is valid but not accepted by the server.
    ImplementationSpecificError,
    /// The authentication method is not supported by the server.
    BadAuthenticationMethod,
    /// The server is currently shutting down.
    ServerShuttingDown,
    /// No packet was received for 1.5 times the keep alive period.
    KeepAliveTimeout,
    /// Another connection with the same client id has taken over.
    SessionTakenOver,
    /// The requested QoS exceeds what the server supports.
    QoSNotSupported,
    /// The server does not support shared subscriptions.
    SharedSubscriptionsNotSupported,
    /// The server does not support wildcard subscriptions.
    WildcardSubscriptionsNotSupported,
    /// The server does not support subscription identifiers.
    SubscriptionIdentifiersNotSupported,
}

/// Enhanced authentication data carried by a CONNECT packet.
#[derive(Debug, Clone, PartialEq)]
pub struct Authentication {
    /// Name of the authentication method.
    pub method: String,
    /// Authentication payload.
    pub data: Vec<u8>,
}

/// CONNECT packet: a connection request from a client.
#[derive(Debug, Clone, PartialEq)]
pub struct Connect {
    /// Whether the client asks for a fresh session.
    pub clean_start: bool,
    /// User name, if the client authenticates with one.
    pub user_name: Option<String>,
    /// Password, if any.
    pub password: Option<Vec<u8>>,
    /// Keep alive period in seconds requested by the client.
    pub keep_alive: u16,
    /// Session expiry interval requested by the client.
    pub session_expiry_interval: Option<u32>,
    /// Maximum number of in-flight QoS 1/2 packets the client accepts.
    pub receive_maximum: u16,
    /// Maximum packet size the client accepts.
    pub maximum_packet_size: Option<u32>,
    /// Highest topic alias the client accepts.
    pub topic_alias_maximum: u16,
    /// Whether the client asks for response information.
    pub request_response_information: bool,
    /// Whether the client asks for problem information.
    pub request_problem_information: bool,
    /// Free-form user properties.
    pub user_properties: Vec<(String, String)>,
    /// Enhanced authentication data, if any.
    pub authentication: Option<Authentication>,
    /// Client identifier; when absent the server assigns one.
    pub client_id: Option<String>,
}

/// CONNACK packet: the server's answer to a CONNECT.
#[derive(Debug, Clone, PartialEq)]
pub struct ConnAck {
    /// Whether an existing session is resumed.
    pub session_present: bool,
    /// Outcome of the connection request.
    pub reason_code: ReasonCode,
    /// Granted session expiry interval.
    pub session_expiry_interval: Option<u32>,
    /// Granted receive maximum.
    pub receive_maximum: u16,
    /// Maximum QoS the server operates on.
    pub maximum_qos: QoS,
    /// Whether the server supports retained messages.
    pub retain_available: bool,
    /// Granted maximum packet size.
    pub maximum_packet_size: Option<u32>,
    /// Client identifier assigned by the server, when the client gave none.
    pub assigned_client_id: Option<String>,
    /// Granted topic alias maximum.
    pub topic_alias_maximum: u16,
    /// Human readable reason.
    pub reason_string: Option<String>,
    /// Free-form user properties.
    pub user_properties: Vec<(String, String)>,
    /// Whether the server supports wildcard subscriptions.
    pub wildcard_subscription_available: bool,
    /// Whether the server supports subscription identifiers.
    pub subscription_identifiers_available: bool,
    /// Whether the server supports shared subscriptions.
    pub shared_subscription_available: bool,
    /// Keep alive imposed by the server, if it forces one.
    pub keep_alive: Option<u16>,
    /// Response information, unused by this broker.
    pub response_information: Option<String>,
    /// Server reference, unused by this broker.
    pub reference: Option<String>,
    /// Enhanced authentication data, unused by this broker.
    pub authentication: Option<Authentication>,
}

/// Options attached to one subscription.
#[derive(Debug, Clone, Copy, PartialEq, Eq, Structural)]
pub struct SubscriptionOptions {
    /// Maximum QoS the client expects on this subscription.
    pub qos: QoS,
    /// Whether messages published by this client are withheld from it.
    pub no_local: bool,
    /// Whether forwarded messages keep their retain flag.
    pub retain_as_published: bool,
    /// How retained messages are handled upon subscription.
    pub retain_handling: RetainHandling,
}

/// SUBSCRIBE packet: a client subscribes to a list of topic filters.
#[derive(Debug, Clone, PartialEq)]
pub struct Subscribe {
    /// Identifier echoed in the SUBACK.
    pub packet_identifier: u16,
    /// Subscription identifier, not supported by this broker.
    pub subscription_identifier: Option<u32>,
    /// Free-form user properties.
    pub user_properties: Vec<(String, String)>,
    /// Topic filters with their options.
    pub subscriptions: Vec<(String, SubscriptionOptions)>,
}

/// SUBACK packet: the server's answer to a SUBSCRIBE.
#[derive(Debug, Clone, PartialEq)]
pub struct SubAck {
    /// Identifier of the SUBSCRIBE being acknowledged.
    pub packet_identifier: u16,
    /// Free-form user properties.
    pub user_properties: Vec<(String, String)>,
    /// One reason code per requested subscription, in order.
    pub reason_codes: Vec<ReasonCode>,
}

/// PUBLISH packet: a message delivery to or from the server.
#[derive(Debug, Clone, PartialEq)]
pub struct Publish {
    /// Whether this delivery is a retry.
    pub duplicate: bool,
    /// Quality of service of this delivery.
    pub qos: QoS,
    /// Whether the message is retained.
    pub retain: bool,
    /// Name of the topic published to.
    pub topic_name: String,
    /// Identifier of the delivery, for QoS 1 and 2.
    pub packet_identifier: Option<u16>,
    /// Whether the payload is UTF-8 text.
    pub payload_format_indicator: bool,
    /// Lifetime of the message in seconds.
    pub message_expiry_interval: Option<u32>,
    /// Topic alias, unused by this broker.
    pub topic_alias: Option<u16>,
    /// Topic name for the response message.
    pub response_topic: Option<String>,
    /// Correlation data of the request/response exchange.
    pub correlation_data: Option<Vec<u8>>,
    /// Free-form user properties.
    pub user_properties: Vec<(String, String)>,
    /// Identifiers of the subscriptions the message matches.
    pub subscription_identifiers: Vec<u32>,
    /// Description of the message content.
    pub content_type: String,
    /// The message payload.
    pub message: Vec<u8>,
}

/// DISCONNECT packet: either side ends the connection with a reason.
#[derive(Debug, Clone, PartialEq)]
pub struct Disconnect {
    /// Why the connection ends.
    pub reason_code: ReasonCode,
    /// Session expiry interval override.
    pub session_expiry_interval: Option<u32>,
    /// Human readable reason.
    pub reason_string: Option<String>,
    /// Free-form user properties.
    pub user_properties: Vec<(String, String)>,
    /// Server reference, unused by this broker.
    pub reference: Option<String>,
}

/// An MQTT v5 control packet, restricted to the kinds this broker handles.
/// Every other kind decodes to [`Packet::Unsupported`].
#[derive(Debug, Clone, PartialEq)]
pub enum Packet {
    /// CONNECT, a connection request.
    Connect(Connect),
    /// CONNACK, the answer to a connection request.
    ConnAck(ConnAck),
    /// SUBSCRIBE, a subscription request.
    Subscribe(Subscribe),
    /// SUBACK, the answer to a subscription request.
    SubAck(SubAck),
    /// PINGREQ, a keep-alive probe.
    PingReq,
    /// PINGRESP, the answer to a keep-alive probe.
    PingResp,
    /// PUBLISH, a message delivery.
    Publish(Publish),
    /// DISCONNECT, the end of a connection.
    Disconnect(Disconnect),
    /// Any other MQTT v5 packet; this broker rejects them all.
    Unsupported,
}

impl Default for Disconnect {
    /// A normal disconnection carrying no properties.
    fn default() -> (r: Disconnect)
        ensures
            r.reason_code == ReasonCode::Success,
            r.session_expiry_interval is None,
            r.reason_string is None,
            r.user_properties@ =~= Seq::<(String, String)>::empty(),
            r.reference is None,
    {
        Disconnect {
            reason_code: ReasonCode::Success,
            session_expiry_interval: None,
            reason_string: None,
            user_properties: Vec::new(),
            reference: None,
        }
    }
}

impl Default for ConnAck {
    /// A successful acknowledgement carrying the protocol default limits.
    fn default() -> (r: ConnAck)
        ensures
            r.session_present == false,
            r.reason_code == ReasonCode::Success,
            r.session_expiry_interval is None,
            r.receive_maximum == 65535,
            r.maximum_qos == QoS::ExactlyOnce,
            r.retain_available == true,
            r.maximum_packet_size is None,
            r.assigned_client_id is None,
            r.topic_alias_maximum == 0,
            r.reason_string is None,
            r.user_properties@ =~= Seq::<(String, String)>::empty(),
            r.wildcard_subscription_available == true,
            r.subscription_identifiers_available == true,
            r.shared_subscription_available == true,
            r.keep_alive is None,
            r.response_information is None,
            r.reference is None,
            r.authentication is None,
    {
        ConnAck {
            session_present: false,
            reason_code: ReasonCode::Success,
            session_expiry_interval: None,
            receive_maximum: 65535,
            maximum_qos: QoS::ExactlyOnce,
            retain_available: true,
            maximum_packet_size: None,
            assigned_client_id: None,
            topic_alias_maximum: 0,
            reason_string: None,
            user_properties: Vec::new(),
            wildcard_subscription_available: true,
            subscription_identifiers_available: true,
            shared_subscription_available: true,
            keep_alive: None,
            response_information: None,
            reference: None,
            authentication: None,
        }
    }
}

impl Default for SubAck {
    /// An empty acknowledgement with packet identifier zero.
    fn default() -> (r: SubAck)
        ensures
            r.packet_identifier == 0,
            r.user_properties@ =~= Seq::<(String, String)>::empty(),
            r.reason_codes@ =~= Seq::<ReasonCode>::empty(),
    {
        SubAck { packet_identifier: 0, user_properties: Vec::new(), reason_codes: Vec::new() }
    }
}

impl Default for SubscriptionOptions {
    /// QoS 0, no flags set, retained messages sent on subscribe.
    fn default() -> (r: SubscriptionOptions)
        ensures
            r == (SubscriptionOptions {
                qos: QoS::AtMostOnce,
                no_local: false,
                retain_as_published: false,
                retain_handling: RetainHandling::OnSubscribe,
            }),
    {
        SubscriptionOptions {
            qos: QoS::AtMostOnce,
            no_local: false,
            retain_as_published: false,
            retain_handling: RetainHandling::OnSubscribe,
        }
    }
}

impl Default for Subscribe {
    /// A subscription request with no filters.
    fn default() -> (r: Subscribe)
        ensures
            r.packet_identifier == 0,
            r.subscription_identifier is None,
            r.user_properties@ =~= Seq::<(String, String)>::empty(),
            r.subscriptions@ =~= Seq::<(String, SubscriptionOptions)>::empty(),
    {
        Subscribe {
            packet_identifier: 0,
            subscription_identifier: None,
            user_properties: Vec::new(),
            subscriptions: Vec::new(),
        }
    }
}

impl Default for Connect {
    /// The default connection request: no client id, no authentication,
    /// a 600 second keep alive, and the protocol default limits.
    fn default() -> (r: Connect)
        ensures
            r.clean_start == false,
            r.user_name is None,
            r.password is None,
            r.keep_alive == 600,
            r.session_expiry_interval is None,
            r.receive_maximum == 65535,
            r.maximum_packet_size is None,
            r.topic_alias_maximum == 0,
            r.request_response_information == false,
            r.request_problem_information == true,
            r.user_properties@ =~= Seq::<(String, String)>::empty(),
            r.authentication is None,
            r.client_id is None,
    {
        Connect {
            clean_start: false,
            user_name: None,
            password: None,
            keep_alive: 600,
            session_expiry_interval: None,
            receive_maximum: 65535,
            maximum_packet_size: None,
            topic_alias_maximum: 0,
            request_response_information: false,
            request_problem_information: true,
            user_properties: Vec::new(),
            authentication: None,
            client_id: None,
        }
    }
}

impl Default for Publish {
    /// An empty QoS 0 message on the empty topic name.
    fn default() -> (r: Publish)
        ensures
            r.duplicate == false,
            r.qos == QoS::AtMostOnce,
            r.retain == false,
            r.topic_name@ =~= Seq::<char>::empty(),
            r.packet_identifier is None,
            r.payload_format_indicator == false,
            r.message_expiry_interval is None,
            r.topic_alias is None,
            r.response_topic is None,
            r.correlation_data is None,
            r.user_properties@ =~= Seq::<(String, String)>::empty(),
            r.subscription_identifiers@ =~= Seq::<u32>::empty(),
            r.content_type@ =~= Seq::<char>::empty(),
            r.message@ =~= Seq::<u8>::empty(),
    {
        Publish {
            duplicate: false,
            qos: QoS::AtMostOnce,
            retain: false,
            topic_name: String::new(),
            packet_identifier: None,
            payload_format_indicator: false,
            message_expiry_interval: None,
            topic_alias: None,
            response_topic: None,
            correlation_data: None,
            user_properties: Vec::new(),
            subscription_identifiers: Vec::new(),
            content_type: String::new(),
            message: Vec::new(),
        }
    }
}

} // verus!
