use crate::packet::{QoS, ReasonCode};
use vstd::prelude::*;

verus! {

/// Configuration of a broker, immutable once the broker runs.
#[derive(Debug, Clone, PartialEq)]
pub struct BrokerSettings {
    /// Session expiry interval in seconds granted to clients. Only `None`
    /// (session ends with the connection) and `Some(0xFFFFFFFF)` (never
    /// expires) are supported.
    pub session_expiry_interval: Option<u32>,
    /// If `true` the server overrides the session expiry interval requested
    /// by the client with its own.
    pub force_session_expiry_interval: bool,
    /// Maximum number of concurrent QoS 1 and 2 deliveries. Only `0` is
    /// supported.
    pub receive_maximum: u16,
    /// The maximum quality of service the server is willing to operate on.
    /// Only [`QoS::AtMostOnce`] is supported.
    pub maximum_qos: QoS,
    /// Whether retained messages are allowed. Only `false` is supported.
    pub retain_enabled: bool,
    /// Maximum packet size accepted from clients. Only `None` is supported.
    pub maximum_packet_size: Option<u32>,
    /// Highest topic alias accepted. Only `0` is supported.
    pub topic_alias_maximum: u16,
    /// Keep alive period in seconds; `0` disables the keep alive timeout.
    pub keep_alive: u16,
    /// If `true` connections use the server's keep alive value; otherwise
    /// the value requested by the client stands.
    pub force_keep_alive: bool,
}

impl BrokerSettings {
    /// Whether these settings satisfy every limitation of the broker:
    /// sessions do not expire, only QoS 0 is supported, no QoS 1/2 windows,
    /// no retained messages, no packet size limit and no topic aliases.
    pub open spec fn spec_valid(self) -> bool {
        &&& (self.session_expiry_interval is None || self.session_expiry_interval
            == Some(0xFFFFFFFFu32))
        &&& self.maximum_qos == QoS::AtMostOnce
        &&& self.receive_maximum == 0
        &&& !self.retain_enabled
        &&& self.maximum_packet_size is None
        &&& self.topic_alias_maximum == 0
    }

    /// Returns a new instance of the default settings restricted to the
    /// options the broker supports.
    pub fn valid_default() -> (r: BrokerSettings)
        ensures
            r == (BrokerSettings { maximum_qos: QoS::AtMostOnce, receive_maximum: 0u16, retain_enabled: false, ..BrokerSettings::spec_default() }),
            r.spec_valid(),
    {
        BrokerSettings {
            maximum_qos: QoS::AtMostOnce,
            receive_maximum: 0,
            retain_enabled: false,
            ..Default::default()
        }
    }

    /// The default settings as a spec value.
    pub open spec fn spec_default() -> BrokerSettings {
        BrokerSettings {
            session_expiry_interval: None,
            force_session_expiry_interval: false,
            receive_maximum: 65535u16,
            maximum_qos: QoS::ExactlyOnce,
            retain_enabled: true,
            maximum_packet_size: None,
            topic_alias_maximum: 0u16,
            keep_alive: 600u16,
            force_keep_alive: false,
        }
    }

    /// Checks the settings against the current limitations of the broker.
    /// Returns `true` only if every limitation is satisfied. The command
    /// loop calls this and shuts the server down on any invalid option.
    pub fn is_valid(&self) -> (r: bool)
        ensures
            r == self.spec_valid(),
    {
        let mut valid = true;

        let expiry_ok = match self.session_expiry_interval {
            None => true,
            Some(v) => v == 0xFFFFFFFF,
        };
        if !expiry_ok {
            valid = false;
        }

        if !matches!(self.maximum_qos, QoS::AtMostOnce) {
            valid = false;
        }

        if self.receive_maximum > 0 {
            valid = false;
        }

        if self.retain_enabled {
            valid = false;
        }

        if self.maximum_packet_size.is_some() {
            valid = false;
        }

        if self.topic_alias_maximum > 0 {
            valid = false;
        }

        valid
    }

    /// The reason code granted for a requested subscription QoS: `Success`
    /// when the request does not exceed the maximum the server operates on,
    /// `QoSNotSupported` otherwise.
    pub fn check_qos(&self, qos: QoS) -> (r: ReasonCode)
        ensures
            r == (if qos.level() <= self.maximum_qos.level() {
                ReasonCode::Success
            } else {
                ReasonCode::QoSNotSupported
            }),
    {
        let requested: u8 = match qos {
            QoS::AtMostOnce => 0,
            QoS::AtLeastOnce => 1,
            QoS::ExactlyOnce => 2,
        };
        let maximum: u8 = match self.maximum_qos {
            QoS::AtMostOnce => 0,
            QoS::AtLeastOnce => 1,
            QoS::ExactlyOnce => 2,
        };
        if requested <= maximum {
            ReasonCode::Success
        } else {
            ReasonCode::QoSNotSupported
        }
    }
}

impl Default for BrokerSettings {
    /// The default settings: a 600 second keep alive, QoS 2, retained
    /// messages enabled, no session expiry and no packet size limit.
    fn default() -> (r: BrokerSettings)
        ensures
            r == BrokerSettings::spec_default(),
    {
        BrokerSettings {
            session_expiry_interval: None,
            force_session_expiry_interval: false,
            receive_maximum: 65535,
            maximum_qos: QoS::ExactlyOnce,
            retain_enabled: true,
            maximum_packet_size: None,
            topic_alias_maximum: 0,
            keep_alive: 600,
            force_keep_alive: false,
        }
    }
}

} // verus!
