use vstd::prelude::*;
use vstd::string::StringExecFns;

verus! {

/// Address and connection timeout a broker is started with.
#[derive(Debug)]
pub struct BrokerConfig {
    /// Seconds the service waits for a first CONNECT packet before closing
    /// the connection.
    pub timeout_delay: u16,
    /// The `host:port` string the broker binds to.
    pub addr: String,
}

impl BrokerConfig {
    /// A configuration for the given bind address, with the default
    /// connection timeout of ten seconds.
    pub fn new(addr: &str) -> (r: BrokerConfig)
        ensures
            r.timeout_delay == 10,
            r.addr@ == addr@,
    {
        BrokerConfig { timeout_delay: 10, addr: String::from_str(addr) }
    }

    /// Sets the connection timeout delay in seconds, which is the amount of
    /// time the service will wait for a first connect packet before closing
    /// the connection.
    pub fn with_connect_timeout_delay(self, delay: u16) -> (r: BrokerConfig)
        ensures
            r.timeout_delay == delay,
            r.addr == self.addr,
    {
        BrokerConfig { timeout_delay: delay, addr: self.addr }
    }
}

} // verus!
