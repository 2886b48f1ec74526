use crate::session::{options_new, set_inflight, set_keep_alive_secs};
use rumqttc::MqttOptions;
use vstd::prelude::*;

verus! {

/// Seconds between keep-alive pings during a benchmark run.
pub const KEEP_ALIVE_SECS: u64 = 20;

/// Unacknowledged messages allowed in flight during a benchmark run.
pub const MAX_IN_FLIGHT: u16 = 100;

/// Requests taken together in one batch during a benchmark run.
pub const MAX_BATCH: usize = 10;

/// Requests that the channel to the event loop holds.
pub const REQUEST_CAPACITY: usize = 10;

/// The parameters of one benchmark session.
pub struct ConnectionConfig {
    pub identity: String,
    pub host: String,
    pub port: u16,
    pub keep_alive_secs: u64,
    pub max_in_flight: u16,
    pub max_batch: usize,
    pub request_capacity: usize,
}

impl ConnectionConfig {
    /// A zero in-flight bound would stall all publishing.
    pub open spec fn wf(&self) -> bool {
        self.max_in_flight > 0
    }

    /// The configuration a benchmark run uses against `host:port`.
    pub fn benchmark(identity: String, host: String, port: u16) -> (r: ConnectionConfig)
        ensures
            r.identity@ == identity@,
            r.host@ == host@,
            r.port == port,
            r.keep_alive_secs == KEEP_ALIVE_SECS,
            r.max_in_flight == MAX_IN_FLIGHT,
            r.max_batch == MAX_BATCH,
            r.request_capacity == REQUEST_CAPACITY,
            r.wf(),
    {
        ConnectionConfig {
            identity,
            host,
            port,
            keep_alive_secs: KEEP_ALIVE_SECS,
            max_in_flight: MAX_IN_FLIGHT,
            max_batch: MAX_BATCH,
            request_capacity: REQUEST_CAPACITY,
        }
    }

    /// The client's option set for this configuration: identity, endpoint,
    /// keep-alive interval and in-flight bound. The client has no setting
    /// for the batch size, which stays the client's own.
    pub fn to_options(&self) -> MqttOptions
        requires
            self.wf(),
    {
        let mut options = options_new(&self.identity, &self.host, self.port);
        set_keep_alive_secs(&mut options, self.keep_alive_secs);
        set_inflight(&mut options, self.max_in_flight);
        options
    }
}

} // verus!
