//! The master: the time reference that broadcasts beacons and answers delay
//! probes with its own receive time.
use vstd::prelude::*;

use crate::client;

verus! {

/// What the master sends.
#[derive(PartialEq, Eq, Structural, Clone, Copy, Debug)]
pub enum Message {
    /// First half of a beacon.
    Sync,
    /// Second half of a beacon: the master's clock just after `Sync` left.
    FollowUp(i64),
    /// Answer to a delay probe: the master's clock when the probe arrived.
    DelayResp(i64),
}

/// Where beacons are sent, as plain address parts.
#[derive(Clone, Copy, Debug)]
pub enum Target {
    /// IPv4 octets and port.
    V4([u8; 4], u16),
    /// IPv6 segments, port, flow information and scope id.
    V6([u16; 8], u16, u32, u32),
}

/// Beacon timing and destination of a master.
pub struct Config {
    /// Period between two beacons, in nanoseconds.
    pub sync_duration_nanos: u64,
    /// Destination of the beacons.
    pub target: Target,
}

/// Default beacon period: half a second.
pub const DEFAULT_SYNC_DURATION_NANOS: u64 = 500_000_000;

/// Default beacon port.
pub const DEFAULT_TARGET_PORT: u16 = 13001;

/// The default destination: the limited broadcast address on the default
/// port.
pub open spec fn is_default_target(t: Target) -> bool {
    match t {
        Target::V4(ip, port) => ip@ == seq![255u8, 255u8, 255u8, 255u8] && port
            == DEFAULT_TARGET_PORT,
        Target::V6(..) => false,
    }
}

impl Default for Config {
    fn default() -> (r: Config)
        ensures
            r.sync_duration_nanos == DEFAULT_SYNC_DURATION_NANOS,
            is_default_target(r.target),
    {
        let ip: [u8; 4] = [255u8, 255u8, 255u8, 255u8];
        proof {
            assert(ip@ =~= seq![255u8, 255u8, 255u8, 255u8]);
        }
        Config {
            sync_duration_nanos: DEFAULT_SYNC_DURATION_NANOS,
            target: Target::V4(ip, DEFAULT_TARGET_PORT),
        }
    }
}

/// The decisions of a master. It keeps no state about its peers.
pub struct Server {
    config: Config,
}

/// How long the beacon loop sleeps after a cycle that took `elapsed`:
/// the rest of the period, or nothing when the cycle overran it.
pub open spec fn pause_of(period: u64, elapsed: u64) -> u64 {
    if elapsed < period {
        (period - elapsed) as u64
    } else {
        0
    }
}

impl Server {
    pub closed spec fn period(&self) -> u64 {
        self.config.sync_duration_nanos
    }

    pub closed spec fn target_spec(&self) -> Target {
        self.config.target
    }

    pub fn new(config: Config) -> (r: Server)
        ensures
            r.period() == config.sync_duration_nanos,
            r.target_spec() == config.target,
    {
        Server { config }
    }

    /// Where the beacons go.
    pub fn target(&self) -> (r: Target)
        ensures
            r == self.target_spec(),
    {
        self.config.target
    }

    pub fn sync_duration_nanos(&self) -> (r: u64)
        ensures
            r == self.period(),
    {
        self.config.sync_duration_nanos
    }

    /// The sleep before the next beacon, given how long the previous cycle
    /// took.
    pub fn pause_before_beacon(&self, elapsed: u64) -> (r: u64)
        ensures
            r == pause_of(self.period(), elapsed),
            r <= self.period(),
    {
        if elapsed < self.config.sync_duration_nanos {
            self.config.sync_duration_nanos - elapsed
        } else {
            0
        }
    }

    /// The answer to a datagram received at master time `now`: a delay probe
    /// is answered with `DelayResp(now)`; one that did not decode gets none.
    pub fn respond(&self, received: &Result<client::Message, rmp_serde::decode::Error>, now: i64) -> (r:
        Option<Message>)
        ensures
            received is Ok ==> r == Some(Message::DelayResp(now)),
            received is Err ==> r is None,
    {
        match received {
            Ok(client::Message::DelayReq) => Some(Message::DelayResp(now)),
            Err(_) => None,
        }
    }
}

} // verus!
