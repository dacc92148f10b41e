//! The slave: a sequential state machine that runs one four-timestamp
//! exchange per round and reports a smoothed offset to the master's clock.
//!
//! The driver around it receives datagrams, reads the clock and performs the
//! sends that the machine asks for; every decision is taken here.
use vstd::prelude::*;

use crate::server;
use crate::window::{div_toward_zero, lemma_div_value, pushed, sum_of, OffsetWindow, MAX_CAPACITY};
use crate::{add_of, diff_of, div_of, TimeOffset};

verus! {

/// What the slave sends.
#[derive(PartialEq, Eq, Structural, Clone, Copy, Debug)]
pub enum Message {
    /// Delay probe, answered by the master with `DelayResp`.
    DelayReq,
}

/// What the slave reports to the application that hosts it.
#[derive(Debug)]
pub enum Notify {
    /// A round completed; the payload is the new windowed mean offset.
    ChangeOffset(TimeOffset),
    /// A message arrived in a state that does not expect it.
    InvalidMessageSequence,
    /// A datagram did not decode.
    InvalidMessageFormat(rmp_serde::decode::Error),
    /// A send or receive on the socket failed.
    Io(std::io::Error),
}

/// Settings of a slave.
pub struct Config {
    /// Capacity of the queue that carries notifications to the application.
    pub notify_channel_buffer_size: usize,
    /// Number of recent samples that the mean is taken over.
    pub mean_window: usize,
}

pub const DEFAULT_NOTIFY_CHANNEL_BUFFER_SIZE: usize = 1024;

pub const DEFAULT_MEAN_WINDOW: usize = 64;

impl Default for Config {
    fn default() -> (r: Config)
        ensures
            r.notify_channel_buffer_size == DEFAULT_NOTIFY_CHANNEL_BUFFER_SIZE,
            r.mean_window == DEFAULT_MEAN_WINDOW,
    {
        Config {
            notify_channel_buffer_size: DEFAULT_NOTIFY_CHANNEL_BUFFER_SIZE,
            mean_window: DEFAULT_MEAN_WINDOW,
        }
    }
}

/// Where the slave stands in the current round. Instants are nanoseconds
/// since the Unix epoch; `local_*` are read from the slave's clock,
/// `master_sync` from the master's.
#[derive(PartialEq, Eq, Structural, Clone, Copy, Debug)]
pub enum State {
    Cleared,
    SyncReceived { local_sync: i64 },
    FollowUpReceived { local_sync: i64, master_sync: i64, local_probe: i64 },
}

/// What the driver does after a message was handled.
#[derive(Debug)]
pub enum Reaction {
    /// Nothing to send or report.
    Nothing,
    /// Send `DelayReq` to the sender of the message, then report the send
    /// time with [`Server::on_delay_req_sent`].
    SendDelayReq,
    /// Hand this to the application.
    Notify(Notify),
}

/// The state after a message that arrived at local time `now`.
pub open spec fn next_state(s: State, m: server::Message, now: i64) -> State {
    match (s, m) {
        (State::Cleared, server::Message::Sync) => State::SyncReceived { local_sync: now },
        (State::SyncReceived { local_sync }, server::Message::FollowUp(master_sync)) => {
            State::FollowUpReceived { local_sync, master_sync, local_probe: now }
        },
        _ => State::Cleared,
    }
}

/// `Sync` in `Cleared`: a round begins.
pub open spec fn begins_round(s: State, m: server::Message) -> bool {
    s is Cleared && m is Sync
}

/// `FollowUp` after `Sync`: the probe goes out.
pub open spec fn sends_probe(s: State, m: server::Message) -> bool {
    s is SyncReceived && m is FollowUp
}

/// `DelayResp` after `FollowUp`: the round is complete.
pub open spec fn completes_round(s: State, m: server::Message) -> bool {
    s is FollowUpReceived && m is DelayResp
}

/// Any other pair breaks the sequence.
pub open spec fn out_of_sequence(s: State, m: server::Message) -> bool {
    !begins_round(s, m) && !sends_probe(s, m) && !completes_round(s, m)
}

/// The offset sample of a completed round: the beacon's difference plus half
/// of the probe's difference.
pub open spec fn round_sample(
    local_sync: i64,
    master_sync: i64,
    local_probe: i64,
    master_probe: i64,
) -> TimeOffset {
    add_of(diff_of(local_sync, master_sync), div_of(diff_of(local_probe, master_probe), 2))
}

/// The sample of the round that `m` completes in state `s`.
pub open spec fn completed_sample(s: State, m: server::Message) -> TimeOffset {
    match (s, m) {
        (
            State::FollowUpReceived { local_sync, master_sync, local_probe },
            server::Message::DelayResp(master_probe),
        ) => round_sample(local_sync, master_sync, local_probe, master_probe),
        _ => TimeOffset::Later(0),
    }
}

/// The slave's protocol state and its window of offset samples.
pub struct Server {
    state: State,
    window: OffsetWindow,
}

impl Server {
    pub closed spec fn state_spec(&self) -> State {
        self.state
    }

    /// The samples of the window, oldest first.
    pub closed spec fn samples(&self) -> Seq<TimeOffset> {
        self.window@
    }

    pub closed spec fn mean_window(&self) -> nat {
        self.window.capacity_spec()
    }

    pub closed spec fn wf(&self) -> bool {
        self.window.wf()
    }

    /// A slave in `Cleared` with an empty window of `config.mean_window`
    /// samples.
    pub fn new(config: &Config) -> (r: Server)
        requires
            1 <= config.mean_window <= MAX_CAPACITY,
        ensures
            r.wf(),
            r.state_spec() == State::Cleared,
            r.samples() == Seq::<TimeOffset>::empty(),
            r.mean_window() == config.mean_window,
            r.samples().len() <= r.mean_window(),
    {
        Server { state: State::Cleared, window: OffsetWindow::new(config.mean_window) }
    }

    pub fn state(&self) -> (r: State)
        ensures
            r == self.state_spec(),
    {
        self.state
    }

    pub fn window(&self) -> (r: &OffsetWindow)
        ensures
            r@ == self.samples(),
            r.capacity_spec() == self.mean_window(),
            self.wf() ==> r.wf(),
    {
        &self.window
    }

    /// Handles a message that arrived at local time `now`.
    pub fn on_message(&mut self, msg: server::Message, now: i64) -> (r: Reaction)
        requires
            old(self).wf(),
        ensures
            final(self).wf(),
            final(self).mean_window() == old(self).mean_window(),
            final(self).samples().len() <= final(self).mean_window(),
            final(self).state_spec() == next_state(old(self).state_spec(), msg, now),
            begins_round(old(self).state_spec(), msg) ==> r == Reaction::Nothing,
            sends_probe(old(self).state_spec(), msg) ==> r == Reaction::SendDelayReq,
            out_of_sequence(old(self).state_spec(), msg) ==> r == Reaction::Notify(
                Notify::InvalidMessageSequence,
            ),
            completes_round(old(self).state_spec(), msg) ==> {
                let sample = completed_sample(old(self).state_spec(), msg);
                &&& final(self).samples() == pushed(
                    old(self).samples(),
                    old(self).mean_window(),
                    sample,
                )
                &&& r == Reaction::Notify(
                    Notify::ChangeOffset(
                        div_of(sum_of(final(self).samples()), final(self).samples().len() as i32),
                    ),
                )
            },
            !completes_round(old(self).state_spec(), msg) ==> final(self).samples() == old(
                self,
            ).samples(),
    {
        match (self.state, msg) {
            (State::Cleared, server::Message::Sync) => {
                self.state = State::SyncReceived { local_sync: now };
                Reaction::Nothing
            },
            (State::SyncReceived { local_sync }, server::Message::FollowUp(master_sync)) => {
                self.state = State::FollowUpReceived { local_sync, master_sync, local_probe: now };
                Reaction::SendDelayReq
            },
            (
                State::FollowUpReceived { local_sync, master_sync, local_probe },
                server::Message::DelayResp(master_probe),
            ) => {
                let beacon = TimeOffset::diff(local_sync, master_sync);
                let probe = TimeOffset::diff(local_probe, master_probe);
                let sample = beacon.add(probe.div(2));
                self.window.push(sample);
                let mean = self.window.mean();
                self.state = State::Cleared;
                Reaction::Notify(Notify::ChangeOffset(mean))
            },
            _ => {
                self.state = State::Cleared;
                Reaction::Notify(Notify::InvalidMessageSequence)
            },
        }
    }

    /// Records the local time at which the delay probe left: in
    /// `FollowUpReceived` it replaces the probe time, elsewhere nothing
    /// changes.
    pub fn on_delay_req_sent(&mut self, now: i64)
        requires
            old(self).wf(),
        ensures
            final(self).wf(),
            final(self).mean_window() == old(self).mean_window(),
            final(self).samples() == old(self).samples(),
            final(self).samples().len() <= final(self).mean_window(),
            final(self).state_spec() == match old(self).state_spec() {
                State::FollowUpReceived { local_sync, master_sync, local_probe: _ } => {
                    State::FollowUpReceived { local_sync, master_sync, local_probe: now }
                },
                s => s,
            },
    {
        if let State::FollowUpReceived { local_sync, master_sync, local_probe: _ } = self.state {
            self.state = State::FollowUpReceived { local_sync, master_sync, local_probe: now };
        }
    }

    /// A datagram that did not decode is reported and changes nothing.
    pub fn on_decode_error(&self, error: rmp_serde::decode::Error) -> (r: Notify)
        ensures
            r == Notify::InvalidMessageFormat(error),
    {
        Notify::InvalidMessageFormat(error)
    }

    /// A failed send or receive is reported and changes nothing.
    pub fn on_io_error(&self, error: std::io::Error) -> (r: Notify)
        ensures
            r == Notify::Io(error),
    {
        Notify::Io(error)
    }
}

/// Every pair of state and message falls under exactly one row of the
/// transition table, and every row but the first two ends in `Cleared`.
pub proof fn lemma_table_exhaustive(s: State, m: server::Message, now: i64)
    ensures
        begins_round(s, m) || sends_probe(s, m) || completes_round(s, m) || out_of_sequence(s, m),
        begins_round(s, m) ==> !sends_probe(s, m) && !completes_round(s, m) && !out_of_sequence(
            s,
            m,
        ),
        sends_probe(s, m) ==> !completes_round(s, m) && !out_of_sequence(s, m),
        completes_round(s, m) ==> !out_of_sequence(s, m),
        begins_round(s, m) ==> next_state(s, m, now) == (State::SyncReceived { local_sync: now }),
        !begins_round(s, m) && !sends_probe(s, m) ==> next_state(s, m, now) == State::Cleared,
{
}

/// One round between a master clock and a slave clock that runs `skew`
/// ahead of it, with the same one-way delay `delay` in both directions: the
/// sample is `-(delay + skew)` plus half of `delay - skew`, rounded toward
/// zero. Without skew, correcting a slave instant by the sample lands within
/// `delay` of the master's clock.
pub proof fn lemma_symmetric_round(master_sync: i64, local_probe: i64, skew: int, delay: int)
    requires
        delay >= 0,
        i64::MIN <= master_sync + delay + skew <= i64::MAX,
        i64::MIN <= local_probe - skew + delay <= i64::MAX,
    ensures
        round_sample(
            (master_sync + delay + skew) as i64,
            master_sync,
            local_probe,
            (local_probe - skew + delay) as i64,
        ).value() == -(delay + skew) + div_toward_zero(delay - skew, 2),
        skew == 0 ==> -delay <= round_sample(
            (master_sync + delay) as i64,
            master_sync,
            local_probe,
            (local_probe + delay) as i64,
        ).value() <= 0,
{
    let local_sync = (master_sync + delay + skew) as i64;
    let master_probe = (local_probe - skew + delay) as i64;
    let beacon = diff_of(local_sync, master_sync);
    let probe = diff_of(local_probe, master_probe);
    lemma_div_value(probe, 2);
    let half = div_of(probe, 2);
    assert(add_of(beacon, half).value() == beacon.value() + half.value());
}

} // verus!
