use timesync::client::{Config, Notify, Reaction, Server, State};
use timesync::server::Message;
use timesync::TimeOffset;

fn slave(window: usize) -> Server {
    Server::new(&Config {
        notify_channel_buffer_size: 16,
        mean_window: window,
    })
}

fn is_sequence_error(r: &Reaction) -> bool {
    matches!(r, Reaction::Notify(Notify::InvalidMessageSequence))
}

fn offset_of(r: Reaction) -> TimeOffset {
    match r {
        Reaction::Notify(Notify::ChangeOffset(x)) => x,
        other => panic!("expected an offset, got {:?}", other),
    }
}

/// Runs one complete round and returns what the slave reported.
fn round(s: &mut Server, local_sync: i64, master_sync: i64, local_probe: i64, master_probe: i64) -> Reaction {
    assert!(matches!(s.on_message(Message::Sync, local_sync), Reaction::Nothing));
    assert!(matches!(
        s.on_message(Message::FollowUp(master_sync), local_probe - 1),
        Reaction::SendDelayReq
    ));
    s.on_delay_req_sent(local_probe);
    s.on_message(Message::DelayResp(master_probe), local_probe + 5)
}

#[test]
fn default_config() {
    let c = Config::default();
    assert_eq!(c.notify_channel_buffer_size, 1024);
    assert_eq!(c.mean_window, 64);
    let s = Server::new(&c);
    assert_eq!(s.state(), State::Cleared);
    assert_eq!(s.window().capacity(), 64);
    assert_eq!(s.window().len(), 0);
}

#[test]
fn table_from_cleared() {
    let mut s = slave(4);
    assert!(matches!(s.on_message(Message::Sync, 10), Reaction::Nothing));
    assert_eq!(s.state(), State::SyncReceived { local_sync: 10 });

    let mut s = slave(4);
    assert!(is_sequence_error(&s.on_message(Message::FollowUp(3), 10)));
    assert_eq!(s.state(), State::Cleared);

    let mut s = slave(4);
    assert!(is_sequence_error(&s.on_message(Message::DelayResp(3), 10)));
    assert_eq!(s.state(), State::Cleared);
}

#[test]
fn table_from_sync_received() {
    let mut s = slave(4);
    s.on_message(Message::Sync, 10);
    assert!(is_sequence_error(&s.on_message(Message::Sync, 11)));
    assert_eq!(s.state(), State::Cleared);

    let mut s = slave(4);
    s.on_message(Message::Sync, 10);
    assert!(matches!(s.on_message(Message::FollowUp(3), 12), Reaction::SendDelayReq));
    assert_eq!(
        s.state(),
        State::FollowUpReceived { local_sync: 10, master_sync: 3, local_probe: 12 }
    );
    s.on_delay_req_sent(15);
    assert_eq!(
        s.state(),
        State::FollowUpReceived { local_sync: 10, master_sync: 3, local_probe: 15 }
    );

    let mut s = slave(4);
    s.on_message(Message::Sync, 10);
    assert!(is_sequence_error(&s.on_message(Message::DelayResp(3), 11)));
    assert_eq!(s.state(), State::Cleared);
}

#[test]
fn table_from_follow_up_received() {
    for bad in [Message::Sync, Message::FollowUp(4)] {
        let mut s = slave(4);
        s.on_message(Message::Sync, 10);
        s.on_message(Message::FollowUp(3), 12);
        assert!(is_sequence_error(&s.on_message(bad, 20)));
        assert_eq!(s.state(), State::Cleared);
        assert_eq!(s.window().len(), 0);
    }
    let mut s = slave(4);
    s.on_message(Message::Sync, 10);
    s.on_message(Message::FollowUp(3), 12);
    assert!(matches!(
        s.on_message(Message::DelayResp(40), 20),
        Reaction::Notify(Notify::ChangeOffset(_))
    ));
    assert_eq!(s.state(), State::Cleared);
    assert_eq!(s.window().len(), 1);
}

#[test]
fn delay_req_sent_outside_a_round_changes_nothing() {
    let mut s = slave(4);
    s.on_delay_req_sent(99);
    assert_eq!(s.state(), State::Cleared);
    s.on_message(Message::Sync, 10);
    s.on_delay_req_sent(99);
    assert_eq!(s.state(), State::SyncReceived { local_sync: 10 });
}

#[test]
fn round_offset_formula() {
    // beacon: master 1_000 vs local 1_300 -> Later(300)
    // probe: local 2_000 vs master 2_100 -> Earlier(100), halved -> Earlier(50)
    let mut s = slave(4);
    let x = offset_of(round(&mut s, 1_300, 1_000, 2_000, 2_100));
    assert_eq!(x, TimeOffset::Later(250));
}

#[test]
fn round_without_skew_lands_within_the_delay() {
    let delay: i64 = 80_000;
    let master_sync: i64 = 1_700_000_000_000_000_000;
    let local_probe = master_sync + 3_000_000;
    let mut s = slave(64);
    let x = offset_of(round(
        &mut s,
        master_sync + delay,
        master_sync,
        local_probe,
        local_probe + delay,
    ));
    assert_eq!(x, TimeOffset::Later(40_000));
    let local_now = master_sync + 10_000_000;
    let corrected = x.correct(local_now);
    assert!((corrected - local_now).abs() <= delay);
}

#[test]
fn repeated_rounds_with_jitter_settle() {
    let delay: i64 = 50_000;
    let jitter = [0i64, 1_000, -700, 300, -1_200, 800, 0, -100];
    let mut s = slave(8);
    let mut last = TimeOffset::Later(0);
    for (k, j) in jitter.iter().enumerate() {
        let m = 1_000_000_000 * (k as i64 + 1);
        let d = delay + j;
        last = offset_of(round(&mut s, m + d, m, m + 400_000, m + 400_000 + d));
    }
    assert_eq!(s.window().len(), 8);
    match last {
        TimeOffset::Later(x) => assert!(x <= 51_200 && x >= 24_000),
        TimeOffset::Earlier(_) => panic!("expected the slave clock to be ahead"),
    }
}

#[test]
fn round_with_skew() {
    // slave clock 1_000 ahead, symmetric delay 100: -(100 + 1000) + (100 - 1000) / 2
    let mut s = slave(4);
    let m: i64 = 5_000_000;
    let x = offset_of(round(&mut s, m + 100 + 1_000, m, m + 9_000, m + 9_000 - 1_000 + 100));
    assert_eq!(x, TimeOffset::Later(1_550));
}

#[test]
fn follow_up_first_is_a_sequence_error() {
    let mut s = slave(4);
    let mut reports = Vec::new();
    reports.push(s.on_message(Message::FollowUp(1_000), 2_000));
    assert_eq!(reports.len(), 1);
    assert!(is_sequence_error(&reports[0]));
    assert!(!reports
        .iter()
        .any(|r| matches!(r, Reaction::Notify(Notify::ChangeOffset(_)))));
    assert_eq!(s.state(), State::Cleared);
    assert_eq!(s.window().len(), 0);
}

#[test]
fn malformed_datagram_is_reported() {
    let mut s = slave(4);
    s.on_message(Message::Sync, 10);
    let bytes = [0xc1u8, 0x17, 0x9e, 0x00, 0x42];
    let decoded = rmp_serde::from_slice::<(String, i64)>(&bytes);
    let e = decoded.expect_err("these bytes do not decode");
    let n = s.on_decode_error(e);
    assert!(matches!(n, Notify::InvalidMessageFormat(_)));
    assert_eq!(s.state(), State::SyncReceived { local_sync: 10 });
    assert_eq!(s.window().len(), 0);
}

#[test]
fn io_error_is_reported() {
    let s = slave(4);
    let n = s.on_io_error(std::io::Error::new(std::io::ErrorKind::Other, "unreachable"));
    assert!(matches!(n, Notify::Io(_)));
    assert_eq!(s.state(), State::Cleared);
}

#[test]
fn mean_over_rounds() {
    let mut s = slave(2);
    let a = offset_of(round(&mut s, 1_300, 1_000, 2_000, 2_100)); // Later(250)
    assert_eq!(a, TimeOffset::Later(250));
    let b = offset_of(round(&mut s, 1_000, 1_450, 2_000, 2_100)); // Earlier(500)
    assert_eq!(b, TimeOffset::Earlier(125));
    let c = offset_of(round(&mut s, 1_000, 1_000, 2_000, 2_000)); // Earlier(0)
    assert_eq!(c, TimeOffset::Earlier(250));
}
