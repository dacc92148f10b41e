use timesync::client;
use timesync::server::{Config, Message, Server, Target};

#[test]
fn default_period_is_half_a_second() {
    let c = Config::default();
    assert_eq!(c.sync_duration_nanos, 500_000_000);
    assert_eq!(Server::new(c).sync_duration_nanos(), 500_000_000);
}

#[test]
fn pause_fills_the_rest_of_the_period() {
    let m = Server::new(Config::default());
    assert_eq!(m.pause_before_beacon(0), 500_000_000);
    assert_eq!(m.pause_before_beacon(120_000_000), 380_000_000);
    assert_eq!(m.pause_before_beacon(500_000_000), 0);
    assert_eq!(m.pause_before_beacon(900_000_000), 0);
}

#[test]
fn delay_request_is_answered_with_receive_time() {
    let m = Server::new(Config::default());
    assert_eq!(
        m.respond(&Ok(client::Message::DelayReq), 1_234),
        Some(Message::DelayResp(1_234))
    );
}

#[test]
fn undecodable_request_gets_no_answer() {
    let m = Server::new(Config::default());
    let bad = rmp_serde::from_slice::<(String, i64)>(&[0xc1u8, 0x01]);
    assert!(bad.is_err());
    let bad = bad.map(|_| client::Message::DelayReq);
    assert_eq!(m.respond(&bad, 1_234), None);
}

#[test]
fn default_target_is_broadcast() {
    match Config::default().target {
        Target::V4(ip, port) => {
            assert_eq!(ip, [255, 255, 255, 255]);
            assert_eq!(port, 13001);
        }
        Target::V6(..) => panic!("expected an IPv4 target"),
    }
}

#[test]
fn target_is_kept() {
    let m = Server::new(Config {
        sync_duration_nanos: 1,
        target: Target::V4([10, 0, 0, 255], 4000),
    });
    assert!(matches!(m.target(), Target::V4([10, 0, 0, 255], 4000)));
}
