use udsplitter::server::Config;
use udsplitter::session_table::{Arrival, Entry, SessionTable};

#[test]
fn the_second_stream_finds_what_the_first_one_left() {
    let mut table: SessionTable<&str> = SessionTable::new();
    assert_eq!(table.len(), 0);
    assert_eq!(table.arrive(42, 1000, "kept"), Arrival::Opened);
    assert_eq!(table.len(), 1);
    assert_eq!(
        table.arrive(43, 5000, "unused"),
        Arrival::Resumed(Entry { born: 1000, slot: "kept" })
    );
    assert_eq!(table.len(), 0);
}

#[test]
fn the_order_of_the_streams_does_not_matter() {
    let mut table: SessionTable<u8> = SessionTable::new();
    assert_eq!(table.arrive(43, 7, 1), Arrival::Opened);
    assert_eq!(table.arrive(42, 8, 2), Arrival::Resumed(Entry { born: 7, slot: 1 }));
}

#[test]
fn a_third_stream_opens_the_session_anew() {
    let mut table: SessionTable<u8> = SessionTable::new();
    table.arrive(42, 1, 1);
    table.arrive(43, 2, 2);
    assert_eq!(table.arrive(42, 3, 3), Arrival::Opened);
    assert_eq!(table.arrive(42, 4, 4), Arrival::Resumed(Entry { born: 3, slot: 3 }));
}

#[test]
fn other_sessions_are_left_alone() {
    let mut table: SessionTable<u8> = SessionTable::new();
    table.arrive(2, 1, 1);
    table.arrive(4, 2, 2);
    assert_eq!(table.arrive(7, 3, 3), Arrival::Opened);
    assert_eq!(table.arrive(5, 4, 4), Arrival::Resumed(Entry { born: 2, slot: 2 }));
    assert_eq!(table.arrive(3, 5, 5), Arrival::Resumed(Entry { born: 1, slot: 1 }));
    assert_eq!(table.len(), 1);
}

#[test]
fn a_sweep_drops_what_has_waited_for_the_timeout() {
    let mut table: SessionTable<u8> = SessionTable::new();
    table.arrive(2, 100, 1);
    table.arrive(4, 101, 2);
    table.arrive(6, 300, 3);
    table.sweep(200, 101);
    assert_eq!(table.len(), 3);
    table.sweep(200, 100);
    assert_eq!(table.len(), 2);
    assert_eq!(table.arrive(2, 200, 4), Arrival::Opened);
    assert_eq!(table.arrive(4, 200, 5), Arrival::Resumed(Entry { born: 101, slot: 2 }));
    assert_eq!(table.arrive(6, 200, 6), Arrival::Resumed(Entry { born: 300, slot: 3 }));
}

#[test]
fn a_sweep_copes_with_any_time() {
    let mut table: SessionTable<u8> = SessionTable::new();
    table.arrive(2, 0, 1);
    table.sweep(0, u128::MAX);
    assert_eq!(table.len(), 1);
    table.sweep(u128::MAX, u128::MAX);
    assert_eq!(table.len(), 0);
    table.arrive(2, u128::MAX, 1);
    table.sweep(0, 0);
    assert_eq!(table.len(), 1);
    table.sweep(u128::MAX, 0);
    assert_eq!(table.len(), 0);
}

#[test]
fn a_session_lives_for_one_and_a_half_timeouts_at_most() {
    let config = Config { listen: String::new(), timeout_ms: 1000 };
    let timeout = config.timeout_nanos();
    let (secs, nanos) = config.sweep_interval();
    let interval = secs as u128 * 1_000_000_000 + nanos as u128;
    for born in [1u128, 250_000_000, 499_999_999, 500_000_000] {
        let mut table: SessionTable<u8> = SessionTable::new();
        table.arrive(2, born, 0);
        let mut now = 0;
        while table.len() > 0 {
            assert!(now < born + timeout);
            now += interval;
            table.sweep(now, timeout);
        }
        assert!(2 * (now - born) <= 3 * timeout);
    }
}

#[test]
fn a_later_sweep_makes_an_earlier_one_redundant() {
    let mut once: SessionTable<u8> = SessionTable::new();
    let mut twice: SessionTable<u8> = SessionTable::new();
    for (key, born) in [(2u64, 10u128), (4, 20), (6, 30)] {
        once.arrive(key, born, 0);
        twice.arrive(key, born, 0);
    }
    once.sweep(40, 15);
    twice.sweep(30, 15);
    twice.sweep(40, 15);
    assert_eq!(once.len(), 1);
    assert_eq!(twice.len(), 1);
    assert_eq!(twice.arrive(6, 50, 1), once.arrive(6, 50, 1));
}

#[test]
fn the_set_up_of_the_server() {
    assert_eq!(Config::default_timeout_ms(), 1000);
    let config = Config { listen: "127.0.0.2:1081".to_string(), timeout_ms: 5001 };
    assert_eq!(config.timeout_nanos(), 5_001_000_000);
    assert_eq!(config.sweep_interval(), (2, 500_500_000));
    let longest = Config { listen: String::new(), timeout_ms: u64::MAX };
    assert_eq!(longest.timeout_nanos(), u64::MAX as u128 * 1_000_000);
    assert_eq!(longest.sweep_interval(), (u64::MAX / 2000, 807_500_000));
}
