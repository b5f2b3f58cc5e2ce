use plugin_host::clock::{
    millis_of, nanos_of, saturate_i64, saturate_u64, seconds_of, unix_millis, unix_nanos,
    unix_seconds,
};
use plugin_host::tick_manager::{
    current_timestamp, session_event_name, tick_interval_ms, TickEvent, TickManager, TickRound,
};

#[test]
fn new_manager_is_stopped_at_tick_zero() {
    let m = TickManager::new(60);
    assert!(!m.is_running());
    assert_eq!(m.get_current_tick(), 0);
    assert_eq!(m.get_current_tick_time(), 0);
    assert_eq!(m.get_tick_rate(), 60);
    assert!(m.get_active_sessions().is_empty());
    let status = m.get_status();
    assert!(!status.is_running);
    assert_eq!(status.current_tick, 0);
    assert_eq!(status.tick_rate, 60);
    assert_eq!(status.active_sessions, 0);
    assert_eq!(status.total_clients, 0);
}

#[test]
fn start_and_stop_refuse_to_repeat() {
    let mut m = TickManager::new(60);
    assert_eq!(m.stop(), Err("Tick manager is not running".to_string()));
    assert_eq!(m.start_at(1000), Ok(()));
    assert!(m.is_running());
    assert_eq!(m.get_current_tick_time(), 1000);
    assert_eq!(m.start_at(2000), Err("Tick manager is already running".to_string()));
    assert_eq!(m.get_current_tick_time(), 1000);
    assert_eq!(m.start(), Err("Tick manager is already running".to_string()));
    assert_eq!(m.stop(), Ok(()));
    assert!(!m.is_running());
    assert_eq!(m.start(), Ok(()));
    assert!(m.get_current_tick_time() > 0);
}

#[test]
fn tick_rate_must_not_be_zero() {
    let mut m = TickManager::new(60);
    assert_eq!(m.set_tick_rate(0), Err("Tick rate must be greater than 0".to_string()));
    assert_eq!(m.get_tick_rate(), 60);
    assert_eq!(m.set_tick_rate(30), Ok(()));
    assert_eq!(m.get_tick_rate(), 30);
}

#[test]
fn advancing_counts_ticks_and_measures_time() {
    let mut m = TickManager::new(60);
    // Before the first clock reading there is no time to measure.
    assert_eq!(m.advance_tick_at(500), TickEvent { tick: 1, timestamp: 500, delta_time: 0 });
    assert_eq!(m.advance_tick_at(516), TickEvent { tick: 2, timestamp: 516, delta_time: 16 });
    // A clock that has gone back measures nothing.
    assert_eq!(m.advance_tick_at(510), TickEvent { tick: 3, timestamp: 510, delta_time: 0 });
    assert_eq!(m.get_current_tick(), 3);
    assert_eq!(m.get_current_tick_time(), 510);
    let e = m.advance_tick();
    assert_eq!(e.tick, 4);
    assert_eq!(m.get_current_tick_time(), e.timestamp);
}

#[test]
fn sessions_are_registered_once_and_follow_the_tick() {
    let mut m = TickManager::new(60);
    m.advance_tick_at(10);
    m.register_session("s1".to_string());
    assert_eq!(m.get_session_info("s1"), Some((1, 0)));
    m.advance_tick_at(20);
    m.register_session("s2".to_string());
    // A second registration changes nothing.
    m.register_session("s1".to_string());
    assert_eq!(m.get_active_sessions(), vec!["s1".to_string(), "s2".to_string()]);
    assert_eq!(m.get_session_info("s1"), Some((2, 0)));
    assert_eq!(m.get_session_info("s2"), Some((2, 0)));
    m.advance_tick_at(30);
    assert_eq!(m.get_session_info("s1"), Some((3, 0)));
    assert_eq!(m.get_session_info("s2"), Some((3, 0)));
    assert_eq!(m.get_session_info("s3"), None);
    m.unregister_session("s1");
    m.unregister_session("missing");
    assert_eq!(m.get_active_sessions(), vec!["s2".to_string()]);
    assert_eq!(m.get_session_info("s1"), None);
}

#[test]
fn clients_join_once_and_empty_sessions_are_removed() {
    let mut m = TickManager::new(60);
    m.register_session("s1".to_string());
    m.register_session("s2".to_string());
    m.add_client_to_session("s1".to_string(), "c1".to_string());
    m.add_client_to_session("s1".to_string(), "c2".to_string());
    m.add_client_to_session("s1".to_string(), "c1".to_string());
    m.add_client_to_session("s2".to_string(), "c1".to_string());
    m.add_client_to_session("missing".to_string(), "c9".to_string());
    assert_eq!(m.get_session_info("s1"), Some((0, 2)));
    assert_eq!(m.get_session_info("s2"), Some((0, 1)));
    let status = m.get_status();
    assert_eq!(status.active_sessions, 2);
    assert_eq!(status.total_clients, 3);

    m.remove_client_from_session("s1", "c1");
    assert_eq!(m.get_session_info("s1"), Some((0, 1)));
    m.remove_client_from_session("s1", "unknown");
    assert_eq!(m.get_session_info("s1"), Some((0, 1)));
    m.remove_client_from_session("s1", "c2");
    assert_eq!(m.get_session_info("s1"), None);
    m.remove_client_from_session("missing", "c1");
    assert_eq!(m.get_active_sessions(), vec!["s2".to_string()]);
}

#[test]
fn removing_from_a_session_without_clients_removes_the_session() {
    let mut m = TickManager::new(60);
    m.register_session("s1".to_string());
    m.remove_client_from_session("s1", "nobody");
    assert_eq!(m.get_session_info("s1"), None);
}

#[test]
fn tick_difference_is_signed() {
    let mut m = TickManager::new(60);
    for t in 1..=5u64 {
        m.advance_tick_at(t);
    }
    assert_eq!(m.get_tick_difference("s", 2), 3);
    assert_eq!(m.get_tick_difference("s", 5), 0);
    assert_eq!(m.get_tick_difference("s", 9), -4);
    assert_eq!(m.get_tick_difference("s", u64::MAX), 6);
    assert!(m.is_session_behind("s", 2, 2));
    assert!(!m.is_session_behind("s", 2, 3));
    assert!(!m.is_session_behind("s", 9, -4));
    assert!(m.is_session_behind("s", 9, -5));
}

#[test]
fn each_session_gets_its_event() {
    let mut m = TickManager::new(60);
    m.register_session("s1".to_string());
    m.register_session("s2".to_string());
    m.add_client_to_session("s2".to_string(), "c1".to_string());
    m.advance_tick_at(1000);
    let events = m.get_session_tick_events_at(1040);
    assert_eq!(events.len(), 2);
    assert_eq!(events[0].session_id, "s1");
    assert_eq!(events[0].tick, 1);
    assert_eq!(events[0].timestamp, 1040);
    assert_eq!(events[0].delta_time, 40);
    assert_eq!(events[0].client_count, 0);
    assert_eq!(events[1].session_id, "s2");
    assert_eq!(events[1].client_count, 1);
    let now = m.get_session_tick_events();
    assert_eq!(now.len(), 2);
    assert_eq!(now[0].timestamp, now[1].timestamp);
}

#[test]
fn a_round_of_the_loop_stops_or_emits() {
    let mut m = TickManager::new(50);
    m.register_session("s1".to_string());
    assert!(matches!(m.tick_round_at(10, 11), TickRound::Stop));
    assert_eq!(m.get_current_tick(), 0);
    m.start_at(100).expect("starts");
    match m.tick_round_at(120, 125) {
        TickRound::Emit(tick, sessions) => {
            assert_eq!(tick, TickEvent { tick: 1, timestamp: 120, delta_time: 20 });
            assert_eq!(sessions.len(), 1);
            assert_eq!(sessions[0].tick, 1);
            assert_eq!(sessions[0].timestamp, 125);
            assert_eq!(sessions[0].delta_time, 5);
        }
        TickRound::Stop => panic!("a running manager ticks"),
    }
    assert!(matches!(m.tick_round(), TickRound::Emit(_, _)));
    m.stop().expect("stops");
    assert!(matches!(m.tick_round(), TickRound::Stop));
    assert_eq!(m.get_current_tick(), 2);
}

#[test]
fn interval_and_event_names() {
    assert_eq!(tick_interval_ms(60), 16);
    assert_eq!(tick_interval_ms(1), 1000);
    assert_eq!(tick_interval_ms(1000), 1);
    assert_eq!(tick_interval_ms(2000), 0);
    assert_eq!(session_event_name("s1"), "tick:s1");
    assert_eq!(session_event_name(""), "tick:");
}

#[test]
fn clock_reads_a_time_after_2020() {
    assert!(current_timestamp() > 1_577_836_800_000);
}

#[test]
fn clock_readings_fit_their_types() {
    assert_eq!(saturate_u64(0), 0);
    assert_eq!(saturate_u64(u64::MAX as u128), u64::MAX);
    assert_eq!(saturate_u64(u64::MAX as u128 + 1), u64::MAX);
    assert_eq!(saturate_u64(u128::MAX), u64::MAX);
    assert_eq!(saturate_i64(5), 5);
    assert_eq!(saturate_i64(i64::MAX as u128), i64::MAX);
    assert_eq!(saturate_i64(i64::MAX as u128 + 1), i64::MAX);
    let ms = unix_millis();
    let s = unix_seconds();
    let ns = unix_nanos();
    assert!(ms / 1000 >= 1_577_836_800);
    assert!((ms / 1000) as i64 - s < 5);
    assert!(ns / 1_000_000_000 - s < 5);
}

#[test]
fn a_reading_before_the_epoch_counts_as_the_epoch() {
    assert_eq!(millis_of(None), 0);
    assert_eq!(seconds_of(None), 0);
    assert_eq!(nanos_of(None), 0);
}

#[test]
fn a_reading_is_what_has_passed_within_the_range_of_its_type() {
    assert_eq!(millis_of(Some(0)), 0);
    assert_eq!(millis_of(Some(1_700_000_000_123)), 1_700_000_000_123);
    assert_eq!(millis_of(Some(u64::MAX as u128)), u64::MAX);
    assert_eq!(millis_of(Some(u64::MAX as u128 + 1)), u64::MAX);
    assert_eq!(seconds_of(Some(0)), 0);
    assert_eq!(seconds_of(Some(1_700_000_000)), 1_700_000_000);
    assert_eq!(seconds_of(Some(i64::MAX as u64)), i64::MAX);
    assert_eq!(seconds_of(Some(i64::MAX as u64 + 1)), i64::MAX);
    assert_eq!(seconds_of(Some(u64::MAX)), i64::MAX);
    assert_eq!(nanos_of(Some(1_700_000_000_123_456_789)), 1_700_000_000_123_456_789);
    assert_eq!(nanos_of(Some(i64::MAX as u128 + 1)), i64::MAX);
    assert_eq!(nanos_of(Some(u128::MAX)), i64::MAX);
}
