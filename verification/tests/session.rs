use botchling::domain::session::{format_ip, SessionState};

fn fresh() -> SessionState {
    SessionState::new(7, 150_001, 0xC0A8_0001, 1_000, "prontera".to_string())
}

#[test]
fn new_session_starts_at_login() {
    let s = fresh();
    assert_eq!(s.account_id, 7);
    assert_eq!(s.char_id, 150_001);
    assert_eq!(s.ip, 0xC0A8_0001);
    assert_eq!(s.login_time, 1_000);
    assert_eq!(s.map, "prontera");
    assert!(s.gaps.is_empty());
    assert_eq!(s.last_event_at, 1_000);
    assert_eq!(s.max_idle_gaps_ms, 0);
    assert_eq!(s.chat_count, 0);
    assert_eq!(s.teleport_count, 0);
    assert_eq!(s.last_tp_at, None);
    assert!(s.post_tp_delays.is_empty());
}

#[test]
fn timing_records_gaps_and_longest_gap() {
    let mut s = fresh();
    s.update_timing(1_500);
    s.update_timing(4_500);
    s.update_timing(4_700);
    assert_eq!(s.gaps, vec![500, 3_000, 200]);
    assert_eq!(s.max_idle_gaps_ms, 3_000);
    assert_eq!(s.last_event_at, 4_700);
}

#[test]
fn earlier_timestamp_counts_as_zero_gap() {
    let mut s = fresh();
    s.update_timing(900);
    assert_eq!(s.gaps, vec![0]);
    assert_eq!(s.max_idle_gaps_ms, 0);
    assert_eq!(s.last_event_at, 900);
}

#[test]
fn extreme_timestamps_do_not_overflow() {
    let mut s = SessionState::new(1, 2, 3, i64::MIN, "m".to_string());
    s.update_timing(i64::MAX);
    assert_eq!(s.gaps, vec![u64::MAX]);
    assert_eq!(s.max_idle_gaps_ms, u64::MAX);
    s.last_tp_at = Some(i64::MIN);
    s.update_timing(i64::MAX);
    assert_eq!(s.post_tp_delays, vec![(i64::MAX as i128) - (i64::MIN as i128)]);
}

#[test]
fn teleport_delay_is_recorded_once() {
    let mut s = fresh();
    s.last_tp_at = Some(2_000);
    s.update_timing(2_300);
    assert_eq!(s.post_tp_delays, vec![300]);
    assert_eq!(s.last_tp_at, None);
    s.update_timing(2_400);
    assert_eq!(s.post_tp_delays, vec![300]);
}

#[test]
fn finalize_reports_session() {
    let mut s = fresh();
    s.update_timing(2_000);
    s.chat_count = 3;
    s.teleport_count = 2;
    let f = s.finalize(10_000);
    assert_eq!(f.account_id, 7);
    assert_eq!(f.char_id, 150_001);
    assert_eq!(f.ip_address, "192.168.0.1");
    assert_eq!(f.login_time, 1_000);
    assert_eq!(f.logout_time, 10_000);
    assert_eq!(f.session_ms, 9_000);
    assert_eq!(f.max_idle_gaps_ms, 1_000);
    assert_eq!(f.chat_count, 3);
    assert_eq!(f.teleport_count, 2);
    assert_eq!(f.gaps, vec![1_000]);
    assert_eq!(f.rule_points, 0);
}

#[test]
fn logout_before_login_gives_zero_length() {
    let f = fresh().finalize(500);
    assert_eq!(f.session_ms, 0);
    assert_eq!(f.logout_time, 500);
}

#[test]
fn steady_session_scores_idle_rule() {
    let mut s = SessionState::new(1, 1, 0, 0, "m".to_string());
    s.chat_count = 1;
    let mut t = 0;
    while t < 61_000 {
        t += 1_000;
        s.update_timing(t);
    }
    let f = s.finalize(61_000);
    assert_eq!(f.max_idle_gaps_ms, 1_000);
    assert_eq!(f.rule_points, 25);
}

#[test]
fn long_silent_session_scores_both_rules() {
    let mut s = SessionState::new(1, 1, 0, 0, "m".to_string());
    s.update_timing(4_999);
    let f = s.finalize(1_800_001);
    assert_eq!(f.rule_points, 45);
    let g = SessionState::new(1, 1, 0, 0, "m".to_string()).finalize(1_800_000);
    // no gap recorded, but half an hour is not exceeded
    assert_eq!(g.rule_points, 25);
}

#[test]
fn long_gap_session_scores_silence_only() {
    let mut s = SessionState::new(1, 1, 0, 0, "m".to_string());
    s.update_timing(5_000);
    let f = s.finalize(2_000_000);
    assert_eq!(f.rule_points, 20);
}

#[test]
fn ip_text_is_dotted_quad() {
    assert_eq!(format_ip(0), "0.0.0.0");
    assert_eq!(format_ip(u32::MAX), "255.255.255.255");
    assert_eq!(format_ip(0x0A00_02FF), "10.0.2.255");
    assert_eq!(format_ip(0x7F00_0001), "127.0.0.1");
}
