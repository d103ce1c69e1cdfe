use vanity_ssh::keypair::KeyPair;
use vanity_ssh::manager::{avg_rate, format_hits_message, format_pattern_stats, ManagerState};
use vanity_ssh::pattern::Pattern;
use vanity_ssh::worker::WorkerMessage;

fn pattern(raw: &str) -> Pattern {
    match Pattern::new(String::from(raw)) {
        Ok(p) => p,
        Err(_) => panic!("pattern was rejected"),
    }
}

#[test]
fn fresh_state_is_empty() {
    let s = ManagerState::new(2);
    assert_eq!(s.total_attempts, 0);
    assert_eq!(s.attempt_history_total, 0);
    assert_eq!(s.attempt_history.len(), 0);
    assert_eq!(s.pattern_hits.len(), 2);
    assert_eq!(s.get_pattern_hits(0), 0);
    assert_eq!(s.get_pattern_hits(5), 0);
}

#[test]
fn rolling_window_keeps_only_the_last_second() {
    let mut s = ManagerState::new(0);
    s.update_attempts(100, 0);
    s.update_attempts(50, 500);
    assert_eq!(s.rolling_rate(), 150);
    s.prune_attempt_history(1400);
    assert_eq!(s.attempt_history.len(), 1);
    assert_eq!(s.attempt_history[0], (500, 50));
    assert_eq!(s.rolling_rate(), 50);
    assert_eq!(s.total_attempts, 150);
}

#[test]
fn entry_exactly_at_the_window_edge_stays() {
    let mut s = ManagerState::new(0);
    s.update_attempts(10, 0);
    s.prune_attempt_history(1000);
    assert_eq!(s.rolling_rate(), 10);
    s.prune_attempt_history(1001);
    assert_eq!(s.rolling_rate(), 0);
    assert_eq!(s.attempt_history.len(), 0);
}

#[test]
fn update_prunes_eagerly() {
    let mut s = ManagerState::new(0);
    s.update_attempts(100, 0);
    s.update_attempts(50, 500);
    s.update_attempts(7, 1400);
    assert_eq!(s.rolling_rate(), 57);
    assert_eq!(s.total_attempts, 157);
}

#[test]
fn average_rate_is_attempts_per_elapsed_second() {
    assert_eq!(avg_rate(0, 0), 0);
    assert_eq!(avg_rate(1000, 0), 0);
    assert_eq!(avg_rate(1000, 2000), 500);
    assert_eq!(avg_rate(1500, 1000), 1500);
    assert_eq!(avg_rate(u64::MAX, 1), u64::MAX);
}

#[test]
fn average_rate_rounds_to_nearest() {
    // 3 attempts over 2 seconds: 1.5 per second rounds up to 2.
    assert_eq!(avg_rate(3, 2000), 2);
    // 2 attempts over 3 seconds: 0.67 per second rounds to 1.
    assert_eq!(avg_rate(2, 3000), 1);
    // 1 attempt over 3 seconds: 0.33 per second rounds to 0.
    assert_eq!(avg_rate(1, 3000), 0);
}

#[test]
fn hits_are_stored_per_pattern_in_order() {
    let mut s = ManagerState::new(2);
    let a = KeyPair::from_secret([1u8; 32]);
    let b = KeyPair::from_secret([2u8; 32]);
    s.add_key_pair(1, a);
    s.add_key_pair(1, b);
    assert_eq!(s.get_pattern_hits(0), 0);
    assert_eq!(s.get_pattern_hits(1), 2);
    assert_eq!(s.pattern_hits[1][0].secret_key, [1u8; 32]);
    assert_eq!(s.pattern_hits[1][1].secret_key, [2u8; 32]);
}

#[test]
fn pattern_stats_exact_text() {
    assert_eq!(
        format_pattern_stats(&pattern("AB"), 1),
        "Pattern 'AB': 1 in 4,096 (est. 1h 8m)"
    );
    assert_eq!(
        format_pattern_stats(&pattern("AB"), 0),
        "Pattern 'AB': 1 in 4,096 (est. \u{221e})"
    );
    assert_eq!(
        format_pattern_stats(&pattern("/yee/"), 1000),
        "Pattern 'yee': regex pattern (no estimate)"
    );
}

#[test]
fn hits_message_exact_text() {
    assert_eq!(format_hits_message(1), "1 key found");
    assert_eq!(format_hits_message(2), "2 keys found");
    assert_eq!(format_hits_message(1500), "1,500 keys found");
}

#[test]
fn progress_message_exact_text() {
    let mut s = ManagerState::new(1);
    let patterns = vec![pattern("AB")];
    s.update_attempts(100, 0);
    let msg = s.progress_message(&patterns, 0);
    assert_eq!(
        msg,
        "Attempts: 100 | 100 keys/sec (1s) | 0 keys/sec (avg)\n\
         Pattern 'AB': 1 in 4,096 (est. \u{221e})"
    );
}

#[test]
fn progress_message_shows_hit_counter() {
    let mut s = ManagerState::new(1);
    let patterns = vec![pattern("AB")];
    s.update_attempts(4096, 1000);
    s.add_key_pair(0, KeyPair::from_secret([4u8; 32]));
    let msg = s.progress_message(&patterns, 1000);
    assert_eq!(
        msg,
        "Attempts: 4,096 | 4,096 keys/sec (1s) | 4,096 keys/sec (avg)\n\
         Pattern 'AB': 1 in 4,096 (est. 1s) | 1 key found"
    );
}

#[test]
fn progress_report_message_updates_counters_only() {
    let mut s = ManagerState::new(1);
    let patterns = vec![pattern("AB")];
    let d = s.handle_message(WorkerMessage::progress(200), 0, 0, 9, &patterns, true);
    assert!(d.hit.is_none());
    assert!(!d.stop);
    assert_eq!(s.total_attempts, 200);
    assert_eq!(s.get_pattern_hits(0), 0);
    assert_eq!(
        d.progress_message,
        "Attempts: 200 | 200 keys/sec (1s) | 0 keys/sec (avg)\n\
         Pattern 'AB': 1 in 4,096 (est. \u{221e})"
    );
}

#[test]
fn hit_message_stores_and_announces_the_match() {
    let mut s = ManagerState::new(2);
    let patterns = vec![pattern("AB"), pattern("")];
    let kp = KeyPair::from_secret([8u8; 32]);
    let d = s.handle_message(WorkerMessage::hit(50, kp, 0), 0, 0, 42, &patterns, true);
    assert!(d.stop);
    assert_eq!(s.get_pattern_hits(0), 1);
    assert_eq!(s.get_pattern_hits(1), 0);
    let hit = d.hit.unwrap();
    assert_eq!(hit.pattern_index, 0);
    assert_eq!(hit.key_pair.secret_key, [8u8; 32]);
    assert_eq!(hit.filename, "AB_42");
    assert_eq!(
        hit.found_message,
        "\u{2728} Found matching key for pattern 'Suffix: AB'"
    );
    assert_eq!(hit.saved_message, "Key saved to 'out/AB_42'");
    assert_eq!(hit.notify_message, "Found key matching pattern 'Suffix: AB'");
    // The progress message was rendered before the hit was counted.
    assert!(!d.progress_message.contains("key found"));
}

#[test]
fn hit_without_stop_after_match_continues() {
    let mut s = ManagerState::new(1);
    let patterns = vec![pattern("")];
    let kp = KeyPair::from_secret([6u8; 32]);
    let d = s.handle_message(WorkerMessage::hit(1, kp, 0), 0, 0, 1, &patterns, false);
    assert!(!d.stop);
    assert!(d.hit.is_some());
}
