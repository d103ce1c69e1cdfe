use std::sync::mpsc;

use vanity_ssh::keypair::{KeyPair, BATCH_SIZE};
use vanity_ssh::pattern::{public_key_matches_pattern, Pattern};
use vanity_ssh::worker::{
    find_first_match, generate_and_check_batch, new_stop_signal, request_stop, run_worker_loop,
    send_progress_update, send_success, stop_requested, tally_missed_batch, WorkerMessage,
    PROGRESS_FLUSH_THRESHOLD,
};

fn pattern(raw: &str) -> Pattern {
    match Pattern::new(String::from(raw)) {
        Ok(p) => p,
        Err(_) => panic!("pattern was rejected"),
    }
}

fn reference_scan(batch: &[KeyPair], patterns: &[Pattern]) -> Option<(usize, usize)> {
    for (ki, kp) in batch.iter().enumerate() {
        for (pi, p) in patterns.iter().enumerate() {
            if public_key_matches_pattern(kp, p) {
                return Some((ki, pi));
            }
        }
    }
    None
}

fn fixture_batch() -> Vec<KeyPair> {
    vec![
        KeyPair::from_secret([0u8; 32]),
        KeyPair::from_secret([1u8; 32]),
        KeyPair::from_secret([2u8; 32]),
        KeyPair::from_secret([3u8; 32]),
    ]
}

#[test]
fn message_constructors_carry_their_fields() {
    let p = WorkerMessage::progress(123);
    assert_eq!(p.attempts, 123);
    assert!(p.search_hit.is_none());
    let kp = KeyPair::from_secret([1u8; 32]);
    let h = WorkerMessage::hit(7, kp, 2);
    assert_eq!(h.attempts, 7);
    let hit = h.search_hit.unwrap();
    assert_eq!(hit.pattern_index, 2);
    assert_eq!(hit.key_pair.secret_key, [1u8; 32]);
}

#[test]
fn setting_the_stop_signal_twice_equals_setting_it_once() {
    let signal = new_stop_signal();
    assert!(!stop_requested(&signal));
    request_stop(&signal);
    assert!(stop_requested(&signal));
    request_stop(&signal);
    assert!(stop_requested(&signal));
}

#[test]
fn worker_observes_the_stop_signal_and_sends_nothing() {
    let (tx, rx) = mpsc::channel::<WorkerMessage>();
    let signal = new_stop_signal();
    request_stop(&signal);
    request_stop(&signal);
    let patterns = vec![pattern("AB")];
    run_worker_loop(&patterns, &tx, &signal);
    drop(tx);
    assert!(rx.try_recv().is_err());
}

#[test]
fn worker_reports_its_match_and_stops_unilaterally() {
    let (tx, rx) = mpsc::channel::<WorkerMessage>();
    let signal = new_stop_signal();
    let patterns = vec![pattern("")];
    run_worker_loop(&patterns, &tx, &signal);
    let msg = rx.recv().unwrap();
    assert_eq!(msg.attempts, BATCH_SIZE as u64);
    let hit = msg.search_hit.unwrap();
    assert_eq!(hit.pattern_index, 0);
    assert!(public_key_matches_pattern(&hit.key_pair, &patterns[0]));
    drop(tx);
    assert!(rx.try_recv().is_err());
}

#[test]
fn send_helpers_deliver_messages() {
    let (tx, rx) = mpsc::channel::<WorkerMessage>();
    assert!(send_progress_update(&tx, 500));
    let kp = KeyPair::from_secret([2u8; 32]);
    assert!(send_success(&tx, kp, 9, 0));
    let first = rx.recv().unwrap();
    assert_eq!(first.attempts, 500);
    assert!(first.search_hit.is_none());
    let second = rx.recv().unwrap();
    assert_eq!(second.attempts, 9);
    assert!(second.search_hit.is_some());
    drop(rx);
    assert!(!send_progress_update(&tx, 1));
}

#[test]
fn matcher_picks_the_same_keypair_as_a_reference_scan() {
    let batch = fixture_batch();
    let patterns = vec![pattern("yee"), pattern("")];

    let reference = reference_scan(&batch, &patterns);
    assert_eq!(find_first_match(&batch, &patterns), reference);
    // The empty suffix matches every key, so the scan cannot miss.
    assert!(reference.is_some());
    assert_eq!(reference.unwrap().0, 0);
}

#[test]
fn first_pattern_in_supplied_order_wins() {
    let batch = fixture_batch();
    // Every Ed25519 key token starts with the algorithm prefix, so both
    // patterns match every key; the reported match must use the first.
    let patterns = vec![pattern("/^AAAA/"), pattern("")];
    assert_eq!(find_first_match(&batch, &patterns), Some((0, 0)));

    let swapped = vec![pattern(""), pattern("/^AAAA/")];
    assert_eq!(find_first_match(&batch, &swapped), Some((0, 0)));
}

#[test]
fn no_pattern_no_match() {
    let batch = fixture_batch();
    let patterns: Vec<Pattern> = Vec::new();
    assert_eq!(find_first_match(&batch, &patterns), None);
}

#[test]
fn tally_flushes_on_the_threshold_floor() {
    // Far from the threshold: the batch only accumulates.
    assert_eq!(tally_missed_batch(0), (100, None));
    assert_eq!(tally_missed_batch(4200), (4300, None));
    // Landing exactly on the threshold flushes.
    assert_eq!(
        tally_missed_batch(PROGRESS_FLUSH_THRESHOLD - 100),
        (0, Some(PROGRESS_FLUSH_THRESHOLD))
    );
    // Jumping past the boundary still flushes: the comparison is a floor,
    // not an exact-equality test.
    assert_eq!(
        tally_missed_batch(PROGRESS_FLUSH_THRESHOLD - 50),
        (0, Some(PROGRESS_FLUSH_THRESHOLD + 50))
    );
}

#[test]
fn impossible_suffix_never_matches_a_batch() {
    // '_' never occurs in the base64 alphabet of the encoded-key token.
    let patterns = vec![pattern("____")];
    assert!(generate_and_check_batch(&patterns).is_none());
}

#[test]
fn generated_batch_match_respects_pattern_order() {
    let patterns = vec![pattern(""), pattern("/./")];
    let result = generate_and_check_batch(&patterns);
    let (kp, pi) = result.unwrap();
    assert_eq!(pi, 0);
    assert!(public_key_matches_pattern(&kp, &patterns[0]));
}
