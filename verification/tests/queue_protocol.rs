use onsen_compo::queue::has_lock_suffix;
use onsen_compo::queue::order_candidates;
use onsen_compo::queue::reached_limit;
use onsen_compo::queue::OrderFile;
use onsen_compo::queue::OrderFileState;
use onsen_compo::queue::QueueError;

#[test]
fn it_recognizes_the_lock_extension() {
    assert!(has_lock_suffix("p1_o.json.lock"));
    assert!(has_lock_suffix(".lock"));
    assert!(!has_lock_suffix("p1_o.json"));
    assert!(!has_lock_suffix("lock"));
    assert!(!has_lock_suffix(""));
    assert!(!has_lock_suffix("p1_o.locker"));
}

#[test]
fn it_scans_only_unlocked_entries() {
    let entries = vec![
        "p1_o.json".to_string(),
        "p1_o.json.lock".to_string(),
        "p2_t256.json".to_string(),
        "p3_p1600.json.lock".to_string(),
    ];
    let candidates = order_candidates(&entries);
    assert_eq!(candidates, vec!["p1_o.json".to_string(), "p2_t256.json".to_string()]);
}

#[test]
fn it_scans_nothing_from_a_drained_queue() {
    let candidates = order_candidates(&Vec::new());
    assert!(candidates.is_empty());
}

#[test]
fn it_walks_the_claim_lifecycle() {
    let mut file = OrderFile::new("/data/comments/order/p1_o.json");
    assert_eq!(file.current_state(), OrderFileState::Pending);
    assert_eq!(file.current_path().unwrap(), "/data/comments/order/p1_o.json");
    assert_eq!(
        file.lock_target().unwrap(),
        "/data/comments/order/p1_o.json.lock"
    );

    file.on_claimed();
    assert_eq!(file.current_state(), OrderFileState::Locked);
    assert_eq!(
        file.current_path().unwrap(),
        "/data/comments/order/p1_o.json.lock"
    );

    file.on_completed();
    assert_eq!(file.current_state(), OrderFileState::Gone);
    assert!(file.current_path().is_none());
}

#[test]
fn it_refuses_a_lock_target_once_gone() {
    let mut file = OrderFile::new("q/p1_o.json");
    file.on_claimed();
    file.on_completed();
    assert_eq!(file.lock_target().unwrap_err(), QueueError::Deleted);
}

#[test]
fn it_stops_at_the_batch_bound() {
    assert!(!reached_limit(0, &None));
    assert!(!reached_limit(1000, &None));
    assert!(!reached_limit(1, &Some(2)));
    assert!(reached_limit(2, &Some(2)));
    assert!(reached_limit(3, &Some(2)));
    assert!(reached_limit(0, &Some(0)));
}
