use channel_bench::message::{random_payload, Data};

#[test]
fn new_keeps_payload_and_flag() {
    let d = Data::new(vec![1, 2, 3], true);
    assert_eq!(d.data, vec![1, 2, 3]);
    assert!(d.kill);
    let d = Data::new(Vec::new(), false);
    assert!(d.data.is_empty());
    assert!(!d.kill);
}

#[test]
fn default_is_empty_and_not_kill() {
    let d = Data::default();
    assert!(d.data.is_empty());
    assert!(!d.kill);
}

#[test]
fn clone_keeps_everything() {
    let d = Data::new(vec![9; 4], false);
    let c = d.clone();
    assert_eq!(c.data, d.data);
    assert_eq!(c.kill, d.kill);
    assert!(c.time == d.time);
}

#[test]
fn message_time_is_taken_at_creation() {
    let before = minstant::Instant::now();
    let d = Data::new(vec![], false);
    let after = minstant::Instant::now();
    assert!(before <= d.time && d.time <= after);
}

#[test]
fn payload_has_requested_length() {
    assert_eq!(random_payload(0).len(), 0);
    assert_eq!(random_payload(1).len(), 1);
    assert_eq!(random_payload(1000).len(), 1000);
}

#[test]
fn payload_is_random() {
    let a = random_payload(64);
    let b = random_payload(64);
    assert!(a.iter().any(|&x| x != 0));
    assert_ne!(a, b);
}
