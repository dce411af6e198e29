use gptranslate::dedup::{fingerprint, Deduplicator};

#[test]
fn fingerprint_is_length_dash_prefix() {
    assert_eq!(fingerprint("hello"), "5-hello");
    assert_eq!(fingerprint(""), "0-");
}

#[test]
fn fingerprint_uses_byte_length() {
    assert_eq!(fingerprint("é"), "2-é");
}

#[test]
fn fingerprint_prefix_is_fifty_characters() {
    let text: String = "x".repeat(80);
    let fp = fingerprint(&text);
    assert_eq!(fp, format!("80-{}", "x".repeat(50)));
}

#[test]
fn long_texts_sharing_prefix_and_length_collide() {
    let a = format!("{}{}", "x".repeat(50), "aaa");
    let b = format!("{}{}", "x".repeat(50), "bbb");
    assert_ne!(a, b);
    assert_eq!(fingerprint(&a), fingerprint(&b));
}

#[test]
fn duplicate_within_window_is_rejected() {
    let mut d = Deduplicator::new();
    let fp = fingerprint("some clipboard text");
    assert!(d.check_and_register(&fp, 1000));
    assert!(!d.check_and_register(&fp, 1499));
}

#[test]
fn repeat_after_window_proceeds() {
    let mut d = Deduplicator::new();
    let fp = fingerprint("some clipboard text");
    assert!(d.check_and_register(&fp, 1000));
    assert!(d.check_and_register(&fp, 1500));
}

#[test]
fn release_allows_immediate_retry() {
    let mut d = Deduplicator::new();
    let fp = fingerprint("retry me");
    assert!(d.check_and_register(&fp, 1000));
    d.release(&fp);
    assert!(d.check_and_register(&fp, 1001));
}

#[test]
fn old_entries_are_swept() {
    let mut d = Deduplicator::new();
    let fp = fingerprint("stale");
    assert!(d.check_and_register(&fp, 0));
    assert!(d.check_and_register(&fp, 6000));
}

#[test]
fn different_texts_do_not_block_each_other() {
    let mut d = Deduplicator::new();
    let a = fingerprint("first");
    let b = fingerprint("second");
    assert!(d.check_and_register(&a, 100));
    assert!(d.check_and_register(&b, 150));
}
