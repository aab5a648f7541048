use unifi_exporter::snapshot::SnapshotCache;

#[test]
fn cache_starts_empty() {
    assert_eq!(SnapshotCache::new().text(), "");
}

#[test]
fn publish_replaces_with_non_empty_text_only() {
    let mut c = SnapshotCache::new();
    assert!(c.publish("a 1\n".to_string()));
    assert_eq!(c.text(), "a 1\n");
    assert!(!c.publish(String::new()));
    assert_eq!(c.text(), "a 1\n");
    assert!(c.publish("b 2\n".to_string()));
    assert_eq!(c.text(), "b 2\n");
}
