use config_watcher::features::FeatureFlags;

#[test]
fn new_flags_are_empty() {
    let flags = FeatureFlags::new();
    assert!(flags.is_empty());
    assert_eq!(flags.len(), 0);
    assert_eq!(flags.enabled_count(), 0);
    assert_eq!(flags.get("feature1"), None);
    assert!(flags.entries().is_empty());
}

#[test]
fn insert_sets_and_replaces() {
    let mut flags = FeatureFlags::new();
    assert_eq!(flags.insert("feature1".to_string(), true), None);
    assert_eq!(flags.insert("feature2".to_string(), false), None);
    assert_eq!(flags.len(), 2);
    assert!(!flags.is_empty());
    assert_eq!(flags.get("feature1"), Some(true));
    assert_eq!(flags.get("feature2"), Some(false));
    assert_eq!(flags.get("feature"), None);
    assert_eq!(flags.get("feature11"), None);

    assert_eq!(flags.insert("feature1".to_string(), false), Some(true));
    assert_eq!(flags.len(), 2);
    assert_eq!(flags.get("feature1"), Some(false));
    assert_eq!(flags.get("feature2"), Some(false));
}

#[test]
fn enabled_count_counts_names_switched_on() {
    let mut flags = FeatureFlags::new();
    flags.insert("a".to_string(), true);
    flags.insert("b".to_string(), false);
    flags.insert("c".to_string(), true);
    assert_eq!(flags.enabled_count(), 2);
    flags.insert("a".to_string(), false);
    assert_eq!(flags.enabled_count(), 1);
    flags.insert("b".to_string(), true);
    flags.insert("a".to_string(), true);
    assert_eq!(flags.enabled_count(), 3);
}

#[test]
fn entries_list_each_name_once() {
    let mut flags = FeatureFlags::new();
    flags.insert("a".to_string(), true);
    flags.insert("b".to_string(), false);
    flags.insert("a".to_string(), false);
    assert_eq!(flags.entries(), &vec![("a".to_string(), false), ("b".to_string(), false)]);
}

#[test]
fn flags_are_equal_whatever_the_order() {
    let mut left = FeatureFlags::new();
    left.insert("a".to_string(), true);
    left.insert("b".to_string(), false);
    let mut right = FeatureFlags::new();
    right.insert("b".to_string(), false);
    assert_ne!(left, right);
    right.insert("a".to_string(), true);
    assert_eq!(left, right);
    assert_eq!(left.clone(), left);

    right.insert("b".to_string(), true);
    assert_ne!(left, right);

    let mut other_names = FeatureFlags::new();
    other_names.insert("a".to_string(), true);
    other_names.insert("c".to_string(), false);
    assert_ne!(left, other_names);
    assert_eq!(FeatureFlags::new(), FeatureFlags::new());
}

#[test]
fn names_are_compared_character_by_character() {
    let mut flags = FeatureFlags::new();
    flags.insert("caf\u{e9}".to_string(), true);
    flags.insert("cafe\u{301}".to_string(), false);
    flags.insert("".to_string(), true);
    assert_eq!(flags.len(), 3);
    assert_eq!(flags.get("caf\u{e9}"), Some(true));
    assert_eq!(flags.get("cafe\u{301}"), Some(false));
    assert_eq!(flags.get(""), Some(true));
    assert_eq!(flags.get("cafe"), None);
}
