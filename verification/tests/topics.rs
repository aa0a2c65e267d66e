use dash89::topics::{TopicSet, TopicValues};

#[test]
fn topics_are_kept_once_and_in_order() {
    let mut topics = TopicSet::new();
    assert_eq!(topics.len(), 0);
    assert!(topics.insert("/b".to_string()));
    assert!(topics.insert("/a".to_string()));
    assert!(topics.insert("/c".to_string()));
    assert!(!topics.insert("/b".to_string()));
    assert!(topics.insert("/a/x".to_string()));
    assert_eq!(topics.len(), 4);
    assert_eq!(
        topics.names(),
        &vec![
            "/a".to_string(),
            "/a/x".to_string(),
            "/b".to_string(),
            "/c".to_string()
        ]
    );
}

#[test]
fn topics_are_found_by_name() {
    let mut topics = TopicSet::new();
    assert!(!topics.contains("/a"));
    topics.insert("/a".to_string());
    assert!(topics.contains("/a"));
    assert!(!topics.contains("/A"));
    assert!(!topics.contains("/a "));
}

#[test]
fn a_copy_of_the_topics_has_the_same_names() {
    let mut topics = TopicSet::new();
    topics.insert("/x".to_string());
    topics.insert("/w".to_string());
    let copy = topics.clone();
    assert_eq!(copy.names(), topics.names());
    assert_eq!(copy.len(), 2);
}

#[test]
fn the_last_value_of_a_topic_is_kept() {
    let mut values = TopicValues::new();
    assert_eq!(values.get("/speed"), None);
    values.insert("/speed".to_string(), "1.5".to_string());
    values.insert("/angle".to_string(), "90".to_string());
    assert_eq!(values.get("/speed"), Some(&"1.5".to_string()));
    assert_eq!(values.get("/angle"), Some(&"90".to_string()));
    values.insert("/speed".to_string(), "2.5".to_string());
    assert_eq!(values.get("/speed"), Some(&"2.5".to_string()));
    assert_eq!(values.get("/angle"), Some(&"90".to_string()));
    assert_eq!(values.get("/other"), None);
}
