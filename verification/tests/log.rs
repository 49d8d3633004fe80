use ele_bot::log::{LevelColor, LogEntry, LogLevel, LogQueue};

#[test]
fn levels() {
    assert!(!LogLevel::Info.should_show_popup());
    assert!(LogLevel::Warning.should_show_popup());
    assert!(LogLevel::Error.should_show_popup());
    assert_eq!(LogLevel::Info.prefix(), "[INFO]");
    assert_eq!(LogLevel::Warning.prefix(), "[WARN]");
    assert_eq!(LogLevel::Error.prefix(), "[ERROR]");
    assert_eq!(LogLevel::Info.color(), LevelColor::Green);
    assert_eq!(LogLevel::Warning.color(), LevelColor::Yellow);
    assert_eq!(LogLevel::Error.color(), LevelColor::Red);
    assert!(LogLevel::Info < LogLevel::Warning && LogLevel::Warning < LogLevel::Error);
}

#[test]
fn entry_with_count() {
    let mut e = LogEntry::new("hello".to_string(), LogLevel::Info);
    assert_eq!(e.message, "hello");
    assert_eq!(e.count, 1);
    assert_eq!(e.level, LogLevel::Info);
    assert_eq!(e.timestamp.len(), 8);
    assert_eq!(e.timestamp.as_bytes()[2], b':');
    assert_eq!(e.timestamp.as_bytes()[5], b':');
    assert_eq!(e.with_count(), "hello");
    e.count = 2;
    assert_eq!(e.with_count(), "hello (x2)");
    e.count = 10;
    assert_eq!(e.with_count(), "hello (x10)");
    e.count = 4294967295;
    assert_eq!(e.with_count(), "hello (x4294967295)");
    e.count = 0;
    assert_eq!(e.with_count(), "hello");
    let made = LogEntry::with_timestamp("m".to_string(), LogLevel::Error, "12:00:00".to_string(), 7);
    assert_eq!(made.with_count(), "m (x7)");
    assert_eq!(made.timestamp, "12:00:00");
    let copy = made.clone();
    assert_eq!(copy.message, "m");
    assert_eq!(copy.count, 7);
    assert_eq!(copy.level, LogLevel::Error);
}

#[test]
fn queue_merges_repeats() {
    let mut q = LogQueue::new();
    assert_eq!(q.len(), 0);
    assert!(!q.has_new_important());
    q.info("a".to_string());
    q.info("a".to_string());
    q.info("a".to_string());
    assert_eq!(q.len(), 1);
    assert_eq!(q.entries()[0].count, 3);
    assert_eq!(q.entries()[0].with_count(), "a (x3)");
    assert!(!q.has_new_important());
    q.warn("a".to_string());
    assert_eq!(q.len(), 2);
    assert!(q.has_new_important());
    q.clear_important_flag();
    assert!(!q.has_new_important());
    q.warn("a".to_string());
    assert_eq!(q.len(), 2);
    assert_eq!(q.entries()[1].count, 2);
    assert_eq!(q.entries()[1].level, LogLevel::Warning);
    assert!(q.has_new_important());
    q.info("a".to_string());
    assert_eq!(q.len(), 3);
    q.error("b".to_string());
    assert_eq!(q.len(), 4);
    let entries = q.entries();
    assert_eq!(entries[0].count, 3);
    assert_eq!(entries[2].count, 1);
    assert_eq!(entries[3].message, "b");
    assert_eq!(entries[3].level, LogLevel::Error);
    q.clear();
    assert_eq!(q.len(), 0);
    assert!(!q.has_new_important());
    assert!(q.entries().is_empty());
    q.add("a".to_string(), LogLevel::Info);
    assert_eq!(q.entries()[0].count, 1);
}

#[test]
fn queue_keeps_the_latest_fifty() {
    let mut q = LogQueue::default();
    for i in 0..60 {
        q.add(format!("m{}", i), LogLevel::Info);
    }
    assert_eq!(q.len(), 50);
    let entries = q.entries();
    assert_eq!(entries[0].message, "m10");
    assert_eq!(entries[49].message, "m59");
    q.add("m59".to_string(), LogLevel::Info);
    assert_eq!(q.len(), 50);
    assert_eq!(q.entries()[49].count, 2);
    assert_eq!(q.entries()[0].message, "m10");
    q.add("m59".to_string(), LogLevel::Error);
    assert_eq!(q.len(), 50);
    assert_eq!(q.entries()[0].message, "m11");
    assert_eq!(q.entries()[49].count, 1);
    assert!(q.has_new_important());
}

#[test]
fn info_twice_is_one_entry_of_count_two() {
    let mut q = LogQueue::new();
    q.info("a".to_string());
    q.info("a".to_string());
    assert_eq!(q.len(), 1);
    assert_eq!(q.entries()[0].count, 2);
    assert_eq!(q.entries()[0].level, LogLevel::Info);
    assert!(!q.has_new_important());
}

#[test]
fn warn_once_is_one_entry_of_count_one() {
    let mut q = LogQueue::new();
    q.warn("w".to_string());
    assert_eq!(q.len(), 1);
    assert_eq!(q.entries()[0].level, LogLevel::Warning);
    assert_eq!(q.entries()[0].count, 1);
    assert!(q.has_new_important());
}

#[test]
fn same_text_at_another_level_is_not_merged() {
    let mut q = LogQueue::new();
    q.info("x".to_string());
    q.error("x".to_string());
    assert_eq!(q.len(), 2);
    assert_eq!(q.entries()[0].count, 1);
    assert_eq!(q.entries()[0].level, LogLevel::Info);
    assert_eq!(q.entries()[1].level, LogLevel::Error);
    assert_eq!(q.entries()[1].count, 1);
    assert!(q.has_new_important());
}
