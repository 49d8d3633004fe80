use ele_bot::voice::{is_wake_word, is_wake_word_in, normalize, AudioChunker, WakeEvent};

#[test]
fn wake_words() {
    assert!(is_wake_word("小波"));
    assert!(is_wake_word("你好小波你在吗"));
    assert!(is_wake_word("晓波"));
    assert!(is_wake_word("小博 来"));
    assert!(is_wake_word("嘿 笑波"));
    assert!(is_wake_word("晓博"));
    assert!(!is_wake_word(""));
    assert!(!is_wake_word("小 波"));
    assert!(!is_wake_word("波小"));
    assert!(!is_wake_word("hello"));
    assert!(is_wake_word_in("abc小波"));
    assert!(!is_wake_word_in("abc"));
}

#[test]
fn texts_are_compared_in_lower_case() {
    assert_eq!(normalize("Hello XIAO Bo"), "hello xiao bo");
    assert_eq!(normalize("小波"), "小波");
    assert_eq!(normalize(""), "");
}

#[test]
fn wake_event_holds_its_text() {
    let e = WakeEvent { text: "小波".to_string() };
    let copy = e.clone();
    assert_eq!(copy.text, "小波");
}

#[test]
fn chunker_hands_out_whole_pieces() {
    let mut c = AudioChunker::new();
    assert!(c.next_chunk().is_none());
    let samples: Vec<i16> = (0..1000).collect();
    c.push(&samples);
    assert!(c.next_chunk().is_none());
    let more: Vec<i16> = (1000..4000).collect();
    c.push(&more);
    let first = c.next_chunk().unwrap();
    assert_eq!(first.len(), 1600);
    assert_eq!(first[0], 0);
    assert_eq!(first[1599], 1599);
    let second = c.next_chunk().unwrap();
    assert_eq!(second[0], 1600);
    assert_eq!(second[1599], 3199);
    assert!(c.next_chunk().is_none());
    c.push(&(4000..4800).collect::<Vec<i16>>());
    let third = c.next_chunk().unwrap();
    assert_eq!(third[0], 3200);
    assert_eq!(third[1599], 4799);
    assert!(c.next_chunk().is_none());
}
