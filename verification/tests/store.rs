use clip_history::record::{ContentTypes, HistoryRecord};
use clip_history::store::{HistoryStore, StoreError};

fn text(store: &mut HistoryStore, content: &str, app: &str, now: i64) -> Result<i64, StoreError> {
    store.upsert(
        ContentTypes::TEXT,
        content.as_bytes().to_vec(),
        app.to_string(),
        format!("/icons/{}.png", app),
        now,
    )
}

fn ids(records: &[HistoryRecord]) -> Vec<i64> {
    records.iter().map(|r| r.id).collect()
}

#[test]
fn new_store_is_empty() {
    let store = HistoryStore::new();
    assert_eq!(store.len(), 0);
    assert!(store.list_all().is_empty());
    assert!(store.list_recent(10).is_empty());
    assert!(store.search("").is_empty());
    assert!(store.get(1).is_none());
}

#[test]
fn ids_start_at_one_and_count_up() {
    let mut store = HistoryStore::new();
    assert_eq!(text(&mut store, "a", "Code", 10), Ok(1));
    assert_eq!(text(&mut store, "b", "Code", 20), Ok(2));
    assert_eq!(text(&mut store, "c", "Code", 30), Ok(3));
    assert_eq!(store.len(), 3);
}

#[test]
fn upsert_keeps_every_field_of_a_new_record() {
    let mut store = HistoryStore::new();
    let id = store
        .upsert(
            ContentTypes::IMAGE,
            vec![1, 2, 3],
            "Preview".to_string(),
            "/icons/Preview.png".to_string(),
            77,
        )
        .unwrap();
    let all = store.list_all();
    assert_eq!(
        all,
        vec![HistoryRecord {
            id,
            source_app: "Preview".to_string(),
            icon_path: "/icons/Preview.png".to_string(),
            content_type: ContentTypes::IMAGE,
            content: vec![1, 2, 3],
            timestamp: 77,
        }]
    );
}

#[test]
fn same_content_twice_is_one_record_with_the_second_context() {
    let mut store = HistoryStore::new();
    let first = text(&mut store, "Hello", "Code", 100).unwrap();
    text(&mut store, "other", "Code", 150).unwrap();
    let second = text(&mut store, "Hello", "Notes", 200).unwrap();
    assert_eq!(first, second);
    assert_eq!(store.len(), 2);
    let all = store.list_all();
    let hello: Vec<&HistoryRecord> = all.iter().filter(|r| r.content == b"Hello").collect();
    assert_eq!(hello.len(), 1);
    assert_eq!(hello[0].id, first);
    assert_eq!(hello[0].source_app, "Notes");
    assert_eq!(hello[0].icon_path, "/icons/Notes.png");
    assert_eq!(hello[0].timestamp, 200);
    assert_eq!(hello[0].content_type, ContentTypes::TEXT);
}

#[test]
fn same_bytes_of_another_kind_are_other_content() {
    let mut store = HistoryStore::new();
    let a = store
        .upsert(ContentTypes::TEXT, vec![65], "A".to_string(), String::new(), 1)
        .unwrap();
    let b = store
        .upsert(ContentTypes::IMAGE, vec![65], "A".to_string(), String::new(), 2)
        .unwrap();
    assert_ne!(a, b);
    assert_eq!(store.len(), 2);
}

#[test]
fn identity_is_exact_to_the_byte() {
    let mut store = HistoryStore::new();
    let a = text(&mut store, "Hello", "Code", 1).unwrap();
    let b = text(&mut store, "hello", "Code", 2).unwrap();
    let c = text(&mut store, "Hello ", "Code", 3).unwrap();
    assert_eq!((a, b, c), (1, 2, 3));
    assert_eq!(store.len(), 3);
}

#[test]
fn records_are_listed_newest_first_whatever_the_order_of_capture() {
    let mut store = HistoryStore::new();
    text(&mut store, "middle", "Code", 20).unwrap();
    text(&mut store, "oldest", "Code", 10).unwrap();
    text(&mut store, "newest", "Code", 30).unwrap();
    let all = store.list_all();
    let stamps: Vec<i64> = all.iter().map(|r| r.timestamp).collect();
    assert_eq!(stamps, vec![30, 20, 10]);
    assert_eq!(ids(&all), vec![3, 1, 2]);
}

#[test]
fn of_two_records_of_one_instant_the_later_written_comes_first() {
    let mut store = HistoryStore::new();
    text(&mut store, "a", "Code", 10).unwrap();
    text(&mut store, "b", "Code", 10).unwrap();
    text(&mut store, "c", "Code", 5).unwrap();
    text(&mut store, "d", "Code", 10).unwrap();
    assert_eq!(ids(&store.list_all()), vec![4, 2, 1, 3]);
}

#[test]
fn recapture_moves_the_record_to_its_new_place() {
    let mut store = HistoryStore::new();
    text(&mut store, "a", "Code", 10).unwrap();
    text(&mut store, "b", "Code", 20).unwrap();
    text(&mut store, "c", "Code", 30).unwrap();
    text(&mut store, "a", "Code", 25).unwrap();
    assert_eq!(ids(&store.list_all()), vec![3, 1, 2]);
    text(&mut store, "b", "Code", 40).unwrap();
    assert_eq!(ids(&store.list_all()), vec![2, 3, 1]);
}

#[test]
fn touch_changes_the_timestamp_and_nothing_else() {
    let mut store = HistoryStore::new();
    text(&mut store, "a", "Code", 10).unwrap();
    text(&mut store, "b", "Notes", 20).unwrap();
    let before = store.get(1).unwrap();
    assert_eq!(store.touch(1, 30), Ok(()));
    let after = store.get(1).unwrap();
    assert_eq!(after.id, before.id);
    assert_eq!(after.content_type, before.content_type);
    assert_eq!(after.content, before.content);
    assert_eq!(after.source_app, before.source_app);
    assert_eq!(after.icon_path, before.icon_path);
    assert_eq!(after.timestamp, 30);
    assert!(after.timestamp >= before.timestamp);
    assert_eq!(ids(&store.list_all()), vec![1, 2]);
    assert_eq!(store.len(), 2);
    assert_eq!(store.get(2).unwrap().timestamp, 20);
}

#[test]
fn touch_of_an_unknown_id_fails_and_changes_nothing() {
    let mut store = HistoryStore::new();
    text(&mut store, "a", "Code", 10).unwrap();
    let before = store.list_all();
    assert_eq!(store.touch(2, 30), Err(StoreError::NotFound));
    assert_eq!(store.touch(0, 30), Err(StoreError::NotFound));
    assert_eq!(store.touch(-1, 30), Err(StoreError::NotFound));
    assert_eq!(store.list_all(), before);
}

#[test]
fn touch_sets_the_instant_it_is_given_even_an_earlier_one() {
    let mut store = HistoryStore::new();
    text(&mut store, "a", "Code", 10).unwrap();
    text(&mut store, "b", "Code", 20).unwrap();
    assert_eq!(store.touch(2, 5), Ok(()));
    assert_eq!(store.get(2).unwrap().timestamp, 5);
    assert_eq!(ids(&store.list_all()), vec![1, 2]);
}

#[test]
fn list_recent_returns_the_newest() {
    let mut store = HistoryStore::new();
    text(&mut store, "a", "Code", 10).unwrap();
    text(&mut store, "b", "Code", 20).unwrap();
    text(&mut store, "c", "Code", 30).unwrap();
    assert_eq!(ids(&store.list_recent(1)), vec![3]);
    assert_eq!(ids(&store.list_recent(2)), vec![3, 2]);
    assert_eq!(ids(&store.list_recent(3)), vec![3, 2, 1]);
    assert_eq!(ids(&store.list_recent(4)), vec![3, 2, 1]);
    assert_eq!(ids(&store.list_recent(i64::MAX)), vec![3, 2, 1]);
}

#[test]
fn list_recent_of_zero_or_less_is_empty() {
    let mut store = HistoryStore::new();
    text(&mut store, "a", "Code", 10).unwrap();
    assert!(store.list_recent(0).is_empty());
    assert!(store.list_recent(-1).is_empty());
    assert!(store.list_recent(i64::MIN).is_empty());
}

#[test]
fn search_finds_text_that_holds_the_term() {
    let mut store = HistoryStore::new();
    text(&mut store, "Hello World", "Code", 10).unwrap();
    text(&mut store, "Goodbye", "Code", 20).unwrap();
    text(&mut store, "Say hello", "Code", 30).unwrap();
    assert_eq!(ids(&store.search("Hello")), vec![3, 1]);
    assert_eq!(ids(&store.search("World")), vec![1]);
    assert_eq!(ids(&store.search("o")), vec![3, 2, 1]);
    assert!(store.search("absent").is_empty());
    assert!(store.search("Hello World!").is_empty());
}

#[test]
fn search_ignores_the_case_of_ascii_letters_only() {
    let mut store = HistoryStore::new();
    text(&mut store, "Straße ÄÖÜ", "Code", 10).unwrap();
    assert_eq!(ids(&store.search("STRA")), vec![1]);
    assert_eq!(ids(&store.search("straße")), vec![1]);
    assert_eq!(ids(&store.search("ÄÖÜ")), vec![1]);
    assert!(store.search("äöü").is_empty());
    assert!(store.search("STRASSE").is_empty());
}

#[test]
fn search_never_returns_an_image() {
    let mut store = HistoryStore::new();
    store
        .upsert(ContentTypes::IMAGE, b"Hello".to_vec(), "Preview".to_string(), String::new(), 10)
        .unwrap();
    text(&mut store, "Hello", "Code", 5).unwrap();
    assert_eq!(ids(&store.search("Hello")), vec![2]);
    assert_eq!(ids(&store.search("")), vec![2]);
}

#[test]
fn search_for_the_empty_term_finds_every_text() {
    let mut store = HistoryStore::new();
    text(&mut store, "", "Code", 10).unwrap();
    text(&mut store, "x", "Code", 20).unwrap();
    assert_eq!(ids(&store.search("")), vec![2, 1]);
    assert_eq!(ids(&store.search("x")), vec![2]);
}

#[test]
fn search_takes_percent_and_underscore_as_they_are() {
    let mut store = HistoryStore::new();
    text(&mut store, "100% sure", "Code", 10).unwrap();
    text(&mut store, "a_b", "Code", 20).unwrap();
    text(&mut store, "axb", "Code", 30).unwrap();
    assert_eq!(ids(&store.search("%")), vec![1]);
    assert_eq!(ids(&store.search("a_b")), vec![2]);
}

#[test]
fn get_returns_the_record_of_the_id() {
    let mut store = HistoryStore::new();
    text(&mut store, "a", "Code", 10).unwrap();
    text(&mut store, "b", "Notes", 20).unwrap();
    let b = store.get(2).unwrap();
    assert_eq!(b.content, b"b");
    assert_eq!(b.source_app, "Notes");
    assert!(store.get(3).is_none());
}

#[test]
fn restore_takes_a_record_in_with_its_id() {
    let mut store = HistoryStore::new();
    let record = HistoryRecord {
        id: 41,
        source_app: "Code".to_string(),
        icon_path: String::new(),
        content_type: ContentTypes::TEXT,
        content: b"saved".to_vec(),
        timestamp: 10,
    };
    assert!(store.restore(record.clone()));
    assert_eq!(store.list_all(), vec![record]);
    assert_eq!(text(&mut store, "new", "Code", 20), Ok(42));
}

#[test]
fn restore_refuses_an_id_or_a_content_that_is_there() {
    let mut store = HistoryStore::new();
    text(&mut store, "a", "Code", 10).unwrap();
    let same_id = HistoryRecord {
        id: 1,
        source_app: "Code".to_string(),
        icon_path: String::new(),
        content_type: ContentTypes::TEXT,
        content: b"b".to_vec(),
        timestamp: 20,
    };
    let same_content = HistoryRecord {
        id: 2,
        source_app: "Code".to_string(),
        icon_path: String::new(),
        content_type: ContentTypes::TEXT,
        content: b"a".to_vec(),
        timestamp: 20,
    };
    let before = store.list_all();
    assert!(!store.restore(same_id));
    assert!(!store.restore(same_content));
    assert_eq!(store.list_all(), before);
    assert_eq!(text(&mut store, "c", "Code", 30), Ok(2));
}

#[test]
fn restore_of_a_lower_id_does_not_lower_the_next_id() {
    let mut store = HistoryStore::new();
    text(&mut store, "a", "Code", 10).unwrap();
    text(&mut store, "b", "Code", 20).unwrap();
    let low = HistoryRecord {
        id: -5,
        source_app: "Code".to_string(),
        icon_path: String::new(),
        content_type: ContentTypes::TEXT,
        content: b"low".to_vec(),
        timestamp: 15,
    };
    assert!(store.restore(low));
    assert_eq!(ids(&store.list_all()), vec![2, -5, 1]);
    assert_eq!(text(&mut store, "c", "Code", 30), Ok(3));
}

#[test]
fn new_content_is_refused_once_the_ids_are_used_up() {
    let mut store = HistoryStore::new();
    let last = HistoryRecord {
        id: i64::MAX,
        source_app: "Code".to_string(),
        icon_path: String::new(),
        content_type: ContentTypes::TEXT,
        content: b"last".to_vec(),
        timestamp: 10,
    };
    assert!(store.restore(last));
    let before = store.list_all();
    assert_eq!(text(&mut store, "new", "Code", 20), Err(StoreError::Exhausted));
    assert_eq!(store.list_all(), before);
    assert_eq!(text(&mut store, "last", "Notes", 30), Ok(i64::MAX));
    assert_eq!(store.get(i64::MAX).unwrap().source_app, "Notes");
    assert_eq!(store.len(), 1);
}

#[test]
fn a_search_returns_each_record_once() {
    let mut store = HistoryStore::new();
    text(&mut store, "aaaa", "Code", 10).unwrap();
    text(&mut store, "aa aa", "Code", 20).unwrap();
    text(&mut store, "b", "Code", 30).unwrap();
    assert_eq!(ids(&store.search("a")), vec![2, 1]);
    assert_eq!(ids(&store.search("aa")), vec![2, 1]);
}
