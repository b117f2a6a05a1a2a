use clip_history::capture::{save_image, save_text, update_timestamp, FocusContext};
use clip_history::codec::RawImage;
use clip_history::queries::{get_all_records, get_recent_records, search_text, to_items};
use clip_history::record::{ContentTypes, HistoryRecord, Item};
use clip_history::store::{HistoryStore, StoreError};

fn focus(app: &str) -> FocusContext {
    FocusContext { app_name: app.to_string(), icon_path: format!("/foo/bar/{}.png", app) }
}

fn filled() -> HistoryStore {
    let mut store = HistoryStore::new();
    save_text(&mut store, "Hello World", &focus("Code"), 1766856481).unwrap();
    save_text(&mut store, "second", &focus("Notes"), 1766856482).unwrap();
    let image = RawImage { width: 1, height: 1, bytes: vec![0, 0, 0, 255] };
    save_image(&mut store, &image, &focus("Preview"), 1766856483).unwrap();
    store
}

#[test]
fn all_records_are_shown_newest_first() {
    let store = filled();
    let items = get_all_records(&store);
    let ids: Vec<i64> = items.iter().map(|i| i.id).collect();
    assert_eq!(ids, vec![3, 2, 1]);
    assert_eq!(
        items[2],
        Item {
            id: 1,
            source_app: "Code".to_string(),
            icon_path: "/foo/bar/Code.png".to_string(),
            content_type: ContentTypes::TEXT,
            content: "Hello World".to_string(),
            timestamp: 1766856481,
        }
    );
    assert_eq!(items[0].content_type, ContentTypes::IMAGE);
    assert!(items[0].content.starts_with("iVBORw0KGgo"));
}

#[test]
fn the_recent_records_are_a_prefix_of_all() {
    let store = filled();
    let all = get_all_records(&store);
    assert_eq!(get_recent_records(&store, 1), all[..1].to_vec());
    assert_eq!(get_recent_records(&store, 2), all[..2].to_vec());
    assert_eq!(get_recent_records(&store, 3), all);
    assert_eq!(get_recent_records(&store, 100), all);
    assert!(get_recent_records(&store, 0).is_empty());
    assert!(get_recent_records(&store, -3).is_empty());
}

#[test]
fn a_search_shows_the_matching_text_only() {
    let store = filled();
    let hits = search_text(&store, "Hello World");
    assert_eq!(hits.len(), 1);
    assert_eq!(hits[0].id, 1);
    assert_eq!(hits[0].content, "Hello World");
    let hits = search_text(&store, "o");
    let ids: Vec<i64> = hits.iter().map(|i| i.id).collect();
    assert_eq!(ids, vec![2, 1]);
    assert!(search_text(&store, "iVBOR").is_empty());
    assert!(search_text(&store, "PNG").is_empty());
}

#[test]
fn a_record_used_again_moves_to_the_front() {
    let mut store = filled();
    assert_eq!(update_timestamp(&mut store, 1), Ok(()));
    let items = get_all_records(&store);
    let ids: Vec<i64> = items.iter().map(|i| i.id).collect();
    assert_eq!(ids, vec![1, 3, 2]);
    assert!(items[0].timestamp > 1766856483);
    assert_eq!(items[0].content, "Hello World");
    assert_eq!(items[0].source_app, "Code");
    assert_eq!(items[0].icon_path, "/foo/bar/Code.png");
}

#[test]
fn using_an_unknown_record_again_fails() {
    let mut store = filled();
    let before = get_all_records(&store);
    assert_eq!(update_timestamp(&mut store, 4), Err(StoreError::NotFound));
    assert_eq!(get_all_records(&store), before);
}

#[test]
fn records_are_shown_one_for_one() {
    let records = vec![
        HistoryRecord {
            id: 2,
            source_app: "A".to_string(),
            icon_path: "a".to_string(),
            content_type: ContentTypes::IMAGE,
            content: vec![1, 2, 3],
            timestamp: 9,
        },
        HistoryRecord {
            id: 1,
            source_app: "B".to_string(),
            icon_path: "b".to_string(),
            content_type: ContentTypes::TEXT,
            content: b"text".to_vec(),
            timestamp: 8,
        },
    ];
    let items = to_items(&records);
    assert_eq!(items.len(), 2);
    assert_eq!(items[0].content, "AQID");
    assert_eq!(items[0].id, 2);
    assert_eq!(items[1].content, "text");
    assert_eq!(items[1].source_app, "B");
    assert!(to_items(&Vec::new()).is_empty());
}

#[test]
fn a_picture_with_too_few_bytes_is_saved_empty() {
    let mut store = HistoryStore::new();
    let short = RawImage { width: 2, height: 2, bytes: vec![0; 15] };
    assert_eq!(save_image(&mut store, &short, &focus("Preview"), 10), Ok(1));
    let shorter = RawImage { width: 3, height: 1, bytes: vec![1; 11] };
    assert_eq!(save_image(&mut store, &shorter, &focus("Finder"), 20), Ok(1));
    let all = store.list_all();
    assert_eq!(all.len(), 1);
    assert!(all[0].content.is_empty());
    assert_eq!(all[0].content_type, ContentTypes::IMAGE);
    assert_eq!(all[0].source_app, "Finder");
    assert_eq!(get_all_records(&store)[0].content, "");
}
