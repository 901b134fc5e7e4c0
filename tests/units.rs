use bongo_cat::animation::{AssetKind, AssetPaths};
use bongo_cat::app::BongoCatApp;
use bongo_cat::config::{asset_dir, db_path};
use bongo_cat::database::{counter_text, decode_count, read_counter, ReadError, StoredValue};
use bongo_cat::writer::{PersistenceWriter, WriterCommand, WriterPhase};
use bongo_cat::input::{
    has_keyboard_keys, is_event_node, is_key_down, key_down_count, should_listen, EventKind, RawEvent,
};

#[test]
fn db_path_joins_with_separator() {
    assert_eq!(db_path("/home/u/.config/bongo-cat"), "/home/u/.config/bongo-cat/sqlite.db");
    assert_eq!(db_path("/tmp/"), "/tmp/sqlite.db");
    assert_eq!(db_path(""), "sqlite.db");
}

#[test]
fn asset_dir_prefers_override() {
    assert_eq!(asset_dir(Some("/x"), Some("/cfg")), Some("/x".to_string()));
    assert_eq!(asset_dir(None, Some("/cfg")), Some("/cfg/bongo-cat".to_string()));
    assert_eq!(asset_dir(None, None), None);
}

#[test]
fn asset_paths_in_dir() {
    let p = AssetPaths::new("/d");
    assert_eq!(p.idle, "/d/idle.png");
    assert_eq!(p.hit_left, "/d/hit_left.png");
    assert_eq!(p.hit_right, "/d/hit_right.png");
}

#[test]
fn first_missing_asset_in_order() {
    assert_eq!(AssetPaths::first_missing(true, true, true), None);
    assert_eq!(AssetPaths::first_missing(false, false, true), Some(AssetKind::Idle));
    assert_eq!(AssetPaths::first_missing(true, false, false), Some(AssetKind::HitLeft));
    assert_eq!(AssetPaths::first_missing(true, true, false), Some(AssetKind::HitRight));
}

#[test]
fn decode_errors() {
    assert_eq!(decode_count(&StoredValue::Integer(5)), Err(ReadError::NotText));
    assert_eq!(decode_count(&StoredValue::Null), Err(ReadError::NotText));
    assert_eq!(decode_count(&StoredValue::Text("12a".to_string())), Err(ReadError::InvalidNumber));
    assert_eq!(decode_count(&StoredValue::Text(String::new())), Err(ReadError::InvalidNumber));
    assert_eq!(decode_count(&StoredValue::Text("-1".to_string())), Err(ReadError::InvalidNumber));
    assert_eq!(
        decode_count(&StoredValue::Text("340282366920938463463374607431768211456".to_string())),
        Err(ReadError::InvalidNumber)
    );
}

#[test]
fn decode_accepts_plus_and_leading_zeros() {
    assert_eq!(decode_count(&StoredValue::Text("+17".to_string())), Ok(17));
    assert_eq!(decode_count(&StoredValue::Text("007".to_string())), Ok(7));
    assert_eq!(
        decode_count(&StoredValue::Text("340282366920938463463374607431768211455".to_string())),
        Ok(u128::MAX)
    );
}

#[test]
fn read_counter_without_row() {
    assert_eq!(read_counter(None), Ok(None));
    assert_eq!(read_counter(Some(&StoredValue::Blob(vec![1]))), Err(ReadError::NotText));
}

#[test]
fn counter_text_is_decimal() {
    assert_eq!(counter_text(0), "0");
    assert_eq!(counter_text(1234), "1234");
    assert_eq!(counter_text(u128::MAX), "340282366920938463463374607431768211455");
}

#[test]
fn writer_inserts_only_when_nothing_updated() {
    let mut w = PersistenceWriter::new();
    assert!(matches!(w.on_connect(true), WriterCommand::Receive));
    assert!(matches!(w.on_value(Some(12)), WriterCommand::Update(ref t) if t == "12"));
    assert!(matches!(w.on_update(Some(1)), WriterCommand::Receive));
    assert!(matches!(w.on_value(Some(13)), WriterCommand::Update(_)));
    assert!(matches!(w.on_update(Some(0)), WriterCommand::Insert(ref t) if t == "13"));
    assert_eq!(w.phase(), WriterPhase::Inserting);
    assert!(matches!(w.on_insert(), WriterCommand::Receive));
    assert!(matches!(w.on_value(Some(14)), WriterCommand::Update(_)));
    assert!(matches!(w.on_update(None), WriterCommand::Receive));
    assert!(matches!(w.on_value(None), WriterCommand::Exit));
    assert_eq!(w.phase(), WriterPhase::Stopped);
}

#[test]
fn writer_stops_when_connection_fails() {
    let mut w = PersistenceWriter::new();
    assert_eq!(w.phase(), WriterPhase::Connecting);
    assert!(matches!(w.on_connect(false), WriterCommand::Exit));
    assert_eq!(w.phase(), WriterPhase::Stopped);
}

#[test]
fn initialize_defaults_to_zero() {
    let mut app = BongoCatApp::new();
    assert_eq!(app.current(), 0);
    assert_eq!(app.initialize(None), 0);
    assert_eq!(app.initialize(Some(9)), 9);
    assert_eq!(app.increment(), 10);
}

#[test]
fn key_down_only_for_key_presses() {
    assert!(is_key_down(&RawEvent { kind: EventKind::Key, value: 1 }));
    assert!(!is_key_down(&RawEvent { kind: EventKind::Key, value: 2 }));
    assert!(!is_key_down(&RawEvent { kind: EventKind::Key, value: 0 }));
    assert!(!is_key_down(&RawEvent { kind: EventKind::Other, value: 1 }));
    assert_eq!(key_down_count(&Vec::new()), 0);
}

#[test]
fn keyboard_detection() {
    assert!(has_keyboard_keys(Some(&vec![1, 30, 31])));
    assert!(!has_keyboard_keys(Some(&vec![272, 273])));
    assert!(!has_keyboard_keys(None));
    assert!(is_event_node("event3"));
    assert!(!is_event_node("mouse0"));
    assert!(!is_event_node("even"));
    assert!(should_listen("event0", Some(&vec![30])));
    assert!(!should_listen("js0", Some(&vec![30])));
    assert!(!should_listen("event0", Some(&vec![272])));
}
