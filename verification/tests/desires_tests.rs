use desires::config::{parse_u16, port_or_default, PoolConfig};
use desires::handlers::{
    create_desire, delete_desire, get_desires, update_desire, CreateError, NotFound, UpdateError,
};
use desires::models::{apply_patch, CreateDesire, Desire, Priority, RowData, RowError, UpdateDesire};
use desires::store::DesireStore;

fn body(name: &str) -> CreateDesire {
    CreateDesire {
        name: name.to_string(),
        importance: Priority::High,
        urgency: Priority::Low,
        image_url: None,
        web_url: None,
        note: None,
        x: None,
        y: None,
        fulfilled_date: None,
        occurred_date: None,
    }
}

fn no_change() -> UpdateDesire {
    UpdateDesire {
        name: None,
        importance: None,
        urgency: None,
        image_url: None,
        web_url: None,
        note: None,
        x: None,
        y: None,
        fulfilled_date: None,
        occurred_date: None,
    }
}

fn full_row() -> RowData {
    RowData {
        id: Some(11),
        name: Some("lamp".to_string()),
        importance: Some("low".to_string()),
        urgency: Some("high".to_string()),
        image_url: Some("http://img".to_string()),
        web_url: None,
        note: Some("soon".to_string()),
        x: Some(1.5f64.to_bits()),
        y: None,
        created_at: Some(777),
        fulfilled_date: None,
        occurred_date: Some(900),
    }
}

#[test]
fn created_entities_listed_in_creation_order() {
    let mut st = DesireStore::new();
    create_desire(&mut st, body("c"), 3, 300).unwrap();
    create_desire(&mut st, body("a"), 1, 100).unwrap();
    create_desire(&mut st, body("b"), 2, 200).unwrap();
    let all = get_desires(&st);
    let times: Vec<i64> = all.iter().map(|d| d.created_at).collect();
    assert_eq!(times, vec![100, 200, 300]);
    let ids: Vec<u128> = all.iter().map(|d| d.id).collect();
    assert_eq!(ids, vec![1, 2, 3]);
}

#[test]
fn equal_creation_times_keep_insertion_order() {
    let mut st = DesireStore::new();
    create_desire(&mut st, body("first"), 1, 500).unwrap();
    create_desire(&mut st, body("second"), 2, 500).unwrap();
    let all = get_desires(&st);
    assert_eq!(all.len(), 2);
    assert_eq!(all[0].name, "first");
    assert_eq!(all[1].name, "second");
}

#[test]
fn create_with_empty_name_rejected_and_creates_nothing() {
    let mut st = DesireStore::new();
    let r = create_desire(&mut st, body(""), 1, 100);
    assert_eq!(r, Err(CreateError::EmptyName));
    assert_eq!(CreateError::EmptyName.status_code(), 400);
    assert!(get_desires(&st).is_empty());
}

#[test]
fn create_with_taken_id_rejected() {
    let mut st = DesireStore::new();
    create_desire(&mut st, body("one"), 1, 100).unwrap();
    let r = create_desire(&mut st, body("two"), 1, 200);
    assert_eq!(r, Err(CreateError::IdTaken));
    assert_eq!(CreateError::IdTaken.status_code(), 500);
    assert_eq!(get_desires(&st).len(), 1);
}

#[test]
fn create_without_occurred_date_defaults_to_creation_time() {
    let mut st = DesireStore::new();
    let d = create_desire(&mut st, body("tv"), 7, 12345).unwrap();
    assert_eq!(d.created_at, 12345);
    assert_eq!(d.occurred_date, Some(12345));
}

#[test]
fn create_with_occurred_date_keeps_it() {
    let mut st = DesireStore::new();
    let mut b = body("tv");
    b.occurred_date = Some(42);
    let d = create_desire(&mut st, b, 7, 12345).unwrap();
    assert_eq!(d.occurred_date, Some(42));
}

#[test]
fn create_returns_entity_with_given_fields() {
    let mut st = DesireStore::new();
    let b = CreateDesire {
        name: "bike".to_string(),
        importance: Priority::Low,
        urgency: Priority::High,
        image_url: Some("http://img".to_string()),
        web_url: Some("http://shop".to_string()),
        note: Some("red one".to_string()),
        x: Some(2.5f64.to_bits()),
        y: Some(0.5f64.to_bits()),
        fulfilled_date: Some(999),
        occurred_date: Some(50),
    };
    let d = create_desire(&mut st, b, 9, 60).unwrap();
    assert_eq!(d.id, 9);
    assert_eq!(d.name, "bike");
    assert_eq!(d.importance, Priority::Low);
    assert_eq!(d.urgency, Priority::High);
    assert_eq!(d.image_url.as_deref(), Some("http://img"));
    assert_eq!(d.web_url.as_deref(), Some("http://shop"));
    assert_eq!(d.note.as_deref(), Some("red one"));
    assert_eq!(d.x.map(f64::from_bits), Some(2.5));
    assert_eq!(d.y.map(f64::from_bits), Some(0.5));
    assert_eq!(d.created_at, 60);
    assert_eq!(d.fulfilled_date, Some(999));
    assert_eq!(d.occurred_date, Some(50));
}

#[test]
fn round_trip_created_entity_listed_field_for_field() {
    let mut st = DesireStore::new();
    create_desire(&mut st, body("other"), 1, 10).unwrap();
    let d = create_desire(&mut st, body("wanted"), 2, 20).unwrap();
    let all = get_desires(&st);
    let found = all.iter().find(|e| e.id == 2).expect("created entity listed");
    assert_eq!(*found, d);
}

#[test]
fn update_subset_changes_only_those_fields() {
    let mut st = DesireStore::new();
    let d = create_desire(&mut st, body("desk"), 4, 100).unwrap();
    let mut patch = no_change();
    patch.x = Some(1.0f64.to_bits());
    let after_x = update_desire(&mut st, 4, patch).unwrap();
    assert_eq!(after_x.x, Some(1.0f64.to_bits()));
    assert_eq!(after_x.name, d.name);
    assert_eq!(after_x.importance, d.importance);
    assert_eq!(after_x.urgency, d.urgency);
    assert_eq!(after_x.y, d.y);
    assert_eq!(after_x.created_at, d.created_at);
    assert_eq!(after_x.occurred_date, d.occurred_date);
    let after_empty = update_desire(&mut st, 4, no_change()).unwrap();
    assert_eq!(after_empty, after_x);
}

#[test]
fn update_replaces_every_present_field() {
    let d = Desire {
        id: 8,
        name: "old".to_string(),
        importance: Priority::Low,
        urgency: Priority::Low,
        image_url: None,
        web_url: Some("http://a".to_string()),
        note: None,
        x: None,
        y: Some(3.5f64.to_bits()),
        created_at: 5,
        fulfilled_date: None,
        occurred_date: Some(5),
    };
    let p = UpdateDesire {
        name: Some("new".to_string()),
        importance: Some(Priority::High),
        urgency: Some(Priority::High),
        image_url: Some("http://b".to_string()),
        web_url: Some("http://c".to_string()),
        note: Some("note".to_string()),
        x: Some(4.5f64.to_bits()),
        y: Some(5.5f64.to_bits()),
        fulfilled_date: Some(66),
        occurred_date: Some(77),
    };
    let m = apply_patch(d, p);
    assert_eq!(m.id, 8);
    assert_eq!(m.created_at, 5);
    assert_eq!(m.name, "new");
    assert_eq!(m.importance, Priority::High);
    assert_eq!(m.urgency, Priority::High);
    assert_eq!(m.image_url.as_deref(), Some("http://b"));
    assert_eq!(m.web_url.as_deref(), Some("http://c"));
    assert_eq!(m.note.as_deref(), Some("note"));
    assert_eq!(m.x, Some(4.5f64.to_bits()));
    assert_eq!(m.y, Some(5.5f64.to_bits()));
    assert_eq!(m.fulfilled_date, Some(66));
    assert_eq!(m.occurred_date, Some(77));
}

#[test]
fn update_unknown_id_is_not_found_and_mutates_nothing() {
    let mut st = DesireStore::new();
    let d = create_desire(&mut st, body("kept"), 1, 100).unwrap();
    let r = update_desire(&mut st, 99, no_change());
    assert_eq!(r, Err(UpdateError::NotFound));
    assert_eq!(UpdateError::NotFound.status_code(), 404);
    assert_eq!(NotFound.status_code(), 404);
    let all = get_desires(&st);
    assert_eq!(all.len(), 1);
    assert_eq!(all[0], d);
}

#[test]
fn update_with_empty_name_rejected_and_mutates_nothing() {
    let mut st = DesireStore::new();
    let d = create_desire(&mut st, body("kept"), 1, 100).unwrap();
    let mut patch = no_change();
    patch.name = Some(String::new());
    patch.x = Some(9.0f64.to_bits());
    let r = update_desire(&mut st, 1, patch);
    assert_eq!(r, Err(UpdateError::EmptyName));
    assert_eq!(UpdateError::EmptyName.status_code(), 400);
    let all = get_desires(&st);
    assert_eq!(all.len(), 1);
    assert_eq!(all[0], d);
}

#[test]
fn delete_known_id_removes_it_from_listing() {
    let mut st = DesireStore::new();
    create_desire(&mut st, body("keep"), 1, 100).unwrap();
    create_desire(&mut st, body("drop"), 2, 200).unwrap();
    assert_eq!(delete_desire(&mut st, 2), Ok(()));
    let all = get_desires(&st);
    assert_eq!(all.len(), 1);
    assert!(all.iter().all(|d| d.id != 2));
}

#[test]
fn delete_unknown_id_is_not_found() {
    let mut st = DesireStore::new();
    create_desire(&mut st, body("kept"), 1, 100).unwrap();
    assert_eq!(delete_desire(&mut st, 2), Err(NotFound));
    assert_eq!(get_desires(&st).len(), 1);
}

#[test]
fn priority_labels_parse_and_print() {
    assert_eq!(Priority::parse("low"), Some(Priority::Low));
    assert_eq!(Priority::parse("high"), Some(Priority::High));
    assert_eq!(Priority::parse("Low"), None);
    assert_eq!(Priority::parse("lowest"), None);
    assert_eq!(Priority::parse(""), None);
    assert_eq!(Priority::Low.label(), "low");
    assert_eq!(Priority::High.label(), "high");
    assert_eq!(Priority::parse(Priority::High.label()), Some(Priority::High));
}

#[test]
fn from_row_reads_a_full_row() {
    let d = Desire::from_row(full_row()).unwrap();
    assert_eq!(d.id, 11);
    assert_eq!(d.name, "lamp");
    assert_eq!(d.importance, Priority::Low);
    assert_eq!(d.urgency, Priority::High);
    assert_eq!(d.image_url.as_deref(), Some("http://img"));
    assert_eq!(d.web_url, None);
    assert_eq!(d.note.as_deref(), Some("soon"));
    assert_eq!(d.x.map(f64::from_bits), Some(1.5));
    assert_eq!(d.y, None);
    assert_eq!(d.created_at, 777);
    assert_eq!(d.fulfilled_date, None);
    assert_eq!(d.occurred_date, Some(900));
}

#[test]
fn from_row_names_the_missing_column() {
    let mut r = full_row();
    r.id = None;
    assert_eq!(Desire::from_row(r), Err(RowError::MissingId));
    let mut r = full_row();
    r.name = None;
    assert_eq!(Desire::from_row(r), Err(RowError::MissingName));
    let mut r = full_row();
    r.importance = None;
    assert_eq!(Desire::from_row(r), Err(RowError::MissingImportance));
    let mut r = full_row();
    r.urgency = None;
    assert_eq!(Desire::from_row(r), Err(RowError::MissingUrgency));
    let mut r = full_row();
    r.created_at = None;
    assert_eq!(Desire::from_row(r), Err(RowError::MissingCreatedAt));
}

#[test]
fn from_row_rejects_a_bad_priority_label() {
    let mut r = full_row();
    r.importance = Some("medium".to_string());
    assert_eq!(Desire::from_row(r), Err(RowError::BadImportance));
    let mut r = full_row();
    r.urgency = Some("HIGH".to_string());
    assert_eq!(Desire::from_row(r), Err(RowError::BadUrgency));
}

#[test]
fn parse_u16_exact_values() {
    assert_eq!(parse_u16("0"), Some(0));
    assert_eq!(parse_u16("5432"), Some(5432));
    assert_eq!(parse_u16("3001"), Some(3001));
    assert_eq!(parse_u16("070"), Some(70));
    assert_eq!(parse_u16("65535"), Some(65535));
    assert_eq!(parse_u16("65536"), None);
    assert_eq!(parse_u16("99999"), None);
    assert_eq!(parse_u16(""), None);
    assert_eq!(parse_u16("12a"), None);
    assert_eq!(parse_u16("-1"), None);
    assert_eq!(parse_u16("+5"), Some(5));
    assert_eq!(parse_u16("+65535"), Some(65535));
    assert_eq!(parse_u16("+"), None);
    assert_eq!(parse_u16("++5"), None);
    assert_eq!(parse_u16("5+"), None);
}

#[test]
fn port_falls_back_to_default() {
    assert_eq!(port_or_default(None, 5432), 5432);
    assert_eq!(port_or_default(Some("bad"), 5432), 5432);
    assert_eq!(port_or_default(Some("70000"), 3001), 3001);
    assert_eq!(port_or_default(Some("8080"), 5432), 8080);
}

#[test]
fn pool_config_fills_defaults() {
    let c = PoolConfig::from_settings(None, None, None, None, None);
    assert_eq!(c.host, "localhost");
    assert_eq!(c.port, 5432);
    assert_eq!(c.dbname, "greedy");
    assert_eq!(c.user, "postgres");
    assert_eq!(c.password, "postgres");
}

#[test]
fn pool_config_keeps_given_settings() {
    let c = PoolConfig::from_settings(
        Some("db.internal".to_string()),
        Some("6000"),
        Some("wishes".to_string()),
        Some("svc".to_string()),
        Some("hunter2".to_string()),
    );
    assert_eq!(c.host, "db.internal");
    assert_eq!(c.port, 6000);
    assert_eq!(c.dbname, "wishes");
    assert_eq!(c.user, "svc");
    assert_eq!(c.password, "hunter2");
}
