use duck_transcriber::cache::{expiry_from, lookup_in_row, write_for, CacheError, CacheRow, CacheTable, CacheWrite, CACHE_TTL_SECONDS};
use duck_transcriber::types::{DBItem, ItemReturnInfo, TaskType};

fn text_of(r: ItemReturnInfo) -> Option<String> {
    match r {
        ItemReturnInfo::Text(t) => Some(t),
        _ => None,
    }
}

#[test]
fn smart_put_inserts_then_updates_one_row() {
    let mut table = CacheTable::new();
    let id = "abc123".to_string();
    assert_eq!(table.smart_put(&id, TaskType::Translate, "x".to_string(), 1000), CacheWrite::Insert);
    assert_eq!(text_of(table.get(&id, TaskType::Translate)), Some("x".to_string()));
    assert!(matches!(table.get(&id, TaskType::SummarizeDefault), ItemReturnInfo::Exists));
    assert_eq!(table.smart_put(&id, TaskType::SummarizeDefault, "y".to_string(), 2000), CacheWrite::Update);
    assert_eq!(text_of(table.get(&id, TaskType::Translate)), Some("x".to_string()));
    assert_eq!(text_of(table.get(&id, TaskType::SummarizeDefault)), Some("y".to_string()));
    assert!(matches!(table.get(&id, TaskType::Transcribe), ItemReturnInfo::Exists));
}

#[test]
fn put_new_rejects_a_second_row() {
    let mut table = CacheTable::new();
    let item = |t: &str| DBItem {
        text: t.to_string(),
        unique_file_id: "f".to_string(),
        task_type: TaskType::Transcribe,
        expires_at: 10,
    };
    assert_eq!(table.put_new(item("one")), Ok(()));
    assert_eq!(table.put_new(item("two")), Err(CacheError::DuplicateKey));
    assert_eq!(text_of(table.get(&"f".to_string(), TaskType::Transcribe)), Some("one".to_string()));
}

#[test]
fn update_existing_needs_a_row() {
    let mut table = CacheTable::new();
    let id = "missing".to_string();
    assert_eq!(table.update_existing(&id, TaskType::Translate, "t".to_string(), 5), Err(CacheError::NoSuchRow));
    assert!(matches!(table.get(&id, TaskType::Translate), ItemReturnInfo::Absent));
}

#[test]
fn lookup_distinguishes_absent_exists_and_text() {
    assert!(matches!(lookup_in_row(None, TaskType::Transcribe), ItemReturnInfo::Absent));
    let row = CacheRow::with_text("id".to_string(), TaskType::Translate, "hola".to_string(), 7);
    assert!(matches!(lookup_in_row(Some(&row), TaskType::Transcribe), ItemReturnInfo::Exists));
    assert_eq!(text_of(lookup_in_row(Some(&row), TaskType::Translate)), Some("hola".to_string()));
    assert_eq!(row.translation, Some("hola".to_string()));
    assert_eq!(row.expires_at, 7);
}

#[test]
fn write_choice_follows_lookup() {
    assert_eq!(write_for(&ItemReturnInfo::Absent), CacheWrite::Insert);
    assert_eq!(write_for(&ItemReturnInfo::Exists), CacheWrite::Update);
    assert_eq!(write_for(&ItemReturnInfo::Text("t".to_string())), CacheWrite::Update);
}

#[test]
fn expiry_is_seven_days_later_and_saturates() {
    assert_eq!(CACHE_TTL_SECONDS, 7 * 24 * 3600);
    assert_eq!(expiry_from(1_700_000_000), 1_700_604_800);
    assert_eq!(expiry_from(i64::MAX - 10), i64::MAX);
}
