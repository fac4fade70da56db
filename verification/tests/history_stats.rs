use voice_pipeline::history::{HistoryEntry, HistoryStore, MAX_HISTORY_PAGE_SIZE};
use voice_pipeline::stats::{DailyStats, StatsStore, DEFAULT_HISTORY_WINDOW_DAYS};

fn entry(id: &str, text: &str, timestamp: &str) -> HistoryEntry {
    HistoryEntry {
        id: id.to_string(),
        text: text.to_string(),
        timestamp: timestamp.to_string(),
        duration_millis: Some(2500),
        language: Some("en".to_string()),
        provider: "openai".to_string(),
    }
}

#[test]
fn supports_add_get_delete_and_clear() {
    let mut store = HistoryStore::new();

    let first = HistoryEntry::new(
        uuid::Uuid::new_v4().to_string(),
        "2026-01-02T03:04:05.000Z".to_string(),
        "first transcript".to_string(),
        Some(1200),
        Some("en".to_string()),
        "openai".to_string(),
    );
    let entry_id = first.id.clone();

    store.add_entry(first.clone()).expect("entry should be added successfully");

    let listed = store.list_entries(10, 0).expect("entries should list successfully");
    assert_eq!(listed, vec![first.clone()]);

    let loaded = store.get_entry(&entry_id).expect("entry lookup should succeed");
    assert_eq!(loaded, Some(first));

    let deleted = store.delete_entry(&entry_id).expect("entry deletion should succeed");
    assert!(deleted);

    assert!(store.get_entry(&entry_id).expect("lookup should succeed after deletion").is_none());

    store
        .add_entry(HistoryEntry::new(
            uuid::Uuid::new_v4().to_string(),
            "2026-01-02T03:05:05.000Z".to_string(),
            "second transcript".to_string(),
            None,
            None,
            "openai".to_string(),
        ))
        .expect("entry should be added successfully");
    store.clear_history().expect("history should be cleared successfully");

    assert!(store.list_entries(10, 0).expect("listing should succeed after clear").is_empty());
}

#[test]
fn lists_newest_first_with_pagination() {
    let mut store = HistoryStore::new();

    let oldest = entry("a", "oldest", "2026-01-01T09:00:00Z");
    let newest = entry("b", "newest", "2026-01-01T11:00:00Z");
    let middle = entry("c", "middle", "2026-01-01T10:00:00Z");

    store.add_entry(oldest.clone()).expect("oldest should be added");
    store.add_entry(newest.clone()).expect("newest should be added");
    store.add_entry(middle.clone()).expect("middle should be added");

    let page = store.list_entries(2, 1).expect("paginated listing should succeed");

    assert_eq!(page, vec![middle, oldest]);
}

#[test]
fn list_entries_handles_zero_limit_and_large_offset() {
    let mut store = HistoryStore::new();

    store
        .add_entry(entry("only", "sample", "2026-01-01T00:00:00Z"))
        .expect("entry should be added");

    assert!(store.list_entries(0, 0).expect("zero-limit listing should succeed").is_empty());
    assert!(store.list_entries(10, 99).expect("large-offset listing should succeed").is_empty());
}

#[test]
fn delete_and_get_non_existent_entry_are_safe() {
    let mut store = HistoryStore::new();
    let missing_id = uuid::Uuid::new_v4().to_string();

    assert!(!store.delete_entry(&missing_id).expect("deleting a missing entry should succeed"));
    assert!(store
        .get_entry(&missing_id)
        .expect("lookup for missing entry should succeed")
        .is_none());
}

#[test]
fn rejects_entries_with_missing_required_fields() {
    let mut store = HistoryStore::new();
    let invalid_entry = HistoryEntry {
        id: String::new(),
        text: "hello".to_string(),
        timestamp: "2026-01-01T00:00:00Z".to_string(),
        duration_millis: None,
        language: None,
        provider: "openai".to_string(),
    };

    let error = store
        .add_entry(invalid_entry)
        .expect_err("entry with an empty id should be rejected");
    assert!(error.contains("id"));
}

#[test]
fn list_entries_enforces_max_page_size() {
    let mut store = HistoryStore::new();
    let entry_count = MAX_HISTORY_PAGE_SIZE + 5;
    for index in 0..entry_count {
        let timestamp =
            format!("2026-01-01T00:{:02}:{:02}Z", (index / 60) % 60, index % 60);
        store
            .add_entry(entry(&format!("id-{index}"), &format!("entry-{index}"), &timestamp))
            .expect("entry should be added");
    }

    let page = store.list_entries(usize::MAX, 0).expect("list should respect page cap");

    assert_eq!(page.len(), MAX_HISTORY_PAGE_SIZE);
}

#[test]
fn record_transcription_updates_totals_and_today_stats() {
    let today: u64 = 20_000;
    let mut store = StatsStore::new(today);

    store.record_transcription(12, 45_500, today).expect("stats recording should succeed");
    let report = store.get_usage_stats(today).expect("stats should load after recording");

    assert_eq!(report.total_transcriptions, 1);
    assert_eq!(report.total_words, 12);
    assert_eq!(report.total_recording_millis, 45_500);
    assert_eq!(report.today.transcriptions, 1);
    assert_eq!(report.today.words, 12);
    assert_eq!(report.today.recording_millis, 45_500);
    assert_eq!(report.daily_word_history.len(), DEFAULT_HISTORY_WINDOW_DAYS);
    assert_eq!(report.daily_word_history[DEFAULT_HISTORY_WINDOW_DAYS - 1].date, today);
    assert_eq!(report.daily_word_history[DEFAULT_HISTORY_WINDOW_DAYS - 1].words, 12);
    assert_eq!(report.daily_word_history[0].words, 0);
}

#[test]
fn metrics_accumulate_across_multiple_transcriptions() {
    let today: u64 = 20_000;
    let mut store = StatsStore::new(today);

    store.record_transcription(120, 60_000, today).expect("first record should succeed");
    store.record_transcription(60, 30_000, today).expect("second record should succeed");

    let report = store.get_usage_stats(today).expect("stats should load after multiple records");
    assert_eq!(report.total_transcriptions, 2);
    assert_eq!(report.total_words, 180);
    assert_eq!(report.total_recording_millis, 90_000);
    assert_eq!(report.today.transcriptions, 2);
}

#[test]
fn reset_usage_stats_clears_all_counters() {
    let today: u64 = 20_000;
    let mut store = StatsStore::new(today);

    store.record_transcription(25, 15_000, today).expect("stats recording should succeed");
    store.reset_usage_stats(today).expect("stats reset should succeed");

    let report = store.get_usage_stats(today).expect("stats should load after reset");
    assert_eq!(report.total_transcriptions, 0);
    assert_eq!(report.total_words, 0);
    assert_eq!(report.total_recording_millis, 0);
    assert_eq!(report.streak_days, 0);
    assert_eq!(report.today, DailyStats::default());
    assert!(report.daily_word_history.iter().all(|point| point.words == 0));
}

#[test]
fn streak_counts_consecutive_days_with_activity() {
    let today: u64 = 20_000;
    let yesterday = today - 1;
    let three_days_ago = today - 3;
    let mut store = StatsStore::new(today);

    store
        .record_transcription(10, 5_000, three_days_ago)
        .expect("activity three days ago should record");
    store
        .record_transcription(18, 8_000, yesterday)
        .expect("yesterday's activity should record");
    store.record_transcription(22, 12_000, today).expect("today's activity should record");
    store.record_transcription(18, 8_000, today).expect("today's second activity should record");

    let report = store.get_usage_stats(today).expect("report should load seeded stats");
    assert_eq!(report.streak_days, 2);
    assert_eq!(report.today.words, 40);
}

#[test]
fn equal_timestamps_keep_earlier_entries_first() {
    let mut store = HistoryStore::new();
    let ts = "2026-01-01T10:00:00Z";
    store.add_entry(entry("first", "one", ts)).expect("first should be added");
    store.add_entry(entry("second", "two", ts)).expect("second should be added");

    let page = store.list_entries(10, 0).expect("listing should succeed");
    assert_eq!(page.len(), 2);
    assert_eq!(page[0].id, "first");
    assert_eq!(page[1].id, "second");
}

#[test]
fn streak_counts_activity_on_the_epoch_day() {
    let mut store = StatsStore::new(0);
    store.record_transcription(1, 1, 0).expect("record at the epoch day should succeed");
    let report = store.get_usage_stats(0).expect("report should load");
    assert_eq!(report.streak_days, 1);
}

#[test]
fn entry_constructor_normalizes_hints() {
    let made = HistoryEntry::new(
        "id-1".to_string(),
        "2026-01-01T00:00:00Z".to_string(),
        "hello".to_string(),
        None,
        Some("  en  ".to_string()),
        "  openai  ".to_string(),
    );
    assert_eq!(made.language, Some("en".to_string()));
    assert_eq!(made.provider, "openai");

    let made = HistoryEntry::new(
        "id-2".to_string(),
        "2026-01-01T00:00:00Z".to_string(),
        "hello".to_string(),
        None,
        Some("   ".to_string()),
        "openai".to_string(),
    );
    assert!(made.language.is_none());
}
