use daedalus::catalog::{JobRow, LibraryItemRow};
use daedalus::ordering::{compare_text, item_before, sort_job_rows, sort_library_rows};

fn item(id: i64, pinned: i64, favorite: i64, created_at: &str) -> LibraryItemRow {
    LibraryItemRow {
        id,
        display_name: format!("item {id}"),
        primary_model_kind: "checkpoint".to_string(),
        source_kind: None,
        source_model_id: None,
        source_version_id: None,
        source_url: None,
        source_category: None,
        installed_version: None,
        storage_path: format!("/models/{id}.safetensors"),
        favorite,
        pinned,
        notes: None,
        last_verified_at: None,
        created_at: created_at.to_string(),
    }
}

fn job(id: i64, created_at: &str) -> JobRow {
    JobRow {
        id,
        kind: "download".to_string(),
        status: "queued".to_string(),
        summary: format!("job {id}"),
        error_summary: None,
        created_at: created_at.to_string(),
        started_at: None,
        finished_at: None,
    }
}

#[test]
fn text_comparison_is_by_code_point() {
    assert_eq!(compare_text("abc", "abc"), 0);
    assert_eq!(compare_text("abc", "abd"), -1);
    assert_eq!(compare_text("abd", "abc"), 1);
    assert_eq!(compare_text("ab", "abc"), -1);
    assert_eq!(compare_text("abc", "ab"), 1);
    assert_eq!(compare_text("", ""), 0);
    assert_eq!(compare_text("Z", "a"), -1);
    assert_eq!(compare_text("2024-05-02T00:00:00+00:00", "2024-05-01T23:59:59+00:00"), 1);
}

#[test]
fn pinned_items_come_before_favorites_and_newer_before_older() {
    let a = item(1, 0, 0, "2024-05-01T10:00:00+00:00");
    let b = item(2, 1, 0, "2024-04-01T10:00:00+00:00");
    let c = item(3, 0, 1, "2024-03-01T10:00:00+00:00");
    let d = item(4, 0, 0, "2024-06-01T10:00:00+00:00");
    assert!(item_before(&b, &c));
    assert!(!item_before(&c, &b));
    assert!(item_before(&d, &a));
    assert!(!item_before(&a, &d));
    let sorted = sort_library_rows(vec![a, b, c, d]);
    let ids: Vec<i64> = sorted.iter().map(|r| r.id).collect();
    assert_eq!(ids, vec![2, 3, 4, 1]);
}

#[test]
fn sorting_an_empty_listing_gives_an_empty_listing() {
    assert!(sort_library_rows(Vec::new()).is_empty());
    assert!(sort_job_rows(Vec::new()).is_empty());
}

#[test]
fn jobs_are_listed_newest_first() {
    let jobs = vec![
        job(1, "2024-05-01T10:00:00+00:00"),
        job(2, "2024-05-03T10:00:00+00:00"),
        job(3, "2024-05-02T10:00:00+00:00"),
    ];
    let ids: Vec<i64> = sort_job_rows(jobs).iter().map(|r| r.id).collect();
    assert_eq!(ids, vec![2, 3, 1]);
}

#[test]
fn sorting_keeps_every_row() {
    let rows = vec![
        item(1, 1, 1, "2024-01-01T00:00:00+00:00"),
        item(2, 1, 1, "2024-01-01T00:00:00+00:00"),
        item(3, 0, 0, "2023-01-01T00:00:00+00:00"),
    ];
    let mut ids: Vec<i64> = sort_library_rows(rows).iter().map(|r| r.id).collect();
    assert_eq!(ids.len(), 3);
    assert_eq!(ids[2], 3);
    ids.sort();
    assert_eq!(ids, vec![1, 2, 3]);
}
