use daedalus::ordering::sort_library_rows;
use daedalus::catalog::{
    insert_row, job_kind_to_str, job_record_from_row, job_status_to_str, library_item_from_row, upsert_row,
    parse_job_kind, parse_job_status, parse_source_kind, source_kind_to_str, CatalogDb, JobRecord,
    LibraryItemInsert,
};
use daedalus::domain::{JobKind, JobStatus, ModelKind, SourceKind, SourceRef};

const T0: &str = "2024-05-01T10:00:00+00:00";
const T1: &str = "2024-05-01T11:30:00+00:00";

fn example_insert() -> LibraryItemInsert {
    LibraryItemInsert {
        display_name: "Example".to_string(),
        primary_model_kind: ModelKind::ControlNet,
        source: Some(SourceRef {
            source_kind: SourceKind::Civitai,
            source_model_id: Some("123".to_string()),
            source_version_id: None,
            source_url: Some("https://civitai.com/models/123".to_string()),
            source_category: Some("controlnet".to_string()),
        }),
        installed_version: Some("v1".to_string()),
        storage_path: "/models/example/example.safetensors".to_string(),
        favorite: true,
        pinned: false,
        notes: None,
        last_verified_at: Some(T1.to_string()),
    }
}

#[test]
fn catalog_path() {
    let db = CatalogDb::new("/data/catalog.db".to_string());
    assert_eq!(db.path(), "/data/catalog.db");
}

#[test]
fn enum_texts_round_trip() {
    for k in [SourceKind::Civitai, SourceKind::Local] {
        assert_eq!(parse_source_kind(source_kind_to_str(k)), Ok(k));
    }
    for k in [JobKind::Download, JobKind::Sync, JobKind::Rescan, JobKind::Import, JobKind::PreviewSync] {
        assert_eq!(parse_job_kind(job_kind_to_str(k)), Ok(k));
    }
    for s in [JobStatus::Queued, JobStatus::Running, JobStatus::Completed, JobStatus::Failed, JobStatus::Cancelled] {
        assert_eq!(parse_job_status(job_status_to_str(s)), Ok(s));
    }
    assert_eq!(job_kind_to_str(JobKind::PreviewSync), "preview_sync");
}

#[test]
fn unknown_enum_texts() {
    assert_eq!(parse_source_kind("hf"), Err("unknown source kind 'hf'".to_string()));
    assert_eq!(parse_job_kind("x"), Err("unknown job kind 'x'".to_string()));
    assert_eq!(parse_job_status("Done"), Err("unknown job status 'Done'".to_string()));
}

#[test]
fn library_row_round_trip() {
    let insert = example_insert();
    let row = insert_row(&insert, 9, T0.to_string());
    assert_eq!(row.primary_model_kind, "controlnet");
    assert_eq!(row.source_kind.as_deref(), Some("civitai"));
    assert_eq!(row.favorite, 1);
    let item = library_item_from_row(row).expect("decode");
    assert_eq!(item.id, 9);
    assert_eq!(item.display_name, "Example");
    assert_eq!(item.primary_model_kind, ModelKind::ControlNet);
    assert_eq!(item.source, insert.source);
    assert!(item.favorite);
    assert!(!item.pinned);
    assert_eq!(item.created_at, T0);
    assert_eq!(item.last_verified_at.as_deref(), Some(T1));
}

#[test]
fn library_row_decoding_errors() {
    let mut row = insert_row(&example_insert(), 1, T0.to_string());
    row.source_kind = Some("ftp".to_string());
    row.primary_model_kind = "nope".to_string();
    assert_eq!(library_item_from_row(row.clone()), Err("unknown source kind 'ftp'".to_string()));
    row.source_kind = None;
    assert_eq!(library_item_from_row(row.clone()), Err("unknown model kind: nope".to_string()));
    row.primary_model_kind = "lora".to_string();
    row.created_at = "yesterday".to_string();
    assert!(library_item_from_row(row.clone()).is_err());
    row.created_at = T0.to_string();
    let item = library_item_from_row(row).expect("decode");
    assert_eq!(item.source, None);
}

#[test]
fn job_status_updates() {
    let job = JobRecord::queued(3, JobKind::Rescan, "scan".to_string(), T0.to_string());
    assert_eq!(job.status, JobStatus::Queued);
    let running = job.with_status(JobStatus::Running, None, T1.to_string());
    assert_eq!(running.started_at.as_deref(), Some(T1));
    assert_eq!(running.finished_at, None);
    let failed = running.with_status(JobStatus::Failed, Some("boom".to_string()), "2024-05-02T00:00:00+00:00".to_string());
    assert_eq!(failed.status, JobStatus::Failed);
    assert_eq!(failed.started_at.as_deref(), Some(T1));
    assert_eq!(failed.finished_at.as_deref(), Some("2024-05-02T00:00:00+00:00"));
    assert_eq!(failed.error_summary.as_deref(), Some("boom"));
    let cancelled = failed.with_status(JobStatus::Cancelled, None, T0.to_string());
    assert_eq!(cancelled.error_summary.as_deref(), Some("boom"));
    assert_eq!(cancelled.finished_at.as_deref(), Some(T0));
}

#[test]
fn job_row_round_trip() {
    let job = JobRecord::queued(5, JobKind::Download, "dl".to_string(), T0.to_string())
        .with_status(JobStatus::Running, None, T1.to_string());
    let row = job.to_row();
    assert_eq!(row.kind, "download");
    assert_eq!(row.status, "running");
    assert_eq!(job_record_from_row(row), Ok(job));
}

#[test]
fn job_row_errors() {
    let mut row = JobRecord::queued(5, JobKind::Download, "dl".to_string(), T0.to_string()).to_row();
    row.kind = "bad".to_string();
    assert_eq!(job_record_from_row(row.clone()), Err("unknown job kind 'bad'".to_string()));
    row.kind = "sync".to_string();
    row.status = "bad".to_string();
    assert_eq!(job_record_from_row(row.clone()), Err("unknown job status 'bad'".to_string()));
    row.status = "queued".to_string();
    row.finished_at = Some("not a time".to_string());
    assert!(job_record_from_row(row).is_err());
}

#[test]
fn upsert_keeps_identity_of_existing_rows() {
    let first = upsert_row(None, &example_insert(), T0.to_string());
    assert_eq!(first.created_at, T0);
    let mut stored = first.clone();
    stored.id = 41;
    let mut changed = example_insert();
    changed.display_name = "Renamed".to_string();
    changed.pinned = true;
    let second = upsert_row(Some(&stored), &changed, T1.to_string());
    assert_eq!(second.id, 41);
    assert_eq!(second.created_at, T0);
    assert_eq!(second.display_name, "Renamed");
    assert_eq!(second.pinned, 1);
    let item = library_item_from_row(second).expect("decode");
    assert_eq!(item.display_name, "Renamed");
    assert!(item.pinned);
}

#[test]
fn initializes_and_lists_items() {
    let insert = LibraryItemInsert {
        display_name: "Example".to_string(),
        primary_model_kind: ModelKind::Checkpoint,
        source: None,
        installed_version: Some("v1".to_string()),
        storage_path: "/models/example/example.safetensors".to_string(),
        favorite: false,
        pinned: false,
        notes: None,
        last_verified_at: None,
    };
    let row = insert_row(&insert, 1, T0.to_string());
    let item = library_item_from_row(row.clone()).expect("insert");
    let items: Vec<_> = sort_library_rows(vec![row])
        .into_iter()
        .map(|r| library_item_from_row(r).expect("list"))
        .collect();
    assert_eq!(items.len(), 1);
    assert_eq!(item.display_name, "Example");
    assert_eq!(items[0].storage_path, "/models/example/example.safetensors");
}
