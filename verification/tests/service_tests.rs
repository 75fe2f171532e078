use daedalus::api::{
    choose_backend, civitai_search_page, endpoint_url, normalize_base_url, probes_remote, search_limit,
    status_line, ApiError, ApiState, BackendChoice,
};
use daedalus::common::DaedalusError;
use daedalus::config::{AppConfig, ConfigStore, GuiMode, PlatformPaths};
use daedalus::domain::{DownloadRequest, ImportRequest, ModelKind, SourceKind};
use daedalus::service::{
    download_summary, import_kind, import_target, infer_kind_in, missing_import_source, plan_import,
    plan_rescan, rescan_summary, DaedalusService, ScanEntry, RESCAN_JOB_SUMMARY,
};

const NOW: &str = "2024-05-01T10:00:00+00:00";

fn platform() -> PlatformPaths {
    PlatformPaths {
        config_dir: "/base/config".to_string(),
        cache_dir: "/base/cache".to_string(),
        data_dir: "/base/data".to_string(),
    }
}

fn service() -> DaedalusService {
    let p = platform();
    let config = AppConfig::for_platform(&p);
    DaedalusService::from_store(
        ConfigStore::new("/base/config/config.toml".to_string()),
        config,
        &p,
        &Vec::new(),
        "test".to_string(),
    )
    .expect("service")
}

#[test]
fn service_starts_with_valid_config() {
    let s = service();
    assert_eq!(s.catalog().path(), "/base/data/daedalus.db");
    assert_eq!(s.config_store().path(), "/base/config/config.toml");
    assert_eq!(s.current_config(), AppConfig::for_platform(&platform()));
    let health = s.health(4);
    assert_eq!(health.status, "ok");
    assert_eq!(health.mode, "test");
    assert_eq!(health.library_item_count, 4);
    assert_eq!(health.source_count, 1);
    let sources = s.list_sources();
    assert_eq!(sources.len(), 1);
    assert_eq!(sources[0].id, "civitai");
    assert_eq!(sources[0].kind, SourceKind::Civitai);
}

#[test]
fn invalid_config_is_refused_with_joined_errors() {
    let p = platform();
    let mut config = AppConfig::for_platform(&p);
    config.version = 2;
    config.daemon.host = String::new();
    let err = DaedalusService::from_store(
        ConfigStore::new("c.toml".to_string()),
        config,
        &p,
        &Vec::new(),
        "test".to_string(),
    )
    .unwrap_err();
    assert_eq!(
        err,
        DaedalusError::Validation(
            "unsupported config version 2; expected 1; daemon.host must not be empty".to_string()
        )
    );
}

#[test]
fn refused_update_leaves_service_unchanged() {
    let mut s = service();
    let before = s.current_config();
    let mut bad = before.clone();
    bad.gui.remote_url = " ".to_string();
    assert!(s.update_config(bad, &platform(), &Vec::new()).is_err());
    assert_eq!(s.current_config(), before);
    let mut good = before.clone();
    good.database.path = "/elsewhere/cat.db".to_string();
    s.update_config(good.clone(), &platform(), &Vec::new()).expect("update");
    assert_eq!(s.current_config(), good);
    assert_eq!(s.catalog().path(), "/elsewhere/cat.db");
}

#[test]
fn kind_inference() {
    let s = service();
    let p = platform();
    assert_eq!(s.infer_kind_from_path(&p, "/base/data/models/loras/x.bin").unwrap(), ModelKind::LoRA);
    let resolved = s.resolved_config(&p).unwrap();
    assert_eq!(infer_kind_in(&resolved, "/elsewhere/flow.JSON"), ModelKind::Workflows);
    assert_eq!(infer_kind_in(&resolved, "/elsewhere/w.txt"), ModelKind::Wildcards);
    assert_eq!(infer_kind_in(&resolved, "/elsewhere/a.vae"), ModelKind::Vae);
    assert_eq!(infer_kind_in(&resolved, "/elsewhere/a.ckpt"), ModelKind::Checkpoint);
    assert_eq!(infer_kind_in(&resolved, "/elsewhere/a.gguf"), ModelKind::Other);
    assert_eq!(infer_kind_in(&resolved, "/base/data/models/vae/a.ckpt"), ModelKind::Vae);
    assert_eq!(infer_kind_in(&resolved, "/base/data/models/vaex/a.txt"), ModelKind::Wildcards);
}

#[test]
fn imports_local_file() {
    let s = service();
    let resolved = s.resolved_config(&platform()).unwrap();
    let request = ImportRequest {
        path: "/tmp/existing.safetensors".to_string(),
        display_name: Some("Existing".to_string()),
        kind: Some(ModelKind::Checkpoint),
        copy_into_library: false,
    };
    let plan = plan_import(&request, "/tmp/existing.safetensors", &resolved, &Vec::new(), NOW.to_string())
        .expect("plan");
    assert!(plan.copy_to.is_none());
    assert_eq!(plan.item.display_name, "Existing");
    assert!(plan.item.storage_path.ends_with("existing.safetensors"));
    assert_eq!(plan.item.source.as_ref().unwrap().source_kind, SourceKind::Local);
    assert_eq!(plan.item.last_verified_at.as_deref(), Some(NOW));
}

#[test]
fn import_with_copy_avoids_taken_names() {
    let s = service();
    let resolved = s.resolved_config(&platform()).unwrap();
    let request = ImportRequest {
        path: "/tmp/my model.pt".to_string(),
        display_name: None,
        kind: None,
        copy_into_library: true,
    };
    assert_eq!(import_kind(&request, &resolved, "/tmp/my model.pt"), ModelKind::Checkpoint);
    let target = import_target(&request, &resolved, "/tmp/my model.pt").unwrap();
    assert_eq!(target, "/base/data/models/checkpoint/my model/manual-import/my model.pt");
    let taken = vec![target.clone()];
    let plan = plan_import(&request, "/tmp/my model.pt", &resolved, &taken, NOW.to_string()).unwrap();
    let dest = "/base/data/models/checkpoint/my model/manual-import/my model-1.pt";
    assert_eq!(plan.copy_to.as_deref(), Some(dest));
    assert_eq!(plan.item.storage_path, dest);
    assert_eq!(plan.item.display_name, "my model-1");
}

#[test]
fn import_without_file_name_is_refused() {
    let s = service();
    let resolved = s.resolved_config(&platform()).unwrap();
    let request = ImportRequest { path: "/".to_string(), display_name: None, kind: None, copy_into_library: true };
    let err = plan_import(&request, "/", &resolved, &Vec::new(), NOW.to_string()).unwrap_err();
    assert_eq!(err, DaedalusError::Validation("source file must have a valid filename".to_string()));
    assert_eq!(
        missing_import_source("/nope").message(),
        "not found: local file does not exist: /nope"
    );
}

#[test]
fn rescan_plan_keeps_model_files() {
    let entries = vec![
        ScanEntry { kind: ModelKind::LoRA, path: "/m/loras/a.safetensors".to_string(), normalized_path: "/real/a.safetensors".to_string(), is_file: true },
        ScanEntry { kind: ModelKind::LoRA, path: "/m/loras".to_string(), normalized_path: "/m/loras".to_string(), is_file: false },
        ScanEntry { kind: ModelKind::LoRA, path: "/m/loras/readme.md".to_string(), normalized_path: "/m/loras/readme.md".to_string(), is_file: true },
        ScanEntry { kind: ModelKind::Vae, path: "/m/vae/b.vae".to_string(), normalized_path: "/m/vae/b.vae".to_string(), is_file: true },
    ];
    let plan = plan_rescan(&entries, NOW.to_string());
    assert_eq!(plan.scanned, 2);
    assert_eq!(plan.inserts[0].display_name, "a");
    assert_eq!(plan.inserts[0].storage_path, "/real/a.safetensors");
    assert_eq!(plan.inserts[0].primary_model_kind, ModelKind::LoRA);
    assert_eq!(plan.inserts[1].primary_model_kind, ModelKind::Vae);
    assert_eq!(rescan_summary(plan.scanned), "Rescanned configured model directories (2 files)");
    assert_eq!(RESCAN_JOB_SUMMARY, "Rescanning configured model directories");
}

#[test]
fn download_job_summary() {
    let r = DownloadRequest { source_kind: SourceKind::Civitai, source_file_id: "991".to_string(), model_kind: ModelKind::Vae };
    assert_eq!(download_summary(&r), "Queued VAE download for source file 991");
}

#[test]
fn api_error_answers() {
    assert_eq!(ApiError::from_error(&DaedalusError::NotFound("x".to_string())).status, 404);
    assert_eq!(ApiError::from_error(&DaedalusError::Config("x".to_string())).status, 400);
    let v = ApiError::from_error(&DaedalusError::Validation("bad".to_string()));
    assert_eq!(v.status, 400);
    assert_eq!(v.message, "validation error: bad");
    assert_eq!(ApiError::from_error(&DaedalusError::Io("x".to_string())).status, 500);
    assert_eq!(ApiError::library_item_not_found(12).message, "library item 12 not found");
    assert_eq!(ApiError::job_not_found(-3).message, "job -3 not found");
    let n = ApiError::model_detail_not_ready("77");
    assert_eq!(n.status, 501);
    assert_eq!(n.message, "Civitai model detail is not implemented yet for id 77");
    assert_eq!(ApiError::new(418, "t".to_string()).status, 418);
    let state = ApiState::new(service());
    assert_eq!(state.service().health(0).mode, "test");
}

#[test]
fn search_and_urls() {
    assert_eq!(search_limit(None), 20);
    assert_eq!(search_limit(Some(3)), 3);
    assert!(civitai_search_page("x", None).items.is_empty());
    assert_eq!(normalize_base_url("http://h:1//"), "http://h:1");
    assert_eq!(endpoint_url("http://h:1", "/health"), "http://h:1/health");
}

#[test]
fn gui_backend_choice() {
    assert!(probes_remote(GuiMode::Auto));
    assert!(!probes_remote(GuiMode::Embedded));
    assert_eq!(choose_backend(GuiMode::Auto, true), BackendChoice::Remote);
    assert_eq!(choose_backend(GuiMode::Auto, false), BackendChoice::Embedded);
    assert_eq!(choose_backend(GuiMode::Remote, false), BackendChoice::Embedded);
    assert_eq!(choose_backend(GuiMode::Embedded, true), BackendChoice::Embedded);
    assert_eq!(status_line(BackendChoice::Embedded, "u"), "Embedded mode");
    assert_eq!(status_line(BackendChoice::Remote, "http://x"), "Remote mode: http://x");
}

#[test]
fn repeated_model_directory_is_refused() {
    let p = platform();
    let mut config = AppConfig::for_platform(&p);
    config.model_paths.lora = config.model_paths.vae.clone();
    let err = DaedalusService::from_store(
        ConfigStore::new("c.toml".to_string()),
        config,
        &p,
        &Vec::new(),
        "test".to_string(),
    )
    .unwrap_err();
    match err {
        DaedalusError::Validation(message) => {
            assert_eq!(
                message,
                "model path for VAE resolves to a duplicate directory: /base/data/models/vae"
            );
        }
        other => panic!("unexpected error: {other:?}"),
    }
}
