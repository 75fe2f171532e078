use daedalus::config::{apply_env_overrides, AppConfig, ConfigStore, GuiMode, ModelPathConfig, PlatformPaths};
use daedalus::domain::ModelKind;

fn platform_at(root: &str) -> PlatformPaths {
    PlatformPaths {
        config_dir: format!("{root}/config"),
        cache_dir: format!("{root}/cache"),
        data_dir: format!("{root}/data"),
    }
}

#[test]
fn default_config_validates() {
    let platform = PlatformPaths::detect(None);
    let config = AppConfig::for_platform(&platform);
    let report = config.validate(&platform, &Vec::new()).expect("validate config");
    assert!(report.is_ok(), "unexpected validation errors: {:?}", report.errors);
}

#[test]
fn duplicate_model_paths_fail_validation() {
    let platform = PlatformPaths::detect(None);
    let mut config = AppConfig::for_platform(&platform);
    config.model_paths.embedding = config.model_paths.checkpoint.clone();
    let report = config.validate(&platform, &Vec::new()).expect("validate config");
    assert!(!report.is_ok());
    assert!(report.errors.iter().any(|msg| msg.contains("duplicate directory")));
}

#[test]
fn default_config_values() {
    let platform = platform_at("/srv/home");
    let config = AppConfig::for_platform(&platform);
    assert_eq!(config.version, 1);
    assert_eq!(config.library.default_storage_root, "/srv/home/data/models");
    assert_eq!(config.library.temp_download_root, "/srv/home/data/models/.tmp");
    assert_eq!(config.library.preview_cache_root, "/srv/home/cache/previews");
    assert_eq!(config.database.path, "/srv/home/data/daedalus.db");
    assert_eq!(config.daemon.host, "127.0.0.1");
    assert_eq!(config.daemon.port, 4590);
    assert_eq!(config.gui.default_mode, GuiMode::Auto);
    assert_eq!(config.gui.remote_url, "http://127.0.0.1:4590");
    assert_eq!(config.sources.civitai.api_base_url, "https://civitai.com/api/v1");
    assert_eq!(config.sources.civitai.api_token, "");
    assert_eq!(config.model_paths.motion, "/srv/home/data/models/motion-modules");
    assert_eq!(config.model_paths.aesthetic_gradient, "/srv/home/data/models/aesthetic-gradients");
}

#[test]
fn model_path_defaults_iter_and_get_agree() {
    let paths = ModelPathConfig::defaults("/m");
    let pairs = paths.iter();
    assert_eq!(pairs.len(), 16);
    for (kind, path) in pairs {
        assert_eq!(paths.get(kind), path);
    }
    assert_eq!(paths.get(ModelKind::LoRA), "/m/loras");
    assert_eq!(paths.get(ModelKind::Upscaler), "/m/upscalers");
}

#[test]
fn resolution_places_relative_paths_under_their_bases() {
    let platform = platform_at("/base");
    let mut config = AppConfig::for_platform(&platform);
    config.library.default_storage_root = "store".to_string();
    config.library.temp_download_root = "tmp".to_string();
    config.library.preview_cache_root = "/abs/previews".to_string();
    config.database.path = "db/catalog.db".to_string();
    config.model_paths.lora = "loras-here".to_string();
    let resolved = config.resolved(&platform).expect("resolve");
    assert_eq!(resolved.default_storage_root, "/base/data/store");
    assert_eq!(resolved.temp_download_root, "/base/data/store/tmp");
    assert_eq!(resolved.preview_cache_root, "/abs/previews");
    assert_eq!(resolved.database_path, "/base/data/db/catalog.db");
    let lora = resolved.model_paths.iter().find(|(k, _)| *k == ModelKind::LoRA).unwrap();
    assert_eq!(lora.1, "/base/data/store/loras-here");
    assert_eq!(resolved.model_paths.len(), 16);
    assert_eq!(resolved.model_paths[0].0, ModelKind::Checkpoint);
}

#[test]
fn tilde_paths_are_expanded() {
    let platform = platform_at("/base");
    let mut config = AppConfig::for_platform(&platform);
    config.library.default_storage_root = "~/models-store".to_string();
    let resolved = config.resolved(&platform).expect("resolve");
    assert!(!resolved.default_storage_root.contains('~'));
    assert!(resolved.default_storage_root.ends_with("/models-store"));
}

#[test]
fn unknown_variable_is_a_config_error() {
    let platform = platform_at("/base");
    let mut config = AppConfig::for_platform(&platform);
    config.database.path = "$DAEDALUS_SURELY_UNSET_VARIABLE_XYZ/db".to_string();
    let err = config.resolved(&platform).unwrap_err();
    let message = err.message();
    assert!(message.starts_with("config error: failed to expand path '$DAEDALUS_SURELY_UNSET_VARIABLE_XYZ/db': "), "{message}");
}

#[test]
fn validation_messages() {
    let platform = platform_at("/base");
    let mut config = AppConfig::for_platform(&platform);
    config.version = 7;
    config.daemon.host = "  ".to_string();
    config.gui.remote_url = "\t".to_string();
    let report = config.validate(&platform, &Vec::new()).expect("validate");
    assert_eq!(
        report.errors,
        vec![
            "unsupported config version 7; expected 1".to_string(),
            "daemon.host must not be empty".to_string(),
            "gui.remote_url must not be empty".to_string(),
        ]
    );
    assert_eq!(report.warnings.len(), 18);
    assert_eq!(report.warnings[0], "model path for Checkpoint does not exist yet: /base/data/models/checkpoints");
    assert_eq!(report.warnings[16], "default storage root does not exist yet: /base/data/models");
    assert_eq!(report.warnings[17], "database directory does not exist yet: /base/data");
}

#[test]
fn existing_directories_draw_no_warning() {
    let platform = platform_at("/base");
    let config = AppConfig::for_platform(&platform);
    let resolved = config.resolved(&platform).expect("resolve");
    let existing = resolved.required_directories();
    let report = config.validate(&platform, &existing).expect("validate");
    assert!(report.is_ok());
    assert!(report.warnings.is_empty(), "{:?}", report.warnings);
}

#[test]
fn equal_paths_with_trailing_separator_are_duplicates() {
    let platform = platform_at("/base");
    let mut config = AppConfig::for_platform(&platform);
    config.model_paths.vae = "/shared/dir/".to_string();
    config.model_paths.poses = "/shared/dir".to_string();
    let report = config.validate(&platform, &Vec::new()).expect("validate");
    assert_eq!(
        report.errors,
        vec!["model path for Poses resolves to a duplicate directory: /shared/dir".to_string()]
    );
}

#[test]
fn required_directories_list() {
    let platform = platform_at("/base");
    let config = AppConfig::for_platform(&platform);
    let resolved = config.resolved(&platform).expect("resolve");
    let dirs = resolved.required_directories();
    assert_eq!(dirs.len(), 7 + 16);
    assert_eq!(dirs[0], "/base/config");
    assert_eq!(dirs[6], "/base/data");
    assert_eq!(dirs[7], "/base/data/models/checkpoints");
}

#[test]
fn platform_fallback_and_config_path() {
    let p = PlatformPaths::from_detected(None, Some("/home/u".to_string()));
    assert_eq!(p.config_dir, "/home/u/.config/daedalus");
    assert_eq!(p.cache_dir, "/home/u/.cache/daedalus");
    assert_eq!(p.data_dir, "/home/u/.local/share/daedalus");
    assert_eq!(p.default_config_path(), "/home/u/.config/daedalus/config.toml");
    let q = PlatformPaths::from_detected(None, None);
    assert_eq!(q.config_dir, "./.config/daedalus");
    let detected = PlatformPaths::detect(None);
    assert!(!detected.config_dir.is_empty());
}

#[test]
fn config_store_discovery() {
    let platform = platform_at("/base");
    let explicit = ConfigStore::discover(Some("/etc/d.toml".to_string()), &platform);
    assert_eq!(explicit.path(), "/etc/d.toml");
    let default = ConfigStore::discover(None, &platform);
    assert_eq!(default.path(), "/base/config/config.toml");
    assert_eq!(ConfigStore::new("x.toml".to_string()).path(), "x.toml");
}

#[test]
fn env_overrides_replace_only_token_and_url() {
    let platform = platform_at("/base");
    let mut config = AppConfig::for_platform(&platform);
    let before = config.clone();
    apply_env_overrides(&mut config, Some("SECRET-REDACTED".to_string()), None);
    assert_eq!(config.sources.civitai.api_token, "SECRET-REDACTED");
    assert_eq!(config.gui.remote_url, before.gui.remote_url);
    apply_env_overrides(&mut config, None, Some("http://far:1".to_string()));
    assert_eq!(config.gui.remote_url, "http://far:1");
    assert_eq!(config.model_paths, before.model_paths);
}

#[test]
fn detected_directories_are_the_application_s_own() {
    let detected = PlatformPaths::detect(Some("/home/alice".to_string()));
    assert!(detected.config_dir.contains("daedalus"));
    assert!(detected.cache_dir.contains("daedalus"));
    assert!(detected.data_dir.contains("daedalus"));
}
