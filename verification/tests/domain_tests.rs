use daedalus::common::{now_utc, DaedalusError, Pagination};
use daedalus::domain::ModelKind;
use daedalus::sources::CivitaiAdapter;
use daedalus::text::{decimal, decimal_i64, join_texts, to_ascii_lowercase, trim};

#[test]
fn all_kinds_in_order() {
    let all = ModelKind::all();
    assert_eq!(all.len(), 16);
    assert_eq!(all[0], ModelKind::Checkpoint);
    assert_eq!(all[15], ModelKind::Other);
}

#[test]
fn keys_parse_back_to_their_kind() {
    for kind in ModelKind::all() {
        assert_eq!(ModelKind::parse(kind.config_key()), Ok(kind));
        assert_eq!(kind.config_key().parse::<ModelKind>(), Ok(kind));
    }
}

#[test]
fn labels_and_keys() {
    assert_eq!(ModelKind::Vae.label(), "VAE");
    assert_eq!(ModelKind::Vae.config_key(), "vae");
    assert_eq!(ModelKind::AestheticGradient.label(), "Aesthetic Gradient");
    assert_eq!(ModelKind::LyCORIS.config_key(), "lycoris");
}

#[test]
fn parse_accepts_aliases_case_and_whitespace() {
    assert_eq!(ModelKind::parse("  LoRA \n"), Ok(ModelKind::LoRA));
    assert_eq!(ModelKind::parse("aesthetic-gradient"), Ok(ModelKind::AestheticGradient));
    assert_eq!(ModelKind::parse("Motion-Modules"), Ok(ModelKind::Motion));
    assert_eq!(ModelKind::parse("motion_module"), Ok(ModelKind::Motion));
}

#[test]
fn parse_rejects_unknown() {
    assert_eq!(ModelKind::parse(" Foo "), Err("unknown model kind: foo".to_string()));
}

#[test]
fn civitai_types_map_to_kinds() {
    assert_eq!(CivitaiAdapter::map_model_type("TextualInversion"), ModelKind::Embedding);
    assert_eq!(CivitaiAdapter::map_model_type(" MotionModule "), ModelKind::Motion);
    assert_eq!(CivitaiAdapter::map_model_type("Poses"), ModelKind::Poses);
    assert_eq!(CivitaiAdapter::map_model_type("Workflow"), ModelKind::Workflows);
    assert_eq!(CivitaiAdapter::map_model_type("Something"), ModelKind::Other);
}

#[test]
fn civitai_adapter_identity_and_health() {
    let adapter = CivitaiAdapter::new("https://api".to_string(), "https://web".to_string(), false);
    let info = adapter.info();
    assert_eq!(info.id, "civitai");
    assert_eq!(info.display_name, "Civitai");
    assert_eq!(info.api_base_url, "https://api");
    assert!(!info.enabled);
    let health = adapter.health();
    assert!(!health.ok);
    assert_eq!(health.detail, "disabled");
    let enabled = CivitaiAdapter::new("a".to_string(), "b".to_string(), true);
    assert_eq!(enabled.health().detail, "configured");
    let page = enabled.search_models(&daedalus::domain::SearchQuery { query: "x".to_string(), limit: 5 });
    assert!(page.items.is_empty());
    assert_eq!(page.total, 0);
}

#[test]
fn civitai_unimplemented_fetches() {
    assert_eq!(
        CivitaiAdapter::fetch_model_error("42"),
        DaedalusError::Other("Civitai model fetch is not implemented yet for model id 42".to_string())
    );
    assert_eq!(
        CivitaiAdapter::fetch_version_error("7").message(),
        "Civitai version fetch is not implemented yet for version id 7"
    );
    assert_eq!(
        CivitaiAdapter::resolve_download_error("f").message(),
        "Civitai download resolution is not implemented yet for file id f"
    );
}

#[test]
fn error_messages() {
    assert_eq!(DaedalusError::Io("disk".to_string()).message(), "io error: disk");
    assert_eq!(DaedalusError::Config("c".to_string()).message(), "config error: c");
    assert_eq!(DaedalusError::Database("d".to_string()).message(), "database error: d");
    assert_eq!(DaedalusError::Http("h".to_string()).message(), "http error: h");
    assert_eq!(DaedalusError::NotFound("n".to_string()).message(), "not found: n");
    assert_eq!(DaedalusError::Validation("v".to_string()).message(), "validation error: v");
    assert_eq!(DaedalusError::Other("o".to_string()).message(), "o");
    let p = Pagination { limit: 5, offset: 10 };
    assert_eq!(p.clone(), p);
}

#[test]
fn text_helpers() {
    assert_eq!(trim("\u{a0} a b \u{3000}"), "a b");
    assert_eq!(to_ascii_lowercase("ÄBc"), "Äbc");
    assert_eq!(decimal(0), "0");
    assert_eq!(decimal(1234567890), "1234567890");
    assert_eq!(decimal_i64(-45), "-45");
    assert_eq!(decimal_i64(i64::MIN), "-9223372036854775808");
    assert_eq!(join_texts(&vec!["a".to_string(), "b".to_string()], "; "), "a; b");
    assert_eq!(join_texts(&Vec::new(), "; "), "");
}

#[test]
fn clock_text_is_rfc3339() {
    let now = now_utc();
    assert!(now.contains('T'));
    assert!(daedalus::catalog::parse_timestamp(&now).is_ok());
}
