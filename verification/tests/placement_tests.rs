use daedalus::common::{looks_like_model_file, sanitize_path_component, supported_model_extensions};
use daedalus::domain::ModelKind;
use daedalus::paths::join_path;
use daedalus::placement::{compute_managed_path, unique_destination, PlacementInput};

#[test]
fn computes_deterministic_path() {
    let path = compute_managed_path(PlacementInput {
        root: "/models",
        kind: ModelKind::Checkpoint,
        model_name: "Deliberate Model",
        version_name: "v1.0",
        filename: "model.safetensors",
    });
    assert_eq!(path, "/models/checkpoint/Deliberate Model/v1.0/model.safetensors");
}

#[test]
fn managed_path_sanitizes_components() {
    let path = compute_managed_path(PlacementInput {
        root: "/models/",
        kind: ModelKind::AestheticGradient,
        model_name: "../../etc",
        version_name: "...",
        filename: "a/b:c?.pt",
    });
    assert_eq!(path, "/models/aesthetic_gradient/etc/unnamed/abc.pt");
}

#[test]
fn sanitize_component_cases() {
    assert_eq!(sanitize_path_component("a/b"), "ab");
    assert_eq!(sanitize_path_component(".hidden."), "hidden");
    assert_eq!(sanitize_path_component("..."), "unnamed");
    assert_eq!(sanitize_path_component(""), "unnamed");
    assert_eq!(sanitize_path_component("plain name"), "plain name");
    let long = "x".repeat(300);
    assert_eq!(sanitize_path_component(&long).len(), 255);
}

#[test]
fn join_follows_unix_rules() {
    assert_eq!(join_path("/a", "b"), "/a/b");
    assert_eq!(join_path("/a/", "b"), "/a/b");
    assert_eq!(join_path("/a", "/b"), "/b");
    assert_eq!(join_path("", "b"), "b");
    assert_eq!(join_path("a", ""), "a/");
}

#[test]
fn model_file_extensions() {
    assert_eq!(supported_model_extensions().len(), 12);
    assert!(looks_like_model_file("/m/x.safetensors"));
    assert!(looks_like_model_file("/m/x.SafeTensors"));
    assert!(looks_like_model_file("wild.TXT"));
    assert!(!looks_like_model_file("/m/x.exe"));
    assert!(!looks_like_model_file("/m/noext"));
    assert!(!looks_like_model_file("/m/.gguf"));
}

#[test]
fn free_destination_is_kept() {
    let taken = vec!["/m/other.pt".to_string()];
    assert_eq!(unique_destination("/m/a.pt", &taken), "/m/a.pt");
}

#[test]
fn taken_destination_gets_first_free_suffix() {
    let taken = vec!["/m/a.pt".to_string(), "/m/a-1.pt".to_string(), "/m/a-3.pt".to_string()];
    assert_eq!(unique_destination("/m/a.pt", &taken), "/m/a-2.pt");
}

#[test]
fn suffix_without_extension() {
    let taken = vec!["/m/model".to_string()];
    assert_eq!(unique_destination("/m/model", &taken), "/m/model-1");
}

#[test]
fn suffix_numbers_count_past_nine() {
    let mut taken = vec!["/m/a.pt".to_string()];
    for i in 1..=10 {
        taken.push(format!("/m/a-{i}.pt"));
    }
    assert_eq!(unique_destination("/m/a.pt", &taken), "/m/a-11.pt");
}
