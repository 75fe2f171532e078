//! Application configuration: its shape and defaults, resolution of the
//! configured paths against the platform directories, validation, and the
//! location of the configuration file.

use vstd::prelude::*;
use crate::common::DaedalusError;
use crate::domain::{all_kinds, kind_label, ModelKind};
use crate::paths::{is_absolute_spec, join_path, join_spec, path_equal, path_equal_spec, path_parent, path_parent_spec};
use crate::text::{
    concat2, contains_text, decimal, decimal_spec, is_blank, push_str, string_views, trim_spec,
};

verus! {

/// The configuration schema version this build reads and writes.
pub const CONFIG_VERSION: u32 = 1;

/// The whole application configuration.
#[derive(Debug, Clone, PartialEq, Eq)]
pub struct AppConfig {
    pub version: u32,
    pub library: LibraryConfig,
    pub database: DatabaseConfig,
    pub daemon: DaemonConfig,
    pub gui: GuiConfig,
    pub sources: SourcesConfig,
    pub model_paths: ModelPathConfig,
}

/// Storage roots and library behaviour.
#[derive(Debug, Clone, PartialEq, Eq)]
pub struct LibraryConfig {
    pub default_storage_root: String,
    pub temp_download_root: String,
    pub preview_cache_root: String,
    pub managed_by_kind: bool,
    pub deduplicate_by_sha256: bool,
}

/// Where the catalog database lives.
#[derive(Debug, Clone, PartialEq, Eq)]
pub struct DatabaseConfig {
    pub path: String,
}

/// The daemon's listening address.
#[derive(Debug, Clone, PartialEq, Eq)]
pub struct DaemonConfig {
    pub enabled: bool,
    pub host: String,
    pub port: u16,
}

/// How the desktop interface connects.
#[derive(Debug, Clone, PartialEq, Eq)]
pub struct GuiConfig {
    pub default_mode: GuiMode,
    pub remote_url: String,
}

/// The interface's connection mode.
#[derive(Debug, Clone, Copy, PartialEq, Eq, Structural)]
pub enum GuiMode {
    Auto,
    Embedded,
    Remote,
}

/// Per-source settings.
#[derive(Debug, Clone, PartialEq, Eq)]
pub struct SourcesConfig {
    pub civitai: CivitaiConfig,
}

/// Settings of the Civitai source.
#[derive(Debug, Clone, PartialEq, Eq)]
pub struct CivitaiConfig {
    pub enabled: bool,
    pub api_base_url: String,
    pub web_base_url: String,
    pub api_token: String,
    pub sync_preview_images: bool,
    pub sync_creator_metadata: bool,
}

/// The directory configured for each model kind.
#[derive(Debug, Clone, PartialEq, Eq)]
pub struct ModelPathConfig {
    pub checkpoint: String,
    pub embedding: String,
    pub hypernetwork: String,
    pub aesthetic_gradient: String,
    pub lora: String,
    pub lycoris: String,
    pub dora: String,
    pub controlnet: String,
    pub upscaler: String,
    pub motion: String,
    pub vae: String,
    pub poses: String,
    pub wildcards: String,
    pub workflows: String,
    pub detection: String,
    pub other: String,
}

/// The configured directory of a kind.
pub open spec fn model_path_of(paths: ModelPathConfig, kind: ModelKind) -> Seq<char> {
    match kind {
        ModelKind::Checkpoint => paths.checkpoint@,
        ModelKind::Embedding => paths.embedding@,
        ModelKind::Hypernetwork => paths.hypernetwork@,
        ModelKind::AestheticGradient => paths.aesthetic_gradient@,
        ModelKind::LoRA => paths.lora@,
        ModelKind::LyCORIS => paths.lycoris@,
        ModelKind::DoRA => paths.dora@,
        ModelKind::ControlNet => paths.controlnet@,
        ModelKind::Upscaler => paths.upscaler@,
        ModelKind::Motion => paths.motion@,
        ModelKind::Vae => paths.vae@,
        ModelKind::Poses => paths.poses@,
        ModelKind::Wildcards => paths.wildcards@,
        ModelKind::Workflows => paths.workflows@,
        ModelKind::Detection => paths.detection@,
        ModelKind::Other => paths.other@,
    }
}

/// The directory name a kind gets under the storage root by default.
pub open spec fn default_dir_name(kind: ModelKind) -> Seq<char> {
    match kind {
        ModelKind::Checkpoint => "checkpoints"@,
        ModelKind::Embedding => "embeddings"@,
        ModelKind::Hypernetwork => "hypernetworks"@,
        ModelKind::AestheticGradient => "aesthetic-gradients"@,
        ModelKind::LoRA => "loras"@,
        ModelKind::LyCORIS => "lycoris"@,
        ModelKind::DoRA => "dora"@,
        ModelKind::ControlNet => "controlnet"@,
        ModelKind::Upscaler => "upscalers"@,
        ModelKind::Motion => "motion-modules"@,
        ModelKind::Vae => "vae"@,
        ModelKind::Poses => "poses"@,
        ModelKind::Wildcards => "wildcards"@,
        ModelKind::Workflows => "workflows"@,
        ModelKind::Detection => "detection"@,
        ModelKind::Other => "other"@,
    }
}

impl ModelPathConfig {
    /// One directory per kind under `root`: `root` followed by `/` and the
    /// kind's default directory name.
    pub fn defaults(root: &str) -> (r: ModelPathConfig)
        ensures
            forall|kind: ModelKind| #[trigger] model_path_of(r, kind) == root@ + "/"@ + default_dir_name(kind),
    {
        proof {
            reveal_strlit("/");
            reveal_strlit("/checkpoints");
            reveal_strlit("checkpoints");
            reveal_strlit("/embeddings");
            reveal_strlit("embeddings");
            reveal_strlit("/hypernetworks");
            reveal_strlit("hypernetworks");
            reveal_strlit("/aesthetic-gradients");
            reveal_strlit("aesthetic-gradients");
            reveal_strlit("/loras");
            reveal_strlit("loras");
            reveal_strlit("/lycoris");
            reveal_strlit("lycoris");
            reveal_strlit("/dora");
            reveal_strlit("dora");
            reveal_strlit("/controlnet");
            reveal_strlit("controlnet");
            reveal_strlit("/upscalers");
            reveal_strlit("upscalers");
            reveal_strlit("/motion-modules");
            reveal_strlit("motion-modules");
            reveal_strlit("/vae");
            reveal_strlit("vae");
            reveal_strlit("/poses");
            reveal_strlit("poses");
            reveal_strlit("/wildcards");
            reveal_strlit("wildcards");
            reveal_strlit("/workflows");
            reveal_strlit("workflows");
            reveal_strlit("/detection");
            reveal_strlit("detection");
            reveal_strlit("/other");
            reveal_strlit("other");
        }
        let r = ModelPathConfig {
            checkpoint: concat2(root, "/checkpoints"),
            embedding: concat2(root, "/embeddings"),
            hypernetwork: concat2(root, "/hypernetworks"),
            aesthetic_gradient: concat2(root, "/aesthetic-gradients"),
            lora: concat2(root, "/loras"),
            lycoris: concat2(root, "/lycoris"),
            dora: concat2(root, "/dora"),
            controlnet: concat2(root, "/controlnet"),
            upscaler: concat2(root, "/upscalers"),
            motion: concat2(root, "/motion-modules"),
            vae: concat2(root, "/vae"),
            poses: concat2(root, "/poses"),
            wildcards: concat2(root, "/wildcards"),
            workflows: concat2(root, "/workflows"),
            detection: concat2(root, "/detection"),
            other: concat2(root, "/other"),
        };
        proof {
            assert("/checkpoints"@ =~= "/"@ + "checkpoints"@);
            assert("/embeddings"@ =~= "/"@ + "embeddings"@);
            assert("/hypernetworks"@ =~= "/"@ + "hypernetworks"@);
            assert("/aesthetic-gradients"@ =~= "/"@ + "aesthetic-gradients"@);
            assert("/loras"@ =~= "/"@ + "loras"@);
            assert("/lycoris"@ =~= "/"@ + "lycoris"@);
            assert("/dora"@ =~= "/"@ + "dora"@);
            assert("/controlnet"@ =~= "/"@ + "controlnet"@);
            assert("/upscalers"@ =~= "/"@ + "upscalers"@);
            assert("/motion-modules"@ =~= "/"@ + "motion-modules"@);
            assert("/vae"@ =~= "/"@ + "vae"@);
            assert("/poses"@ =~= "/"@ + "poses"@);
            assert("/wildcards"@ =~= "/"@ + "wildcards"@);
            assert("/workflows"@ =~= "/"@ + "workflows"@);
            assert("/detection"@ =~= "/"@ + "detection"@);
            assert("/other"@ =~= "/"@ + "other"@);
        }
        r
    }

    /// The `(kind, directory)` pairs in kind order.
    pub fn iter(&self) -> (r: Vec<(ModelKind, &str)>)
        ensures
            r@.len() == all_kinds().len(),
            forall|i: int|
                0 <= i < r@.len() ==> (#[trigger] r@[i]).0 == all_kinds()[i] && r@[i].1@
                    == model_path_of(*self, all_kinds()[i]),
    {
        let mut v: Vec<(ModelKind, &str)> = Vec::new();
        v.push((ModelKind::Checkpoint, self.checkpoint.as_str()));
        v.push((ModelKind::Embedding, self.embedding.as_str()));
        v.push((ModelKind::Hypernetwork, self.hypernetwork.as_str()));
        v.push((ModelKind::AestheticGradient, self.aesthetic_gradient.as_str()));
        v.push((ModelKind::LoRA, self.lora.as_str()));
        v.push((ModelKind::LyCORIS, self.lycoris.as_str()));
        v.push((ModelKind::DoRA, self.dora.as_str()));
        v.push((ModelKind::ControlNet, self.controlnet.as_str()));
        v.push((ModelKind::Upscaler, self.upscaler.as_str()));
        v.push((ModelKind::Motion, self.motion.as_str()));
        v.push((ModelKind::Vae, self.vae.as_str()));
        v.push((ModelKind::Poses, self.poses.as_str()));
        v.push((ModelKind::Wildcards, self.wildcards.as_str()));
        v.push((ModelKind::Workflows, self.workflows.as_str()));
        v.push((ModelKind::Detection, self.detection.as_str()));
        v.push((ModelKind::Other, self.other.as_str()));
        v
    }

    /// The directory configured for `kind`.
    pub fn get(&self, kind: ModelKind) -> (r: &str)
        ensures
            r@ == model_path_of(*self, kind),
    {
        match kind {
            ModelKind::Checkpoint => self.checkpoint.as_str(),
            ModelKind::Embedding => self.embedding.as_str(),
            ModelKind::Hypernetwork => self.hypernetwork.as_str(),
            ModelKind::AestheticGradient => self.aesthetic_gradient.as_str(),
            ModelKind::LoRA => self.lora.as_str(),
            ModelKind::LyCORIS => self.lycoris.as_str(),
            ModelKind::DoRA => self.dora.as_str(),
            ModelKind::ControlNet => self.controlnet.as_str(),
            ModelKind::Upscaler => self.upscaler.as_str(),
            ModelKind::Motion => self.motion.as_str(),
            ModelKind::Vae => self.vae.as_str(),
            ModelKind::Poses => self.poses.as_str(),
            ModelKind::Wildcards => self.wildcards.as_str(),
            ModelKind::Workflows => self.workflows.as_str(),
            ModelKind::Detection => self.detection.as_str(),
            ModelKind::Other => self.other.as_str(),
        }
    }
}

/// Whether expansion is known to leave a configured path unchanged: it
/// holds no `$` and does not start with `~`.
pub open spec fn plain_path(raw: Seq<char>) -> bool {
    !raw.contains('$') && !(raw.len() > 0 && raw[0] == '~')
}

/// What is known of the expansion `expanded` of a configured path `raw`.
pub open spec fn expansion_of(raw: Seq<char>, expanded: Seq<char>) -> bool {
    plain_path(raw) ==> expanded == raw
}

/// Calls `shellexpand::full`.
///
/// Trusted. The result depends on the environment and the home directory.
/// From the crate's source: a text without `$` is never an error, and a
/// text without `$` that does not start with `~` is returned unchanged.
#[verifier::external_body]
fn shell_expand(raw: &str) -> (r: Result<String, String>)
    ensures
        !raw@.contains('$') ==> r is Ok,
        r matches Ok(e) ==> expansion_of(raw@, e@),
{
    match shellexpand::full(raw) {
        Ok(expanded) => Ok(expanded.into_owned()),
        Err(err) => Err(err.to_string()),
    }
}

/// Expands a configured path; a failure becomes a configuration error.
fn expand_path(raw: &str) -> (r: Result<String, DaedalusError>)
    ensures
        r matches Ok(e) ==> expansion_of(raw@, e@),
        r matches Err(err) ==> err is Config && !plain_path(raw@),
{
    match shell_expand(raw) {
        Ok(expanded) => Ok(expanded),
        Err(detail) => {
            let mut message = concat2("failed to expand path '", raw);
            push_str(&mut message, "': ");
            push_str(&mut message, detail.as_str());
            Err(DaedalusError::Config(message))
        },
    }
}

impl ModelPathConfig {
    /// Each configured directory, expanded.
    fn expanded(&self) -> (r: Result<ModelPathConfig, DaedalusError>)
        ensures
            r matches Ok(e) ==> forall|kind: ModelKind| #[trigger] expansion_of(model_path_of(*self, kind), model_path_of(e, kind)),
            r matches Err(err) ==> err is Config && !(forall|kind: ModelKind| #[trigger] plain_path(model_path_of(*self, kind))),
    {
        let checkpoint = match expand_path(self.checkpoint.as_str()) {
            Ok(e) => e,
            Err(err) => {
                assert(!plain_path(model_path_of(*self, ModelKind::Checkpoint)));
                return Err(err);
            },
        };
        let embedding = match expand_path(self.embedding.as_str()) {
            Ok(e) => e,
            Err(err) => {
                assert(!plain_path(model_path_of(*self, ModelKind::Embedding)));
                return Err(err);
            },
        };
        let hypernetwork = match expand_path(self.hypernetwork.as_str()) {
            Ok(e) => e,
            Err(err) => {
                assert(!plain_path(model_path_of(*self, ModelKind::Hypernetwork)));
                return Err(err);
            },
        };
        let aesthetic_gradient = match expand_path(self.aesthetic_gradient.as_str()) {
            Ok(e) => e,
            Err(err) => {
                assert(!plain_path(model_path_of(*self, ModelKind::AestheticGradient)));
                return Err(err);
            },
        };
        let lora = match expand_path(self.lora.as_str()) {
            Ok(e) => e,
            Err(err) => {
                assert(!plain_path(model_path_of(*self, ModelKind::LoRA)));
                return Err(err);
            },
        };
        let lycoris = match expand_path(self.lycoris.as_str()) {
            Ok(e) => e,
            Err(err) => {
                assert(!plain_path(model_path_of(*self, ModelKind::LyCORIS)));
                return Err(err);
            },
        };
        let dora = match expand_path(self.dora.as_str()) {
            Ok(e) => e,
            Err(err) => {
                assert(!plain_path(model_path_of(*self, ModelKind::DoRA)));
                return Err(err);
            },
        };
        let controlnet = match expand_path(self.controlnet.as_str()) {
            Ok(e) => e,
            Err(err) => {
                assert(!plain_path(model_path_of(*self, ModelKind::ControlNet)));
                return Err(err);
            },
        };
        let upscaler = match expand_path(self.upscaler.as_str()) {
            Ok(e) => e,
            Err(err) => {
                assert(!plain_path(model_path_of(*self, ModelKind::Upscaler)));
                return Err(err);
            },
        };
        let motion = match expand_path(self.motion.as_str()) {
            Ok(e) => e,
            Err(err) => {
                assert(!plain_path(model_path_of(*self, ModelKind::Motion)));
                return Err(err);
            },
        };
        let vae = match expand_path(self.vae.as_str()) {
            Ok(e) => e,
            Err(err) => {
                assert(!plain_path(model_path_of(*self, ModelKind::Vae)));
                return Err(err);
            },
        };
        let poses = match expand_path(self.poses.as_str()) {
            Ok(e) => e,
            Err(err) => {
                assert(!plain_path(model_path_of(*self, ModelKind::Poses)));
                return Err(err);
            },
        };
        let wildcards = match expand_path(self.wildcards.as_str()) {
            Ok(e) => e,
            Err(err) => {
                assert(!plain_path(model_path_of(*self, ModelKind::Wildcards)));
                return Err(err);
            },
        };
        let workflows = match expand_path(self.workflows.as_str()) {
            Ok(e) => e,
            Err(err) => {
                assert(!plain_path(model_path_of(*self, ModelKind::Workflows)));
                return Err(err);
            },
        };
        let detection = match expand_path(self.detection.as_str()) {
            Ok(e) => e,
            Err(err) => {
                assert(!plain_path(model_path_of(*self, ModelKind::Detection)));
                return Err(err);
            },
        };
        let other = match expand_path(self.other.as_str()) {
            Ok(e) => e,
            Err(err) => {
                assert(!plain_path(model_path_of(*self, ModelKind::Other)));
                return Err(err);
            },
        };
        let e = ModelPathConfig {
            checkpoint,
            embedding,
            hypernetwork,
            aesthetic_gradient,
            lora,
            lycoris,
            dora,
            controlnet,
            upscaler,
            motion,
            vae,
            poses,
            wildcards,
            workflows,
            detection,
            other,
        };
        assert forall|kind: ModelKind| #[trigger] expansion_of(model_path_of(*self, kind), model_path_of(e, kind)) by {
            match kind {
                ModelKind::Checkpoint => {},
                ModelKind::Embedding => {},
                ModelKind::Hypernetwork => {},
                ModelKind::AestheticGradient => {},
                ModelKind::LoRA => {},
                ModelKind::LyCORIS => {},
                ModelKind::DoRA => {},
                ModelKind::ControlNet => {},
                ModelKind::Upscaler => {},
                ModelKind::Motion => {},
                ModelKind::Vae => {},
                ModelKind::Poses => {},
                ModelKind::Wildcards => {},
                ModelKind::Workflows => {},
                ModelKind::Detection => {},
                ModelKind::Other => {},
            }
        }
        Ok(e)
    }
}

/// The platform directories for configuration, cache and data.
#[derive(Debug, Clone, PartialEq, Eq)]
pub struct PlatformPaths {
    pub config_dir: String,
    pub cache_dir: String,
    pub data_dir: String,
}

/// Whether a directory text holds the application's name `daedalus`.
pub open spec fn names_app_dir(path: Seq<char>) -> bool {
    exists|i: int| 0 <= i && i + 8 <= path.len() && #[trigger] path.subrange(i, i + 8) == "daedalus"@
}

/// Whether the configuration, cache and data directories are all the
/// application's own: each holds the name `daedalus`.
pub open spec fn app_dirs(p: PlatformPaths) -> bool {
    &&& names_app_dir(p.config_dir@)
    &&& names_app_dir(p.cache_dir@)
    &&& names_app_dir(p.data_dir@)
}

/// Calls `directories::ProjectDirs::from("", "", "daedalus")`.
///
/// Trusted: converts the project's config, cache and local data
/// directories to text. Which directories come back depends on the
/// environment and the user database, and is left unsaid. From the crate's
/// source, each of them is a base directory joined with the project path,
/// which for these arguments is `daedalus` (Linux and macOS) or `daedalus`
/// followed by `config`, `cache` or `data` (Windows); the lossy conversion
/// keeps those ASCII characters. So each text holds `daedalus`.
#[verifier::external_body]
fn project_dirs() -> (r: Option<PlatformPaths>)
    ensures
        r matches Some(p) ==> app_dirs(p),
{
    directories::ProjectDirs::from("", "", "daedalus").map(
        |dirs| PlatformPaths {
            config_dir: dirs.config_dir().to_string_lossy().into_owned(),
            cache_dir: dirs.cache_dir().to_string_lossy().into_owned(),
            data_dir: dirs.data_local_dir().to_string_lossy().into_owned(),
        },
    )
}

/// The directories used when the platform reports none: under `home`.
pub open spec fn fallback_paths_hold(p: PlatformPaths, home: Seq<char>) -> bool {
    &&& p.config_dir@ == join_spec(home, ".config/daedalus"@)
    &&& p.cache_dir@ == join_spec(home, ".cache/daedalus"@)
    &&& p.data_dir@ == join_spec(home, ".local/share/daedalus"@)
}

/// A relative part ending in `daedalus`, joined onto any base, gives a
/// directory that holds the name.
proof fn lemma_join_names_app(base: Seq<char>, part: Seq<char>)
    requires
        part.len() >= 8,
        part[0] == '.',
        part.subrange(part.len() - 8, part.len() as int) == "daedalus"@,
    ensures
        names_app_dir(join_spec(base, part)),
{
    let j = join_spec(base, part);
    assert(!is_absolute_spec(part));
    let i = j.len() - 8;
    assert(j.subrange(i, i + 8) =~= part.subrange(part.len() - 8, part.len() as int));
}

impl PlatformPaths {
    /// The directories under a home directory: `.config/daedalus`,
    /// `.cache/daedalus` and `.local/share/daedalus`.
    pub fn under_home(home: &str) -> (r: PlatformPaths)
        ensures
            fallback_paths_hold(r, home@),
    {
        PlatformPaths {
            config_dir: join_path(home, ".config/daedalus"),
            cache_dir: join_path(home, ".cache/daedalus"),
            data_dir: join_path(home, ".local/share/daedalus"),
        }
    }

    /// The platform's answer when there is one; otherwise the directories
    /// under the `HOME` value, or under `.` when `HOME` is unset.
    pub fn from_detected(detected: Option<PlatformPaths>, home: Option<String>) -> (r: PlatformPaths)
        ensures
            match detected {
                Some(p) => r == p,
                None => fallback_paths_hold(
                    r,
                    match home {
                        Some(h) => h@,
                        None => "."@,
                    },
                ),
            },
    {
        match detected {
            Some(p) => p,
            None => match home {
                Some(h) => PlatformPaths::under_home(h.as_str()),
                None => PlatformPaths::under_home("."),
            },
        }
    }

    /// Detects the platform directories; `home` is the value of `HOME`,
    /// used when the platform reports none. Either way the three
    /// directories are the application's own.
    pub fn detect(home: Option<String>) -> (r: PlatformPaths)
        ensures
            app_dirs(r),
    {
        let detected = project_dirs();
        let ghost given_home = home;
        let ghost answer = detected;
        let r = PlatformPaths::from_detected(detected, home);
        proof {
            if answer is None {
                reveal_strlit(".config/daedalus");
                reveal_strlit(".cache/daedalus");
                reveal_strlit(".local/share/daedalus");
                reveal_strlit("daedalus");
                assert(".config/daedalus"@.subrange(8, 16) =~= "daedalus"@);
                assert(".cache/daedalus"@.subrange(7, 15) =~= "daedalus"@);
                assert(".local/share/daedalus"@.subrange(13, 21) =~= "daedalus"@);
                let base = match given_home {
                    Some(h) => h@,
                    None => "."@,
                };
                lemma_join_names_app(base, ".config/daedalus"@);
                lemma_join_names_app(base, ".cache/daedalus"@);
                lemma_join_names_app(base, ".local/share/daedalus"@);
            }
        }
        r
    }

    /// `config.toml` in the configuration directory.
    pub fn default_config_path(&self) -> (r: String)
        ensures
            r@ == join_spec(self.config_dir@, "config.toml"@),
    {
        join_path(self.config_dir.as_str(), "config.toml")
    }
}

/// The defaults of a configuration on a platform.
pub open spec fn is_default_config(c: AppConfig, p: PlatformPaths) -> bool {
    let models_root = join_spec(p.data_dir@, "models"@);
    &&& c.version == CONFIG_VERSION
    &&& c.library.default_storage_root@ == models_root
    &&& c.library.temp_download_root@ == join_spec(models_root, ".tmp"@)
    &&& c.library.preview_cache_root@ == join_spec(p.cache_dir@, "previews"@)
    &&& c.library.managed_by_kind
    &&& c.library.deduplicate_by_sha256
    &&& c.database.path@ == join_spec(p.data_dir@, "daedalus.db"@)
    &&& c.daemon.enabled
    &&& c.daemon.host@ == "127.0.0.1"@
    &&& c.daemon.port == 4590
    &&& c.gui.default_mode == GuiMode::Auto
    &&& c.gui.remote_url@ == "http://127.0.0.1:4590"@
    &&& c.sources.civitai.enabled
    &&& c.sources.civitai.api_base_url@ == "https://civitai.com/api/v1"@
    &&& c.sources.civitai.web_base_url@ == "https://civitai.com"@
    &&& c.sources.civitai.api_token@ == Seq::<char>::empty()
    &&& c.sources.civitai.sync_preview_images
    &&& c.sources.civitai.sync_creator_metadata
    &&& forall|kind: ModelKind|
        #[trigger] model_path_of(c.model_paths, kind) == models_root + "/"@ + default_dir_name(kind)
}

impl AppConfig {
    /// The default configuration for the given platform directories: the
    /// models live under `models` in the data directory, previews under the
    /// cache directory, the daemon listens on 127.0.0.1:4590.
    pub fn for_platform(platform: &PlatformPaths) -> (r: AppConfig)
        ensures
            is_default_config(r, *platform),
    {
        let models_root = join_path(platform.data_dir.as_str(), "models");
        let temp = join_path(models_root.as_str(), ".tmp");
        let model_paths = ModelPathConfig::defaults(models_root.as_str());
        AppConfig {
            version: CONFIG_VERSION,
            library: LibraryConfig {
                default_storage_root: models_root,
                temp_download_root: temp,
                preview_cache_root: join_path(platform.cache_dir.as_str(), "previews"),
                managed_by_kind: true,
                deduplicate_by_sha256: true,
            },
            database: DatabaseConfig {
                path: join_path(platform.data_dir.as_str(), "daedalus.db"),
            },
            daemon: DaemonConfig { enabled: true, host: "127.0.0.1".to_owned(), port: 4590 },
            gui: GuiConfig {
                default_mode: GuiMode::Auto,
                remote_url: "http://127.0.0.1:4590".to_owned(),
            },
            sources: SourcesConfig {
                civitai: CivitaiConfig {
                    enabled: true,
                    api_base_url: "https://civitai.com/api/v1".to_owned(),
                    web_base_url: "https://civitai.com".to_owned(),
                    api_token: String::new(),
                    sync_preview_images: true,
                    sync_creator_metadata: true,
                },
            },
            model_paths,
        }
    }
}

/// The configuration with every path resolved to an absolute or
/// root-relative location.
#[derive(Debug, Clone, PartialEq, Eq)]
pub struct ResolvedConfig {
    pub config_dir: String,
    pub cache_dir: String,
    pub data_dir: String,
    pub default_storage_root: String,
    pub temp_download_root: String,
    pub preview_cache_root: String,
    pub database_path: String,
    pub model_paths: Vec<(ModelKind, String)>,
}

/// The texts of a resolved configuration.
pub struct ResolvedView {
    pub config_dir: Seq<char>,
    pub cache_dir: Seq<char>,
    pub data_dir: Seq<char>,
    pub default_storage_root: Seq<char>,
    pub temp_download_root: Seq<char>,
    pub preview_cache_root: Seq<char>,
    pub database_path: Seq<char>,
    pub model_paths: Seq<(ModelKind, Seq<char>)>,
}

/// The texts of `(kind, path)` pairs.
pub open spec fn kind_path_views(v: Seq<(ModelKind, String)>) -> Seq<(ModelKind, Seq<char>)> {
    Seq::new(v.len(), |i: int| (v[i].0, v[i].1@))
}

/// The paths of the first `n` `(kind, path)` pairs.
pub open spec fn path_texts(v: Seq<(ModelKind, String)>, n: nat) -> Seq<Seq<char>> {
    Seq::new(n, |k: int| v[k].1@)
}

impl View for ResolvedConfig {
    type V = ResolvedView;

    open spec fn view(&self) -> ResolvedView {
        ResolvedView {
            config_dir: self.config_dir@,
            cache_dir: self.cache_dir@,
            data_dir: self.data_dir@,
            default_storage_root: self.default_storage_root@,
            temp_download_root: self.temp_download_root@,
            preview_cache_root: self.preview_cache_root@,
            database_path: self.database_path@,
            model_paths: kind_path_views(self.model_paths@),
        }
    }
}

/// The resolution of expanded paths: the storage root and the database
/// against the data directory, the temporary root and each kind's
/// directory against the storage root, the preview cache against the cache
/// directory.
pub open spec fn resolve_view(
    p: PlatformPaths,
    root: Seq<char>,
    temp: Seq<char>,
    preview: Seq<char>,
    database: Seq<char>,
    models: ModelPathConfig,
) -> ResolvedView {
    let storage_root = join_spec(p.data_dir@, root);
    ResolvedView {
        config_dir: p.config_dir@,
        cache_dir: p.cache_dir@,
        data_dir: p.data_dir@,
        default_storage_root: storage_root,
        temp_download_root: join_spec(storage_root, temp),
        preview_cache_root: join_spec(p.cache_dir@, preview),
        database_path: join_spec(p.data_dir@, database),
        model_paths: Seq::new(
            all_kinds().len(),
            |i: int| (all_kinds()[i], join_spec(storage_root, model_path_of(models, all_kinds()[i]))),
        ),
    }
}

/// Whether every configured path is known to expand to itself.
pub open spec fn all_paths_plain(c: AppConfig) -> bool {
    &&& plain_path(c.library.default_storage_root@)
    &&& plain_path(c.library.temp_download_root@)
    &&& plain_path(c.library.preview_cache_root@)
    &&& plain_path(c.database.path@)
    &&& forall|kind: ModelKind| #[trigger] plain_path(model_path_of(c.model_paths, kind))
}

/// Whether `v` is a resolution of `c` on platform `p` for some expansion of
/// its paths.
pub open spec fn is_resolution(c: AppConfig, p: PlatformPaths, v: ResolvedView) -> bool {
    exists|root: Seq<char>, temp: Seq<char>, preview: Seq<char>, database: Seq<char>, models: ModelPathConfig|
        {
            &&& expansion_of(c.library.default_storage_root@, root)
            &&& expansion_of(c.library.temp_download_root@, temp)
            &&& expansion_of(c.library.preview_cache_root@, preview)
            &&& expansion_of(c.database.path@, database)
            &&& (forall|kind: ModelKind| #[trigger] expansion_of(model_path_of(c.model_paths, kind), model_path_of(models, kind)))
            &&& v == resolve_view(p, root, temp, preview, database, models)
        }
}

/// Whether `path` is `base` with `part` under it: `base` comes first,
/// then at most one separator, then `part`, and nothing else.
pub open spec fn placed_under(path: Seq<char>, base: Seq<char>, part: Seq<char>) -> bool {
    &&& base.len() <= path.len()
    &&& path.subrange(0, base.len() as int) == base
    &&& part.len() <= path.len()
    &&& path.subrange(path.len() - part.len(), path.len() as int) == part
    &&& (path.len() == base.len() + part.len() || (path.len() == base.len() + part.len() + 1
        && path[base.len() as int] == '/'))
}

/// Joining a relative part onto a base places it under the base.
proof fn lemma_join_places_under(base: Seq<char>, part: Seq<char>)
    requires
        !is_absolute_spec(part),
    ensures
        placed_under(join_spec(base, part), base, part),
{
    reveal_strlit("/");
    let j = join_spec(base, part);
    if !(base.len() == 0 || base.last() == '/') {
        assert(j[base.len() as int] == '/');
    }
    assert(j.subrange(0, base.len() as int) =~= base);
    assert(j.subrange(j.len() - part.len(), j.len() as int) =~= part);
}

/// A resolution puts the preview cache in the platform cache directory and
/// the database and the storage root in the platform data directory: a
/// relative configured path is placed under that directory, an absolute one
/// is kept as it is. (Paths holding `$` or starting with `~` are expanded
/// first, which depends on the environment.)
pub proof fn lemma_resolution_base_directories(c: AppConfig, p: PlatformPaths, v: ResolvedView)
    requires
        is_resolution(c, p, v),
        plain_path(c.library.default_storage_root@),
        plain_path(c.library.temp_download_root@),
        plain_path(c.library.preview_cache_root@),
        plain_path(c.database.path@),
    ensures
        is_absolute_spec(c.library.preview_cache_root@) ==> v.preview_cache_root
            == c.library.preview_cache_root@,
        !is_absolute_spec(c.library.preview_cache_root@) ==> placed_under(
            v.preview_cache_root,
            p.cache_dir@,
            c.library.preview_cache_root@,
        ),
        is_absolute_spec(c.database.path@) ==> v.database_path == c.database.path@,
        !is_absolute_spec(c.database.path@) ==> placed_under(
            v.database_path,
            p.data_dir@,
            c.database.path@,
        ),
        is_absolute_spec(c.library.default_storage_root@) ==> v.default_storage_root
            == c.library.default_storage_root@,
        !is_absolute_spec(c.library.default_storage_root@) ==> placed_under(
            v.default_storage_root,
            p.data_dir@,
            c.library.default_storage_root@,
        ),
        !is_absolute_spec(c.library.temp_download_root@) ==> placed_under(
            v.temp_download_root,
            v.default_storage_root,
            c.library.temp_download_root@,
        ),
{
    if !is_absolute_spec(c.library.preview_cache_root@) {
        lemma_join_places_under(p.cache_dir@, c.library.preview_cache_root@);
    }
    if !is_absolute_spec(c.database.path@) {
        lemma_join_places_under(p.data_dir@, c.database.path@);
    }
    if !is_absolute_spec(c.library.default_storage_root@) {
        lemma_join_places_under(p.data_dir@, c.library.default_storage_root@);
    }
    if !is_absolute_spec(c.library.temp_download_root@) {
        lemma_join_places_under(v.default_storage_root, c.library.temp_download_root@);
    }
}

/// The resolution of a configuration whose paths expand to themselves.
pub open spec fn plain_resolution(c: AppConfig, p: PlatformPaths) -> ResolvedView {
    resolve_view(
        p,
        c.library.default_storage_root@,
        c.library.temp_download_root@,
        c.library.preview_cache_root@,
        c.database.path@,
        c.model_paths,
    )
}

proof fn lemma_resolve_view_models(
    p: PlatformPaths,
    root: Seq<char>,
    temp: Seq<char>,
    preview: Seq<char>,
    database: Seq<char>,
    m1: ModelPathConfig,
    m2: ModelPathConfig,
)
    requires
        forall|kind: ModelKind| #[trigger] model_path_of(m1, kind) == model_path_of(m2, kind),
    ensures
        resolve_view(p, root, temp, preview, database, m1) == resolve_view(
            p,
            root,
            temp,
            preview,
            database,
            m2,
        ),
{
    let a = resolve_view(p, root, temp, preview, database, m1);
    let b = resolve_view(p, root, temp, preview, database, m2);
    assert(a.model_paths =~= b.model_paths) by {
        assert forall|i: int| 0 <= i < a.model_paths.len() implies a.model_paths[i] == b.model_paths[i] by {
            assert(model_path_of(m1, all_kinds()[i]) == model_path_of(m2, all_kinds()[i]));
        }
    }
}

impl ResolvedConfig {
    /// Resolves already expanded paths against the platform directories.
    pub fn from_expanded(
        platform: &PlatformPaths,
        root: &str,
        temp: &str,
        preview: &str,
        database: &str,
        models: &ModelPathConfig,
    ) -> (r: ResolvedConfig)
        ensures
            r@ == resolve_view(*platform, root@, temp@, preview@, database@, *models),
    {
        let storage_root = join_path(platform.data_dir.as_str(), root);
        let pairs = models.iter();
        let mut model_paths: Vec<(ModelKind, String)> = Vec::new();
        let mut i: usize = 0;
        while i < pairs.len()
            invariant
                pairs@.len() == all_kinds().len(),
                forall|k: int|
                    0 <= k < pairs@.len() ==> (#[trigger] pairs@[k]).0 == all_kinds()[k] && pairs@[k].1@
                        == model_path_of(*models, all_kinds()[k]),
                i <= pairs.len(),
                model_paths@.len() == i,
                forall|k: int|
                    0 <= k < i ==> (#[trigger] model_paths@[k]).0 == all_kinds()[k] && model_paths@[k].1@
                        == join_spec(storage_root@, model_path_of(*models, all_kinds()[k])),
            decreases pairs.len() - i,
        {
            let (kind, raw) = pairs[i];
            model_paths.push((kind, join_path(storage_root.as_str(), raw)));
            i = i + 1;
        }
        let r = ResolvedConfig {
            config_dir: platform.config_dir.clone(),
            cache_dir: platform.cache_dir.clone(),
            data_dir: platform.data_dir.clone(),
            temp_download_root: join_path(storage_root.as_str(), temp),
            default_storage_root: storage_root,
            preview_cache_root: join_path(platform.cache_dir.as_str(), preview),
            database_path: join_path(platform.data_dir.as_str(), database),
            model_paths,
        };
        assert(r@.model_paths =~= resolve_view(*platform, root@, temp@, preview@, database@, *models).model_paths);
        r
    }

    /// Every directory that must exist before the service runs: the
    /// platform directories, the storage, temporary and preview roots, the
    /// database's parent (when it has one) and each kind's directory.
    pub fn required_directories(&self) -> (r: Vec<String>)
        ensures
            string_views(r@) == seq![
                self.config_dir@,
                self.cache_dir@,
                self.data_dir@,
                self.default_storage_root@,
                self.temp_download_root@,
                self.preview_cache_root@,
            ] + match path_parent_spec(self.database_path@) {
                Some(parent) => seq![parent],
                None => Seq::<Seq<char>>::empty(),
            } + path_texts(self.model_paths@, self.model_paths@.len()),
    {
        let mut r: Vec<String> = Vec::new();
        r.push(self.config_dir.clone());
        r.push(self.cache_dir.clone());
        r.push(self.data_dir.clone());
        r.push(self.default_storage_root.clone());
        r.push(self.temp_download_root.clone());
        r.push(self.preview_cache_root.clone());
        let ghost head = string_views(r@);
        match path_parent(self.database_path.as_str()) {
            Some(parent) => r.push(parent),
            None => {},
        }
        let ghost fixed = string_views(r@);
        let mut i: usize = 0;
        while i < self.model_paths.len()
            invariant
                i <= self.model_paths@.len(),
                string_views(r@) == fixed + path_texts(self.model_paths@, i as nat),
            decreases self.model_paths.len() - i,
        {
            let ghost before = r@;
            let item = self.model_paths[i].1.clone();
            r.push(item);
            assert(r@ == before.push(item));
            assert(item@ == self.model_paths@[i as int].1@);
            assert(string_views(r@) =~= string_views(before).push(item@));
            assert(string_views(r@) =~= fixed + path_texts(self.model_paths@, (i + 1) as nat));
            i = i + 1;
        }
        assert(string_views(r@) =~= seq![
            self.config_dir@,
            self.cache_dir@,
            self.data_dir@,
            self.default_storage_root@,
            self.temp_download_root@,
            self.preview_cache_root@,
        ] + match path_parent_spec(self.database_path@) {
            Some(parent) => seq![parent],
            None => Seq::<Seq<char>>::empty(),
        } + path_texts(self.model_paths@, self.model_paths@.len()));
        r
    }
}

impl AppConfig {
    /// Resolves every configured path: each is expanded (`~`, `$VAR`) and,
    /// when relative, placed under its base directory.
    pub fn resolved(&self, platform: &PlatformPaths) -> (r: Result<ResolvedConfig, DaedalusError>)
        ensures
            r matches Ok(rc) ==> is_resolution(*self, *platform, rc@),
            all_paths_plain(*self) ==> (r matches Ok(rc) && rc@ == plain_resolution(*self, *platform)),
            r matches Err(e) ==> e is Config && !all_paths_plain(*self),
    {
        let root = expand_path(self.library.default_storage_root.as_str())?;
        let temp = expand_path(self.library.temp_download_root.as_str())?;
        let preview = expand_path(self.library.preview_cache_root.as_str())?;
        let database = expand_path(self.database.path.as_str())?;
        let models = self.model_paths.expanded()?;
        let rc = ResolvedConfig::from_expanded(
            platform,
            root.as_str(),
            temp.as_str(),
            preview.as_str(),
            database.as_str(),
            &models,
        );
        proof {
            assert(is_resolution(*self, *platform, rc@));
            if all_paths_plain(*self) {
                assert forall|kind: ModelKind| #[trigger] model_path_of(models, kind) == model_path_of(self.model_paths, kind) by {
                    assert(plain_path(model_path_of(self.model_paths, kind)));
                    assert(expansion_of(model_path_of(self.model_paths, kind), model_path_of(models, kind)));
                }
                lemma_resolve_view_models(*platform, root@, temp@, preview@, database@, models, self.model_paths);
            }
        }
        Ok(rc)
    }
}

/// Problems found in a configuration: errors refuse it, warnings do not.
#[derive(Debug, Clone, PartialEq, Eq)]
pub struct ValidationReport {
    pub errors: Vec<String>,
    pub warnings: Vec<String>,
}

impl ValidationReport {
    /// Whether the report holds no error.
    pub fn is_ok(&self) -> (r: bool)
        ensures
            r == (self.errors@.len() == 0),
    {
        self.errors.len() == 0
    }
}

/// The error for an unsupported schema version, if any.
pub open spec fn version_errors(c: AppConfig) -> Seq<Seq<char>> {
    if c.version != CONFIG_VERSION {
        seq![
            "unsupported config version "@ + decimal_spec(c.version as nat) + "; expected "@
                + decimal_spec(CONFIG_VERSION as nat),
        ]
    } else {
        Seq::empty()
    }
}

/// The errors for blank daemon host and remote URL.
pub open spec fn address_errors(c: AppConfig) -> Seq<Seq<char>> {
    (if trim_spec(c.daemon.host@).len() == 0 {
        seq!["daemon.host must not be empty"@]
    } else {
        Seq::empty()
    }) + (if trim_spec(c.gui.remote_url@).len() == 0 {
        seq!["gui.remote_url must not be empty"@]
    } else {
        Seq::empty()
    })
}

/// Whether the `i`-th resolved directory equals an earlier one.
pub open spec fn is_duplicate_at(paths: Seq<(ModelKind, Seq<char>)>, i: int) -> bool {
    exists|j: int| 0 <= j < i && path_equal_spec(#[trigger] paths[j].1, paths[i].1)
}

/// The error for a kind whose directory repeats an earlier one.
pub open spec fn duplicate_message(kind: ModelKind, path: Seq<char>) -> Seq<char> {
    "model path for "@ + kind_label(kind) + " resolves to a duplicate directory: "@ + path
}

/// The warning for a kind whose directory does not exist.
pub open spec fn missing_dir_message(kind: ModelKind, path: Seq<char>) -> Seq<char> {
    "model path for "@ + kind_label(kind) + " does not exist yet: "@ + path
}

/// The duplicate-directory errors among the first `n` resolved directories.
pub open spec fn duplicate_errors(paths: Seq<(ModelKind, Seq<char>)>, n: nat) -> Seq<Seq<char>>
    decreases n,
{
    if n == 0 {
        Seq::empty()
    } else {
        let i = (n - 1) as nat;
        duplicate_errors(paths, i) + if is_duplicate_at(paths, i as int) {
            seq![duplicate_message(paths[i as int].0, paths[i as int].1)]
        } else {
            Seq::empty()
        }
    }
}

/// Whether two kinds resolve to the same directory text.
pub open spec fn has_repeated_path(paths: Seq<(ModelKind, Seq<char>)>) -> bool {
    exists|a: int, b: int|
        0 <= a < b < paths.len() && #[trigger] paths[a].1 == #[trigger] paths[b].1
}

/// A repeated directory at position `b` leaves a duplicate error among the
/// first `n` directories, for every `n` past `b`.
proof fn lemma_duplicate_reported(paths: Seq<(ModelKind, Seq<char>)>, b: int, n: nat)
    requires
        0 <= b < n,
        is_duplicate_at(paths, b),
    ensures
        duplicate_errors(paths, n).len() > 0,
    decreases n,
{
    if b < n - 1 {
        lemma_duplicate_reported(paths, b, (n - 1) as nat);
    }
}

/// The missing-directory warnings among the first `n` resolved directories.
pub open spec fn missing_dir_warnings(
    paths: Seq<(ModelKind, Seq<char>)>,
    existing: Seq<Seq<char>>,
    n: nat,
) -> Seq<Seq<char>>
    decreases n,
{
    if n == 0 {
        Seq::empty()
    } else {
        let i = (n - 1) as nat;
        missing_dir_warnings(paths, existing, i) + if !existing.contains(paths[i as int].1) {
            seq![missing_dir_message(paths[i as int].0, paths[i as int].1)]
        } else {
            Seq::empty()
        }
    }
}

/// Every error of a configuration, given its resolution.
pub open spec fn validation_errors(c: AppConfig, v: ResolvedView) -> Seq<Seq<char>> {
    version_errors(c) + address_errors(c) + duplicate_errors(v.model_paths, v.model_paths.len())
}

/// Every warning of a resolution, given the directories that exist.
pub open spec fn validation_warnings(v: ResolvedView, existing: Seq<Seq<char>>) -> Seq<Seq<char>> {
    missing_dir_warnings(v.model_paths, existing, v.model_paths.len()) + (if !existing.contains(
        v.default_storage_root,
    ) {
        seq!["default storage root does not exist yet: "@ + v.default_storage_root]
    } else {
        Seq::empty()
    }) + match path_parent_spec(v.database_path) {
        Some(parent) => if !existing.contains(parent) {
            seq!["database directory does not exist yet: "@ + parent]
        } else {
            Seq::empty()
        },
        None => Seq::empty(),
    }
}

/// Appends a string to a list of strings.
fn push_text(v: &mut Vec<String>, s: String)
    ensures
        string_views(final(v)@) == string_views(old(v)@).push(s@),
{
    v.push(s);
    assert(string_views(v@) =~= string_views(old(v)@).push(s@));
}

/// `prefix` + `a` + `b` + `c` as one string.
fn join4(a: &str, b: &str, c: &str, d: &str) -> (r: String)
    ensures
        r@ == a@ + b@ + c@ + d@,
{
    let mut s = concat2(a, b);
    push_str(&mut s, c);
    push_str(&mut s, d);
    s
}

impl AppConfig {
    /// Validates a configuration against its resolution. `existing` lists
    /// the directories known to exist; a directory not in it draws a warning.
    pub fn validate_resolved(&self, resolved: &ResolvedConfig, existing: &Vec<String>) -> (r:
        ValidationReport)
        ensures
            string_views(r.errors@) == validation_errors(*self, resolved@),
            string_views(r.warnings@) == validation_warnings(resolved@, string_views(existing@)),
            has_repeated_path(resolved@.model_paths) ==> r.errors@.len() > 0,
    {
        let ghost paths = resolved@.model_paths;
        let ghost ex = string_views(existing@);
        let mut errors: Vec<String> = Vec::new();
        let mut warnings: Vec<String> = Vec::new();
        if self.version != CONFIG_VERSION {
            let m = join4(
                "unsupported config version ",
                decimal(self.version as u64).as_str(),
                "; expected ",
                decimal(CONFIG_VERSION as u64).as_str(),
            );
            push_text(&mut errors, m);
        }
        assert(string_views(errors@) =~= version_errors(*self));
        if is_blank(self.daemon.host.as_str()) {
            push_text(&mut errors, "daemon.host must not be empty".to_owned());
        }
        if is_blank(self.gui.remote_url.as_str()) {
            push_text(&mut errors, "gui.remote_url must not be empty".to_owned());
        }
        let ghost fixed = string_views(errors@);
        assert(fixed =~= version_errors(*self) + address_errors(*self));
        let n = resolved.model_paths.len();
        let mut i: usize = 0;
        while i < n
            invariant
                n == resolved.model_paths@.len(),
                paths == kind_path_views(resolved.model_paths@),
                ex == string_views(existing@),
                i <= n,
                string_views(errors@) == fixed + duplicate_errors(paths, i as nat),
                string_views(warnings@) == missing_dir_warnings(paths, ex, i as nat),
                forall|a: int, b: int|
                    0 <= a < b < i && #[trigger] paths[a].1 == #[trigger] paths[b].1 ==> path_equal_spec(
                        paths[a].1,
                        paths[b].1,
                    ),
            decreases n - i,
        {
            let kind = resolved.model_paths[i].0;
            let path = resolved.model_paths[i].1.as_str();
            assert(paths[i as int] == (kind, path@));
            let mut duplicate = false;
            let mut j: usize = 0;
            while j < i
                invariant
                    n == resolved.model_paths@.len(),
                    paths == kind_path_views(resolved.model_paths@),
                    i < n,
                    j <= i,
                    path@ == paths[i as int].1,
                    duplicate == exists|k: int| 0 <= k < j && path_equal_spec(#[trigger] paths[k].1, paths[i as int].1),
                    forall|k: int|
                        0 <= k < j && #[trigger] paths[k].1 == paths[i as int].1 ==> path_equal_spec(
                            paths[k].1,
                            paths[i as int].1,
                        ),
                decreases i - j,
            {
                assert(paths[j as int].1 == resolved.model_paths@[j as int].1@);
                if path_equal(resolved.model_paths[j].1.as_str(), path) {
                    duplicate = true;
                }
                j = j + 1;
            }
            if duplicate {
                let m = join4(
                    "model path for ",
                    kind.label(),
                    " resolves to a duplicate directory: ",
                    path,
                );
                push_text(&mut errors, m);
            }
            if !contains_text(existing, path) {
                let m = join4("model path for ", kind.label(), " does not exist yet: ", path);
                push_text(&mut warnings, m);
            }
            proof {
                assert(duplicate == is_duplicate_at(paths, i as int));
                assert(kind == paths[i as int].0);
                assert(duplicate_errors(paths, (i + 1) as nat) == duplicate_errors(paths, i as nat) + if is_duplicate_at(paths, i as int) {
                    seq![duplicate_message(paths[i as int].0, paths[i as int].1)]
                } else {
                    Seq::empty()
                });
                assert(string_views(errors@) =~= fixed + duplicate_errors(paths, (i + 1) as nat));
                assert(string_views(warnings@) =~= missing_dir_warnings(paths, ex, (i + 1) as nat));
            }
            i = i + 1;
        }
        assert(paths.len() == n);
        proof {
            if has_repeated_path(paths) {
                let (a, b) = choose|a: int, b: int|
                    0 <= a < b < paths.len() && #[trigger] paths[a].1 == #[trigger] paths[b].1;
                assert(is_duplicate_at(paths, b));
                lemma_duplicate_reported(paths, b, n as nat);
                assert(string_views(errors@).len() > 0);
            }
        }
        let root = resolved.default_storage_root.as_str();
        if !contains_text(existing, root) {
            push_text(&mut warnings, concat2("default storage root does not exist yet: ", root));
        }
        match path_parent(resolved.database_path.as_str()) {
            Some(parent) => {
                if !contains_text(existing, parent.as_str()) {
                    push_text(
                        &mut warnings,
                        concat2("database directory does not exist yet: ", parent.as_str()),
                    );
                }
            },
            None => {},
        }
        assert(string_views(warnings@) =~= validation_warnings(resolved@, ex));
        ValidationReport { errors, warnings }
    }

    /// Resolves and validates the configuration. `existing` lists the
    /// directories known to exist.
    pub fn validate(&self, platform: &PlatformPaths, existing: &Vec<String>) -> (r: Result<
        ValidationReport,
        DaedalusError,
    >)
        ensures
            r matches Ok(report) ==> exists|v: ResolvedView|
                is_resolution(*self, *platform, v) && string_views(report.errors@)
                    == validation_errors(*self, v) && string_views(report.warnings@)
                    == validation_warnings(v, string_views(existing@)) && (has_repeated_path(
                    v.model_paths,
                ) ==> report.errors@.len() > 0),
            all_paths_plain(*self) && has_repeated_path(plain_resolution(*self, *platform).model_paths)
                ==> (r matches Ok(report) && report.errors@.len() > 0),
            all_paths_plain(*self) ==> (r matches Ok(report) && string_views(report.errors@)
                == validation_errors(*self, plain_resolution(*self, *platform))
                && string_views(report.warnings@) == validation_warnings(
                plain_resolution(*self, *platform),
                string_views(existing@),
            )),
            r matches Err(e) ==> e is Config && !all_paths_plain(*self),
    {
        let resolved = self.resolved(platform)?;
        let report = self.validate_resolved(&resolved, existing);
        Ok(report)
    }
}

/// Where the configuration file lives.
#[derive(Debug, Clone, PartialEq, Eq)]
pub struct ConfigStore {
    path: String,
}

impl View for ConfigStore {
    type V = Seq<char>;

    /// The store's file path.
    closed spec fn view(&self) -> Seq<char> {
        self.path@
    }
}

impl ConfigStore {
    /// A store at `path`.
    pub fn new(path: String) -> (r: ConfigStore)
        ensures
            r@ == path@,
    {
        ConfigStore { path }
    }

    /// The store's file path.
    pub fn path(&self) -> (r: &str)
        ensures
            r@ == self@,
    {
        self.path.as_str()
    }

    /// The store named by `DAEDALUS_CONFIG` when it is set (`explicit`),
    /// otherwise `config.toml` in the platform's configuration directory.
    pub fn discover(explicit: Option<String>, platform: &PlatformPaths) -> (r: ConfigStore)
        ensures
            r@ == match explicit {
                Some(p) => p@,
                None => join_spec(platform.config_dir@, "config.toml"@),
            },
    {
        match explicit {
            Some(p) => ConfigStore::new(p),
            None => ConfigStore::new(platform.default_config_path()),
        }
    }
}

/// Replaces the Civitai token and the remote URL with the values of
/// `DAEDALUS_CIVITAI_API_TOKEN` and `DAEDALUS_REMOTE_URL` where those are set.
pub fn apply_env_overrides(
    config: &mut AppConfig,
    api_token: Option<String>,
    remote_url: Option<String>,
)
    ensures
        final(config).sources.civitai.api_token == match api_token {
            Some(t) => t,
            None => old(config).sources.civitai.api_token,
        },
        final(config).gui.remote_url == match remote_url {
            Some(u) => u,
            None => old(config).gui.remote_url,
        },
        final(config).version == old(config).version,
        final(config).library == old(config).library,
        final(config).database == old(config).database,
        final(config).daemon == old(config).daemon,
        final(config).gui.default_mode == old(config).gui.default_mode,
        final(config).sources.civitai.enabled == old(config).sources.civitai.enabled,
        final(config).sources.civitai.api_base_url == old(config).sources.civitai.api_base_url,
        final(config).sources.civitai.web_base_url == old(config).sources.civitai.web_base_url,
        final(config).sources.civitai.sync_preview_images == old(config).sources.civitai.sync_preview_images,
        final(config).sources.civitai.sync_creator_metadata == old(config).sources.civitai.sync_creator_metadata,
        final(config).model_paths == old(config).model_paths,
{
    if let Some(token) = api_token {
        config.sources.civitai.api_token = token;
    }
    if let Some(url) = remote_url {
        config.gui.remote_url = url;
    }
}

impl ModelPathConfig {
    /// A copy of the configuration.
    pub fn copied(&self) -> (r: ModelPathConfig)
        ensures
            r == *self,
    {
        ModelPathConfig {
            checkpoint: self.checkpoint.clone(),
            embedding: self.embedding.clone(),
            hypernetwork: self.hypernetwork.clone(),
            aesthetic_gradient: self.aesthetic_gradient.clone(),
            lora: self.lora.clone(),
            lycoris: self.lycoris.clone(),
            dora: self.dora.clone(),
            controlnet: self.controlnet.clone(),
            upscaler: self.upscaler.clone(),
            motion: self.motion.clone(),
            vae: self.vae.clone(),
            poses: self.poses.clone(),
            wildcards: self.wildcards.clone(),
            workflows: self.workflows.clone(),
            detection: self.detection.clone(),
            other: self.other.clone(),
        }
    }
}

impl AppConfig {
    /// A copy of the configuration.
    pub fn copied(&self) -> (r: AppConfig)
        ensures
            r == *self,
    {
        AppConfig {
            version: self.version,
            library: LibraryConfig {
                default_storage_root: self.library.default_storage_root.clone(),
                temp_download_root: self.library.temp_download_root.clone(),
                preview_cache_root: self.library.preview_cache_root.clone(),
                managed_by_kind: self.library.managed_by_kind,
                deduplicate_by_sha256: self.library.deduplicate_by_sha256,
            },
            database: DatabaseConfig { path: self.database.path.clone() },
            daemon: DaemonConfig {
                enabled: self.daemon.enabled,
                host: self.daemon.host.clone(),
                port: self.daemon.port,
            },
            gui: GuiConfig {
                default_mode: self.gui.default_mode,
                remote_url: self.gui.remote_url.clone(),
            },
            sources: SourcesConfig {
                civitai: CivitaiConfig {
                    enabled: self.sources.civitai.enabled,
                    api_base_url: self.sources.civitai.api_base_url.clone(),
                    web_base_url: self.sources.civitai.web_base_url.clone(),
                    api_token: self.sources.civitai.api_token.clone(),
                    sync_preview_images: self.sources.civitai.sync_preview_images,
                    sync_creator_metadata: self.sources.civitai.sync_creator_metadata,
                },
            },
            model_paths: self.model_paths.copied(),
        }
    }
}

/// With paths that expand to themselves, a kind's directory resolves to
/// the configured path when it is absolute, and under the storage root
/// otherwise; kinds keep their order.
pub proof fn lemma_plain_model_path_resolution(c: AppConfig, p: PlatformPaths, i: int)
    requires
        all_paths_plain(c),
        0 <= i < all_kinds().len(),
    ensures
        plain_resolution(c, p).model_paths[i].0 == all_kinds()[i],
        plain_resolution(c, p).model_paths[i].1 == ({
            let raw = model_path_of(c.model_paths, all_kinds()[i]);
            if is_absolute_spec(raw) {
                raw
            } else {
                join_spec(join_spec(p.data_dir@, c.library.default_storage_root@), raw)
            }
        }),
{
}

} // verus!
