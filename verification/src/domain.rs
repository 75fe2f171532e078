//! Domain types: the model taxonomy, source, job and file vocabularies, and
//! the records that move between the catalog, the service and its clients.

use vstd::prelude::*;
use crate::text::{
    concat2, is_ws, lower_spec, str_eq, to_ascii_lowercase, trim, trim_spec, trim_start_spec,
};

verus! {

/// The normalized, source-agnostic kind of a model artifact.
#[derive(Debug, Clone, Copy, PartialEq, Eq, Structural, PartialOrd, Ord, Hash)]
pub enum ModelKind {
    Checkpoint,
    Embedding,
    Hypernetwork,
    AestheticGradient,
    LoRA,
    LyCORIS,
    DoRA,
    ControlNet,
    Upscaler,
    Motion,
    Vae,
    Poses,
    Wildcards,
    Workflows,
    Detection,
    Other,
}

/// Every kind, in declaration order.
pub open spec fn all_kinds() -> Seq<ModelKind> {
    seq![
        ModelKind::Checkpoint,
        ModelKind::Embedding,
        ModelKind::Hypernetwork,
        ModelKind::AestheticGradient,
        ModelKind::LoRA,
        ModelKind::LyCORIS,
        ModelKind::DoRA,
        ModelKind::ControlNet,
        ModelKind::Upscaler,
        ModelKind::Motion,
        ModelKind::Vae,
        ModelKind::Poses,
        ModelKind::Wildcards,
        ModelKind::Workflows,
        ModelKind::Detection,
        ModelKind::Other,
    ]
}

/// The human-readable label of a kind.
pub open spec fn kind_label(kind: ModelKind) -> Seq<char> {
    match kind {
        ModelKind::Checkpoint => "Checkpoint"@,
        ModelKind::Embedding => "Embedding"@,
        ModelKind::Hypernetwork => "Hypernetwork"@,
        ModelKind::AestheticGradient => "Aesthetic Gradient"@,
        ModelKind::LoRA => "LoRA"@,
        ModelKind::LyCORIS => "LyCORIS"@,
        ModelKind::DoRA => "DoRA"@,
        ModelKind::ControlNet => "ControlNet"@,
        ModelKind::Upscaler => "Upscaler"@,
        ModelKind::Motion => "Motion"@,
        ModelKind::Vae => "VAE"@,
        ModelKind::Poses => "Poses"@,
        ModelKind::Wildcards => "Wildcards"@,
        ModelKind::Workflows => "Workflows"@,
        ModelKind::Detection => "Detection"@,
        ModelKind::Other => "Other"@,
    }
}

/// The stable configuration key of a kind; also its directory name under a
/// storage root and its text form in the catalog.
pub open spec fn kind_key(kind: ModelKind) -> Seq<char> {
    match kind {
        ModelKind::Checkpoint => "checkpoint"@,
        ModelKind::Embedding => "embedding"@,
        ModelKind::Hypernetwork => "hypernetwork"@,
        ModelKind::AestheticGradient => "aesthetic_gradient"@,
        ModelKind::LoRA => "lora"@,
        ModelKind::LyCORIS => "lycoris"@,
        ModelKind::DoRA => "dora"@,
        ModelKind::ControlNet => "controlnet"@,
        ModelKind::Upscaler => "upscaler"@,
        ModelKind::Motion => "motion"@,
        ModelKind::Vae => "vae"@,
        ModelKind::Poses => "poses"@,
        ModelKind::Wildcards => "wildcards"@,
        ModelKind::Workflows => "workflows"@,
        ModelKind::Detection => "detection"@,
        ModelKind::Other => "other"@,
    }
}

/// The kind named by an already trimmed and lower-cased word, if any.
pub open spec fn kind_from_word(word: Seq<char>) -> Option<ModelKind> {
    if word == "checkpoint"@ {
        Some(ModelKind::Checkpoint)
    } else if word == "embedding"@ {
        Some(ModelKind::Embedding)
    } else if word == "hypernetwork"@ {
        Some(ModelKind::Hypernetwork)
    } else if word == "aesthetic_gradient"@ || word == "aesthetic-gradient"@ {
        Some(ModelKind::AestheticGradient)
    } else if word == "lora"@ {
        Some(ModelKind::LoRA)
    } else if word == "lycoris"@ {
        Some(ModelKind::LyCORIS)
    } else if word == "dora"@ {
        Some(ModelKind::DoRA)
    } else if word == "controlnet"@ {
        Some(ModelKind::ControlNet)
    } else if word == "upscaler"@ {
        Some(ModelKind::Upscaler)
    } else if word == "motion"@ || word == "motion_module"@ || word == "motion-modules"@ {
        Some(ModelKind::Motion)
    } else if word == "vae"@ {
        Some(ModelKind::Vae)
    } else if word == "poses"@ {
        Some(ModelKind::Poses)
    } else if word == "wildcards"@ {
        Some(ModelKind::Wildcards)
    } else if word == "workflows"@ {
        Some(ModelKind::Workflows)
    } else if word == "detection"@ {
        Some(ModelKind::Detection)
    } else if word == "other"@ {
        Some(ModelKind::Other)
    } else {
        None
    }
}

/// The word a text names a kind by: the text trimmed and lower-cased.
pub open spec fn kind_word(value: Seq<char>) -> Seq<char> {
    lower_spec(trim_spec(value))
}

/// What parsing a text as a kind gives: the kind, or the error message.
pub open spec fn parse_kind_spec(value: Seq<char>) -> Result<ModelKind, Seq<char>> {
    match kind_from_word(kind_word(value)) {
        Some(kind) => Ok(kind),
        None => Err("unknown model kind: "@ + kind_word(value)),
    }
}

impl ModelKind {
    /// Every kind, in declaration order.
    pub fn all() -> (r: Vec<ModelKind>)
        ensures
            r@ == all_kinds(),
    {
        let mut v: Vec<ModelKind> = Vec::new();
        v.push(ModelKind::Checkpoint);
        v.push(ModelKind::Embedding);
        v.push(ModelKind::Hypernetwork);
        v.push(ModelKind::AestheticGradient);
        v.push(ModelKind::LoRA);
        v.push(ModelKind::LyCORIS);
        v.push(ModelKind::DoRA);
        v.push(ModelKind::ControlNet);
        v.push(ModelKind::Upscaler);
        v.push(ModelKind::Motion);
        v.push(ModelKind::Vae);
        v.push(ModelKind::Poses);
        v.push(ModelKind::Wildcards);
        v.push(ModelKind::Workflows);
        v.push(ModelKind::Detection);
        v.push(ModelKind::Other);
        assert(v@ == all_kinds());
        v
    }

    /// The human-readable label.
    pub fn label(self) -> (r: &'static str)
        ensures
            r@ == kind_label(self),
    {
        match self {
            ModelKind::Checkpoint => "Checkpoint",
            ModelKind::Embedding => "Embedding",
            ModelKind::Hypernetwork => "Hypernetwork",
            ModelKind::AestheticGradient => "Aesthetic Gradient",
            ModelKind::LoRA => "LoRA",
            ModelKind::LyCORIS => "LyCORIS",
            ModelKind::DoRA => "DoRA",
            ModelKind::ControlNet => "ControlNet",
            ModelKind::Upscaler => "Upscaler",
            ModelKind::Motion => "Motion",
            ModelKind::Vae => "VAE",
            ModelKind::Poses => "Poses",
            ModelKind::Wildcards => "Wildcards",
            ModelKind::Workflows => "Workflows",
            ModelKind::Detection => "Detection",
            ModelKind::Other => "Other",
        }
    }

    /// The configuration key.
    pub fn config_key(self) -> (r: &'static str)
        ensures
            r@ == kind_key(self),
    {
        match self {
            ModelKind::Checkpoint => "checkpoint",
            ModelKind::Embedding => "embedding",
            ModelKind::Hypernetwork => "hypernetwork",
            ModelKind::AestheticGradient => "aesthetic_gradient",
            ModelKind::LoRA => "lora",
            ModelKind::LyCORIS => "lycoris",
            ModelKind::DoRA => "dora",
            ModelKind::ControlNet => "controlnet",
            ModelKind::Upscaler => "upscaler",
            ModelKind::Motion => "motion",
            ModelKind::Vae => "vae",
            ModelKind::Poses => "poses",
            ModelKind::Wildcards => "wildcards",
            ModelKind::Workflows => "workflows",
            ModelKind::Detection => "detection",
            ModelKind::Other => "other",
        }
    }

    /// Parses a kind from text: surrounding whitespace is ignored, letters
    /// are matched without regard to ASCII case, and a few aliases are
    /// accepted.
    pub fn parse(value: &str) -> (r: Result<ModelKind, String>)
        ensures
            match r {
                Ok(kind) => parse_kind_spec(value@) == Ok::<ModelKind, Seq<char>>(kind),
                Err(message) => parse_kind_spec(value@) == Err::<ModelKind, Seq<char>>(message@),
            },
    {
        let trimmed = trim(value);
        let word = to_ascii_lowercase(trimmed.as_str());
        let w = word.as_str();
        if str_eq(w, "checkpoint") {
            Ok(ModelKind::Checkpoint)
        } else if str_eq(w, "embedding") {
            Ok(ModelKind::Embedding)
        } else if str_eq(w, "hypernetwork") {
            Ok(ModelKind::Hypernetwork)
        } else if str_eq(w, "aesthetic_gradient") || str_eq(w, "aesthetic-gradient") {
            Ok(ModelKind::AestheticGradient)
        } else if str_eq(w, "lora") {
            Ok(ModelKind::LoRA)
        } else if str_eq(w, "lycoris") {
            Ok(ModelKind::LyCORIS)
        } else if str_eq(w, "dora") {
            Ok(ModelKind::DoRA)
        } else if str_eq(w, "controlnet") {
            Ok(ModelKind::ControlNet)
        } else if str_eq(w, "upscaler") {
            Ok(ModelKind::Upscaler)
        } else if str_eq(w, "motion") || str_eq(w, "motion_module") || str_eq(w, "motion-modules") {
            Ok(ModelKind::Motion)
        } else if str_eq(w, "vae") {
            Ok(ModelKind::Vae)
        } else if str_eq(w, "poses") {
            Ok(ModelKind::Poses)
        } else if str_eq(w, "wildcards") {
            Ok(ModelKind::Wildcards)
        } else if str_eq(w, "workflows") {
            Ok(ModelKind::Workflows)
        } else if str_eq(w, "detection") {
            Ok(ModelKind::Detection)
        } else if str_eq(w, "other") {
            Ok(ModelKind::Other)
        } else {
            Err(concat2("unknown model kind: ", w))
        }
    }
}

impl std::str::FromStr for ModelKind {
    type Err = String;

    fn from_str(value: &str) -> (r: Result<ModelKind, String>)
        ensures
            match r {
                Ok(kind) => parse_kind_spec(value@) == Ok::<ModelKind, Seq<char>>(kind),
                Err(message) => parse_kind_spec(value@) == Err::<ModelKind, Seq<char>>(message@),
            },
    {
        ModelKind::parse(value)
    }
}

/// Where a model record came from.
#[derive(Debug, Clone, Copy, PartialEq, Eq, Structural)]
pub enum SourceKind {
    Civitai,
    Local,
}

/// What a background job does.
#[derive(Debug, Clone, Copy, PartialEq, Eq, Structural)]
pub enum JobKind {
    Download,
    Sync,
    Rescan,
    Import,
    PreviewSync,
}

/// The lifecycle state of a background job.
#[derive(Debug, Clone, Copy, PartialEq, Eq, Structural)]
pub enum JobStatus {
    Queued,
    Running,
    Completed,
    Failed,
    Cancelled,
}

/// Whether a job status ends the job.
pub open spec fn is_terminal_status(status: JobStatus) -> bool {
    status == JobStatus::Completed || status == JobStatus::Failed || status == JobStatus::Cancelled
}

/// How a file artifact relates to managed storage.
#[derive(Debug, Clone, Copy, PartialEq, Eq, Structural)]
pub enum LocalFileState {
    Imported,
    Managed,
    Missing,
}

/// The media kind of a preview asset.
#[derive(Debug, Clone, Copy, PartialEq, Eq, Structural)]
pub enum PreviewMediaKind {
    Image,
    Video,
}

/// Provenance of a library record.
#[derive(Debug, Clone, PartialEq, Eq)]
pub struct SourceRef {
    pub source_kind: SourceKind,
    pub source_model_id: Option<String>,
    pub source_version_id: Option<String>,
    pub source_url: Option<String>,
    pub source_category: Option<String>,
}

/// A local or remote file candidate.
#[derive(Debug, Clone, PartialEq, Eq)]
pub struct FileArtifact {
    pub id: i64,
    pub filename: String,
    pub size_bytes: Option<u64>,
    pub sha256: Option<String>,
    pub mime_type: Option<String>,
    pub format: Option<String>,
    pub precision: Option<String>,
    pub source_download_url: Option<String>,
    pub local_path: Option<String>,
    pub local_state: LocalFileState,
}

/// A preview image or video of a model version.
#[derive(Debug, Clone, PartialEq, Eq)]
pub struct PreviewAsset {
    pub id: i64,
    pub source_url: String,
    pub local_cached_path: Option<String>,
    pub width: Option<u32>,
    pub height: Option<u32>,
    pub media_kind: PreviewMediaKind,
}

/// A normalized top-level local record. Timestamps are RFC 3339 text.
#[derive(Debug, Clone, PartialEq, Eq)]
pub struct LibraryItem {
    pub id: i64,
    pub display_name: String,
    pub primary_model_kind: ModelKind,
    pub source: Option<SourceRef>,
    pub installed_version: Option<String>,
    pub storage_path: String,
    pub favorite: bool,
    pub pinned: bool,
    pub notes: Option<String>,
    pub last_verified_at: Option<String>,
    pub created_at: String,
}

/// A configured model source.
#[derive(Debug, Clone, PartialEq, Eq)]
pub struct SourceInfo {
    pub id: String,
    pub kind: SourceKind,
    pub display_name: String,
    pub api_base_url: String,
    pub web_base_url: String,
    pub enabled: bool,
}

/// A search request against a source.
#[derive(Debug, Clone, PartialEq, Eq)]
pub struct SearchQuery {
    pub query: String,
    pub limit: usize,
}

/// One page of search results.
#[derive(Debug, Clone, PartialEq, Eq)]
pub struct SearchResult<T> {
    pub items: Vec<T>,
    pub total: usize,
    pub next_page: Option<String>,
}

/// A short description of a source-side model.
#[derive(Debug, Clone, PartialEq, Eq)]
pub struct ModelSummary {
    pub id: String,
    pub title: String,
    pub creator: Option<String>,
    pub model_kind: ModelKind,
    pub source_url: Option<String>,
}

/// A source-side model with its versions.
#[derive(Debug, Clone, PartialEq, Eq)]
pub struct SourceModelBundle {
    pub model: ModelSummary,
    pub description: Option<String>,
    pub tags: Vec<String>,
    pub versions: Vec<SourceVersionBundle>,
}

/// A source-side model version with its files and previews.
#[derive(Debug, Clone, PartialEq, Eq)]
pub struct SourceVersionBundle {
    pub id: String,
    pub parent_model_id: String,
    pub version_name: String,
    pub base_model: Option<String>,
    pub files: Vec<FileArtifact>,
    pub previews: Vec<PreviewAsset>,
}

/// Where a source file can be downloaded from.
#[derive(Debug, Clone, PartialEq, Eq)]
pub struct DownloadDescriptor {
    pub source_file_id: String,
    pub download_url: String,
    pub suggested_filename: String,
}

/// The service's health summary.
#[derive(Debug, Clone, PartialEq, Eq)]
pub struct ServiceHealth {
    pub status: String,
    pub mode: String,
    pub library_item_count: usize,
    pub source_count: usize,
}

/// A request to import a local file into the catalog.
#[derive(Debug, Clone, PartialEq, Eq)]
pub struct ImportRequest {
    pub path: String,
    pub display_name: Option<String>,
    pub kind: Option<ModelKind>,
    pub copy_into_library: bool,
}

/// A request to download a source file.
#[derive(Debug, Clone, PartialEq, Eq)]
pub struct DownloadRequest {
    pub source_kind: SourceKind,
    pub source_file_id: String,
    pub model_kind: ModelKind,
}

/// Where an updated configuration was written.
#[derive(Debug, Clone, PartialEq, Eq)]
pub struct ConfigUpdateResponse {
    pub saved_to: String,
}

/// Trimming leaves alone a text that neither starts nor ends with whitespace.
pub proof fn lemma_trim_noop(s: Seq<char>)
    requires
        s.len() > 0,
        !is_ws(s[0]),
        !is_ws(s.last()),
    ensures
        trim_spec(s) == s,
{
    assert(trim_start_spec(s) == s);
}

/// Lower-casing leaves alone a text without ASCII capitals.
pub proof fn lemma_lower_noop(s: Seq<char>)
    requires
        forall|i: int| 0 <= i < s.len() ==> !('A' <= #[trigger] s[i] && s[i] <= 'Z'),
    ensures
        lower_spec(s) == s,
{
    assert(lower_spec(s) =~= s);
}

/// A text the kind parser accepts as a kind other than an aesthetic
/// gradient or a motion module (the kinds with aliases) is, trimmed and
/// lower-cased, that kind's configuration key.
pub(crate) proof fn lemma_kind_word_is_key(raw: Seq<char>, kind: ModelKind)
    requires
        parse_kind_spec(raw) == Ok::<ModelKind, Seq<char>>(kind),
        kind != ModelKind::AestheticGradient,
        kind != ModelKind::Motion,
    ensures
        kind_word(raw) == kind_key(kind),
{
}

/// A kind's configuration key parses back to the kind: the key is the
/// kind's text form in configuration and in the catalog.
pub proof fn lemma_kind_key_round_trip(kind: ModelKind)
    ensures
        parse_kind_spec(kind_key(kind)) == Ok::<ModelKind, Seq<char>>(kind),
{
    reveal_strlit("checkpoint");
    reveal_strlit("embedding");
    reveal_strlit("hypernetwork");
    reveal_strlit("aesthetic_gradient");
    reveal_strlit("lora");
    reveal_strlit("lycoris");
    reveal_strlit("dora");
    reveal_strlit("controlnet");
    reveal_strlit("upscaler");
    reveal_strlit("motion");
    reveal_strlit("vae");
    reveal_strlit("poses");
    reveal_strlit("wildcards");
    reveal_strlit("workflows");
    reveal_strlit("detection");
    reveal_strlit("other");
    reveal_strlit("aesthetic-gradient");
    reveal_strlit("motion_module");
    reveal_strlit("motion-modules");
    let key = kind_key(kind);
    lemma_trim_noop(key);
    lemma_lower_noop(key);
    assert(kind_word(key) == key);
    match kind {
        ModelKind::Checkpoint => {
            assert(kind_from_word("checkpoint"@) == Some(ModelKind::Checkpoint));
        },
        ModelKind::Embedding => {
            assert(kind_from_word("embedding"@) == Some(ModelKind::Embedding));
        },
        ModelKind::Hypernetwork => {
            assert(kind_from_word("hypernetwork"@) == Some(ModelKind::Hypernetwork));
        },
        ModelKind::AestheticGradient => {
            assert(kind_from_word("aesthetic_gradient"@) == Some(ModelKind::AestheticGradient));
        },
        ModelKind::LoRA => {
            assert(kind_from_word("lora"@) == Some(ModelKind::LoRA));
        },
        ModelKind::LyCORIS => {
            assert(kind_from_word("lycoris"@) == Some(ModelKind::LyCORIS));
        },
        ModelKind::DoRA => {
            assert(kind_from_word("dora"@) == Some(ModelKind::DoRA));
        },
        ModelKind::ControlNet => {
            assert("controlnet"@[1] != "checkpoint"@[1]);
            assert(kind_from_word("controlnet"@) == Some(ModelKind::ControlNet));
        },
        ModelKind::Upscaler => {
            assert(kind_from_word("upscaler"@) == Some(ModelKind::Upscaler));
        },
        ModelKind::Motion => {
            assert(kind_from_word("motion"@) == Some(ModelKind::Motion));
        },
        ModelKind::Vae => {
            assert(kind_from_word("vae"@) == Some(ModelKind::Vae));
        },
        ModelKind::Poses => {
            assert(kind_from_word("poses"@) == Some(ModelKind::Poses));
        },
        ModelKind::Wildcards => {
            assert(kind_from_word("wildcards"@) == Some(ModelKind::Wildcards));
        },
        ModelKind::Workflows => {
            assert("workflows"@[1] != "wildcards"@[1]);
            assert(kind_from_word("workflows"@) == Some(ModelKind::Workflows));
        },
        ModelKind::Detection => {
            assert(kind_from_word("detection"@) == Some(ModelKind::Detection));
        },
        ModelKind::Other => {
            assert(kind_from_word("other"@) == Some(ModelKind::Other));
        },
    }
}

} // verus!
