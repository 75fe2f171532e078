//! Model sources: the Civitai adapter's identity, health and the mapping
//! of its native model types onto the internal taxonomy.

use vstd::prelude::*;
use crate::common::DaedalusError;
use crate::domain::{
    kind_key, lemma_kind_word_is_key, parse_kind_spec, ModelKind, ModelSummary, SearchResult,
    SourceInfo, SourceKind,
};
use crate::text::{concat2, lower_spec, str_eq, to_ascii_lowercase, trim, trim_spec};

verus! {

/// A source's reachability.
#[derive(Debug, Clone, PartialEq, Eq)]
pub struct SourceHealth {
    pub ok: bool,
    pub detail: String,
}

/// The Civitai source adapter.
#[derive(Debug, Clone)]
pub struct CivitaiAdapter {
    info: SourceInfo,
}

/// The kind a Civitai model type names, once trimmed and lower-cased;
/// unknown types are `Other`.
pub open spec fn civitai_kind_from_word(word: Seq<char>) -> ModelKind {
    if word == "checkpoint"@ {
        ModelKind::Checkpoint
    } else if word == "textualinversion"@ || word == "embedding"@ {
        ModelKind::Embedding
    } else if word == "hypernetwork"@ {
        ModelKind::Hypernetwork
    } else if word == "aestheticgradient"@ {
        ModelKind::AestheticGradient
    } else if word == "lora"@ {
        ModelKind::LoRA
    } else if word == "lycoris"@ {
        ModelKind::LyCORIS
    } else if word == "dora"@ {
        ModelKind::DoRA
    } else if word == "controlnet"@ {
        ModelKind::ControlNet
    } else if word == "upscaler"@ {
        ModelKind::Upscaler
    } else if word == "motionmodule"@ {
        ModelKind::Motion
    } else if word == "vae"@ {
        ModelKind::Vae
    } else if word == "pose"@ || word == "poses"@ {
        ModelKind::Poses
    } else if word == "wildcards"@ {
        ModelKind::Wildcards
    } else if word == "workflow"@ || word == "workflows"@ {
        ModelKind::Workflows
    } else if word == "detection"@ {
        ModelKind::Detection
    } else {
        ModelKind::Other
    }
}

/// The kind of a Civitai model type.
pub open spec fn civitai_kind_spec(raw: Seq<char>) -> ModelKind {
    civitai_kind_from_word(lower_spec(trim_spec(raw)))
}

/// Each configuration key, other than those of aesthetic gradients and
/// motion modules, is the Civitai type of its kind.
proof fn lemma_civitai_word_of_key(kind: ModelKind)
    requires
        kind != ModelKind::AestheticGradient,
        kind != ModelKind::Motion,
    ensures
        civitai_kind_from_word(kind_key(kind)) == kind,
{
    match kind {
        ModelKind::Checkpoint => {
            reveal_strlit("checkpoint");
        },
        ModelKind::Embedding => {
            reveal_strlit("embedding");
            reveal_strlit("checkpoint");
            assert("embedding"@.len() != "checkpoint"@.len());
            reveal_strlit("textualinversion");
            assert("embedding"@.len() != "textualinversion"@.len());
        },
        ModelKind::Hypernetwork => {
            reveal_strlit("hypernetwork");
            reveal_strlit("checkpoint");
            assert("hypernetwork"@.len() != "checkpoint"@.len());
            reveal_strlit("textualinversion");
            assert("hypernetwork"@.len() != "textualinversion"@.len());
            reveal_strlit("embedding");
            assert("hypernetwork"@.len() != "embedding"@.len());
        },
        ModelKind::LoRA => {
            reveal_strlit("lora");
            reveal_strlit("checkpoint");
            assert("lora"@.len() != "checkpoint"@.len());
            reveal_strlit("textualinversion");
            assert("lora"@.len() != "textualinversion"@.len());
            reveal_strlit("embedding");
            assert("lora"@.len() != "embedding"@.len());
            reveal_strlit("hypernetwork");
            assert("lora"@.len() != "hypernetwork"@.len());
            reveal_strlit("aestheticgradient");
            assert("lora"@.len() != "aestheticgradient"@.len());
        },
        ModelKind::LyCORIS => {
            reveal_strlit("lycoris");
            reveal_strlit("checkpoint");
            assert("lycoris"@.len() != "checkpoint"@.len());
            reveal_strlit("textualinversion");
            assert("lycoris"@.len() != "textualinversion"@.len());
            reveal_strlit("embedding");
            assert("lycoris"@.len() != "embedding"@.len());
            reveal_strlit("hypernetwork");
            assert("lycoris"@.len() != "hypernetwork"@.len());
            reveal_strlit("aestheticgradient");
            assert("lycoris"@.len() != "aestheticgradient"@.len());
            reveal_strlit("lora");
            assert("lycoris"@.len() != "lora"@.len());
        },
        ModelKind::DoRA => {
            reveal_strlit("dora");
            reveal_strlit("checkpoint");
            assert("dora"@.len() != "checkpoint"@.len());
            reveal_strlit("textualinversion");
            assert("dora"@.len() != "textualinversion"@.len());
            reveal_strlit("embedding");
            assert("dora"@.len() != "embedding"@.len());
            reveal_strlit("hypernetwork");
            assert("dora"@.len() != "hypernetwork"@.len());
            reveal_strlit("aestheticgradient");
            assert("dora"@.len() != "aestheticgradient"@.len());
            reveal_strlit("lora");
            assert("dora"@[0] != "lora"@[0]);
            reveal_strlit("lycoris");
            assert("dora"@.len() != "lycoris"@.len());
        },
        ModelKind::ControlNet => {
            reveal_strlit("controlnet");
            reveal_strlit("checkpoint");
            assert("controlnet"@[1] != "checkpoint"@[1]);
            reveal_strlit("textualinversion");
            assert("controlnet"@.len() != "textualinversion"@.len());
            reveal_strlit("embedding");
            assert("controlnet"@.len() != "embedding"@.len());
            reveal_strlit("hypernetwork");
            assert("controlnet"@.len() != "hypernetwork"@.len());
            reveal_strlit("aestheticgradient");
            assert("controlnet"@.len() != "aestheticgradient"@.len());
            reveal_strlit("lora");
            assert("controlnet"@.len() != "lora"@.len());
            reveal_strlit("lycoris");
            assert("controlnet"@.len() != "lycoris"@.len());
            reveal_strlit("dora");
            assert("controlnet"@.len() != "dora"@.len());
        },
        ModelKind::Upscaler => {
            reveal_strlit("upscaler");
            reveal_strlit("checkpoint");
            assert("upscaler"@.len() != "checkpoint"@.len());
            reveal_strlit("textualinversion");
            assert("upscaler"@.len() != "textualinversion"@.len());
            reveal_strlit("embedding");
            assert("upscaler"@.len() != "embedding"@.len());
            reveal_strlit("hypernetwork");
            assert("upscaler"@.len() != "hypernetwork"@.len());
            reveal_strlit("aestheticgradient");
            assert("upscaler"@.len() != "aestheticgradient"@.len());
            reveal_strlit("lora");
            assert("upscaler"@.len() != "lora"@.len());
            reveal_strlit("lycoris");
            assert("upscaler"@.len() != "lycoris"@.len());
            reveal_strlit("dora");
            assert("upscaler"@.len() != "dora"@.len());
            reveal_strlit("controlnet");
            assert("upscaler"@.len() != "controlnet"@.len());
        },
        ModelKind::Vae => {
            reveal_strlit("vae");
            reveal_strlit("checkpoint");
            assert("vae"@.len() != "checkpoint"@.len());
            reveal_strlit("textualinversion");
            assert("vae"@.len() != "textualinversion"@.len());
            reveal_strlit("embedding");
            assert("vae"@.len() != "embedding"@.len());
            reveal_strlit("hypernetwork");
            assert("vae"@.len() != "hypernetwork"@.len());
            reveal_strlit("aestheticgradient");
            assert("vae"@.len() != "aestheticgradient"@.len());
            reveal_strlit("lora");
            assert("vae"@.len() != "lora"@.len());
            reveal_strlit("lycoris");
            assert("vae"@.len() != "lycoris"@.len());
            reveal_strlit("dora");
            assert("vae"@.len() != "dora"@.len());
            reveal_strlit("controlnet");
            assert("vae"@.len() != "controlnet"@.len());
            reveal_strlit("upscaler");
            assert("vae"@.len() != "upscaler"@.len());
            reveal_strlit("motionmodule");
            assert("vae"@.len() != "motionmodule"@.len());
        },
        ModelKind::Poses => {
            reveal_strlit("poses");
            reveal_strlit("checkpoint");
            assert("poses"@.len() != "checkpoint"@.len());
            reveal_strlit("textualinversion");
            assert("poses"@.len() != "textualinversion"@.len());
            reveal_strlit("embedding");
            assert("poses"@.len() != "embedding"@.len());
            reveal_strlit("hypernetwork");
            assert("poses"@.len() != "hypernetwork"@.len());
            reveal_strlit("aestheticgradient");
            assert("poses"@.len() != "aestheticgradient"@.len());
            reveal_strlit("lora");
            assert("poses"@.len() != "lora"@.len());
            reveal_strlit("lycoris");
            assert("poses"@.len() != "lycoris"@.len());
            reveal_strlit("dora");
            assert("poses"@.len() != "dora"@.len());
            reveal_strlit("controlnet");
            assert("poses"@.len() != "controlnet"@.len());
            reveal_strlit("upscaler");
            assert("poses"@.len() != "upscaler"@.len());
            reveal_strlit("motionmodule");
            assert("poses"@.len() != "motionmodule"@.len());
            reveal_strlit("vae");
            assert("poses"@.len() != "vae"@.len());
            reveal_strlit("pose");
            assert("poses"@.len() != "pose"@.len());
        },
        ModelKind::Wildcards => {
            reveal_strlit("wildcards");
            reveal_strlit("checkpoint");
            assert("wildcards"@.len() != "checkpoint"@.len());
            reveal_strlit("textualinversion");
            assert("wildcards"@.len() != "textualinversion"@.len());
            reveal_strlit("embedding");
            assert("wildcards"@[0] != "embedding"@[0]);
            reveal_strlit("hypernetwork");
            assert("wildcards"@.len() != "hypernetwork"@.len());
            reveal_strlit("aestheticgradient");
            assert("wildcards"@.len() != "aestheticgradient"@.len());
            reveal_strlit("lora");
            assert("wildcards"@.len() != "lora"@.len());
            reveal_strlit("lycoris");
            assert("wildcards"@.len() != "lycoris"@.len());
            reveal_strlit("dora");
            assert("wildcards"@.len() != "dora"@.len());
            reveal_strlit("controlnet");
            assert("wildcards"@.len() != "controlnet"@.len());
            reveal_strlit("upscaler");
            assert("wildcards"@.len() != "upscaler"@.len());
            reveal_strlit("motionmodule");
            assert("wildcards"@.len() != "motionmodule"@.len());
            reveal_strlit("vae");
            assert("wildcards"@.len() != "vae"@.len());
            reveal_strlit("pose");
            assert("wildcards"@.len() != "pose"@.len());
            reveal_strlit("poses");
            assert("wildcards"@.len() != "poses"@.len());
        },
        ModelKind::Workflows => {
            reveal_strlit("workflows");
            reveal_strlit("checkpoint");
            assert("workflows"@.len() != "checkpoint"@.len());
            reveal_strlit("textualinversion");
            assert("workflows"@.len() != "textualinversion"@.len());
            reveal_strlit("embedding");
            assert("workflows"@[0] != "embedding"@[0]);
            reveal_strlit("hypernetwork");
            assert("workflows"@.len() != "hypernetwork"@.len());
            reveal_strlit("aestheticgradient");
            assert("workflows"@.len() != "aestheticgradient"@.len());
            reveal_strlit("lora");
            assert("workflows"@.len() != "lora"@.len());
            reveal_strlit("lycoris");
            assert("workflows"@.len() != "lycoris"@.len());
            reveal_strlit("dora");
            assert("workflows"@.len() != "dora"@.len());
            reveal_strlit("controlnet");
            assert("workflows"@.len() != "controlnet"@.len());
            reveal_strlit("upscaler");
            assert("workflows"@.len() != "upscaler"@.len());
            reveal_strlit("motionmodule");
            assert("workflows"@.len() != "motionmodule"@.len());
            reveal_strlit("vae");
            assert("workflows"@.len() != "vae"@.len());
            reveal_strlit("pose");
            assert("workflows"@.len() != "pose"@.len());
            reveal_strlit("poses");
            assert("workflows"@.len() != "poses"@.len());
            reveal_strlit("wildcards");
            assert("workflows"@[1] != "wildcards"@[1]);
            reveal_strlit("workflow");
            assert("workflows"@.len() != "workflow"@.len());
        },
        ModelKind::Detection => {
            reveal_strlit("detection");
            reveal_strlit("checkpoint");
            assert("detection"@.len() != "checkpoint"@.len());
            reveal_strlit("textualinversion");
            assert("detection"@.len() != "textualinversion"@.len());
            reveal_strlit("embedding");
            assert("detection"@[0] != "embedding"@[0]);
            reveal_strlit("hypernetwork");
            assert("detection"@.len() != "hypernetwork"@.len());
            reveal_strlit("aestheticgradient");
            assert("detection"@.len() != "aestheticgradient"@.len());
            reveal_strlit("lora");
            assert("detection"@.len() != "lora"@.len());
            reveal_strlit("lycoris");
            assert("detection"@.len() != "lycoris"@.len());
            reveal_strlit("dora");
            assert("detection"@.len() != "dora"@.len());
            reveal_strlit("controlnet");
            assert("detection"@.len() != "controlnet"@.len());
            reveal_strlit("upscaler");
            assert("detection"@.len() != "upscaler"@.len());
            reveal_strlit("motionmodule");
            assert("detection"@.len() != "motionmodule"@.len());
            reveal_strlit("vae");
            assert("detection"@.len() != "vae"@.len());
            reveal_strlit("pose");
            assert("detection"@.len() != "pose"@.len());
            reveal_strlit("poses");
            assert("detection"@.len() != "poses"@.len());
            reveal_strlit("wildcards");
            assert("detection"@[0] != "wildcards"@[0]);
            reveal_strlit("workflow");
            assert("detection"@.len() != "workflow"@.len());
            reveal_strlit("workflows");
            assert("detection"@[0] != "workflows"@[0]);
        },
        ModelKind::Other => {
            reveal_strlit("other");
            reveal_strlit("checkpoint");
            assert("other"@.len() != "checkpoint"@.len());
            reveal_strlit("textualinversion");
            assert("other"@.len() != "textualinversion"@.len());
            reveal_strlit("embedding");
            assert("other"@.len() != "embedding"@.len());
            reveal_strlit("hypernetwork");
            assert("other"@.len() != "hypernetwork"@.len());
            reveal_strlit("aestheticgradient");
            assert("other"@.len() != "aestheticgradient"@.len());
            reveal_strlit("lora");
            assert("other"@.len() != "lora"@.len());
            reveal_strlit("lycoris");
            assert("other"@.len() != "lycoris"@.len());
            reveal_strlit("dora");
            assert("other"@.len() != "dora"@.len());
            reveal_strlit("controlnet");
            assert("other"@.len() != "controlnet"@.len());
            reveal_strlit("upscaler");
            assert("other"@.len() != "upscaler"@.len());
            reveal_strlit("motionmodule");
            assert("other"@.len() != "motionmodule"@.len());
            reveal_strlit("vae");
            assert("other"@.len() != "vae"@.len());
            reveal_strlit("pose");
            assert("other"@.len() != "pose"@.len());
            reveal_strlit("poses");
            assert("other"@[0] != "poses"@[0]);
            reveal_strlit("wildcards");
            assert("other"@.len() != "wildcards"@.len());
            reveal_strlit("workflow");
            assert("other"@.len() != "workflow"@.len());
            reveal_strlit("workflows");
            assert("other"@.len() != "workflows"@.len());
            reveal_strlit("detection");
            assert("other"@.len() != "detection"@.len());
        },
        _ => {},
    }
}

/// A Civitai type whose text, trimmed and lower-cased, is a kind's
/// configuration key maps to that kind (`LORA` to LoRA, `lycoris` to
/// LyCORIS, ...). Aesthetic gradients and motion modules are the two kinds
/// Civitai names otherwise (`aestheticgradient`, `motionmodule`), so their
/// keys are left out.
pub proof fn lemma_civitai_type_by_key(raw: Seq<char>, kind: ModelKind)
    requires
        lower_spec(trim_spec(raw)) == kind_key(kind),
        kind != ModelKind::AestheticGradient,
        kind != ModelKind::Motion,
    ensures
        civitai_kind_spec(raw) == kind,
{
    lemma_civitai_word_of_key(kind);
}

/// Where the kind parser accepts a text, the Civitai mapping agrees with
/// it, except for the two kinds Civitai names otherwise.
pub proof fn lemma_civitai_agrees_with_kind_parser(raw: Seq<char>, kind: ModelKind)
    requires
        parse_kind_spec(raw) == Ok::<ModelKind, Seq<char>>(kind),
        kind != ModelKind::AestheticGradient,
        kind != ModelKind::Motion,
    ensures
        civitai_kind_spec(raw) == kind,
{
    lemma_kind_word_is_key(raw, kind);
    lemma_civitai_word_of_key(kind);
}

/// A copy of a source description.
pub fn copy_source_info(info: &SourceInfo) -> (r: SourceInfo)
    ensures
        r == *info,
{
    SourceInfo {
        id: info.id.clone(),
        kind: info.kind,
        display_name: info.display_name.clone(),
        api_base_url: info.api_base_url.clone(),
        web_base_url: info.web_base_url.clone(),
        enabled: info.enabled,
    }
}

impl View for CivitaiAdapter {
    type V = SourceInfo;

    /// The source description the adapter reports.
    closed spec fn view(&self) -> SourceInfo {
        self.info
    }
}

impl CivitaiAdapter {
    /// An adapter with the given base URLs; its id is `civitai` and its
    /// display name `Civitai`.
    pub fn new(api_base_url: String, web_base_url: String, enabled: bool) -> (r: CivitaiAdapter)
        ensures
            r@.id@ == "civitai"@,
            r@.kind == SourceKind::Civitai,
            r@.display_name@ == "Civitai"@,
            r@.api_base_url == api_base_url,
            r@.web_base_url == web_base_url,
            r@.enabled == enabled,
    {
        CivitaiAdapter {
            info: SourceInfo {
                id: "civitai".to_owned(),
                kind: SourceKind::Civitai,
                display_name: "Civitai".to_owned(),
                api_base_url,
                web_base_url,
                enabled,
            },
        }
    }

    /// The source description.
    pub fn info(&self) -> (r: SourceInfo)
        ensures
            r == self@,
    {
        copy_source_info(&self.info)
    }

    /// The source kind this adapter serves.
    pub fn source_kind(&self) -> (r: SourceKind)
        ensures
            r == SourceKind::Civitai,
    {
        SourceKind::Civitai
    }

    /// Health of the source: healthy when enabled, with a detail of
    /// `configured`, otherwise `disabled`.
    pub fn health(&self) -> (r: SourceHealth)
        ensures
            r.ok == self@.enabled,
            r.detail@ == if self@.enabled { "configured"@ } else { "disabled"@ },
    {
        SourceHealth {
            ok: self.info.enabled,
            detail: if self.info.enabled { "configured".to_owned() } else { "disabled".to_owned() },
        }
    }

    /// The result of a model search: no adapter call is made yet, so the page is empty.
    pub fn search_models(&self, query: &crate::domain::SearchQuery) -> (r: SearchResult<ModelSummary>)
        ensures
            r.items@.len() == 0,
            r.total == 0,
            r.next_page is None,
    {
        SearchResult { items: Vec::new(), total: 0, next_page: None }
    }

    /// The answer to a model fetch, which this adapter does not offer yet.
    pub fn fetch_model_error(model_id: &str) -> (r: DaedalusError)
        ensures
            r == DaedalusError::Other(r->Other_0) && r->Other_0@
                == "Civitai model fetch is not implemented yet for model id "@ + model_id@,
    {
        DaedalusError::Other(concat2("Civitai model fetch is not implemented yet for model id ", model_id))
    }

    /// The answer to a version fetch, which this adapter does not offer yet.
    pub fn fetch_version_error(version_id: &str) -> (r: DaedalusError)
        ensures
            r == DaedalusError::Other(r->Other_0) && r->Other_0@
                == "Civitai version fetch is not implemented yet for version id "@ + version_id@,
    {
        DaedalusError::Other(
            concat2("Civitai version fetch is not implemented yet for version id ", version_id),
        )
    }

    /// The answer to a download resolution, which this adapter does not offer yet.
    pub fn resolve_download_error(file_id: &str) -> (r: DaedalusError)
        ensures
            r == DaedalusError::Other(r->Other_0) && r->Other_0@
                == "Civitai download resolution is not implemented yet for file id "@ + file_id@,
    {
        DaedalusError::Other(
            concat2("Civitai download resolution is not implemented yet for file id ", file_id),
        )
    }

    /// Maps a Civitai model type onto the internal taxonomy; surrounding
    /// whitespace and ASCII case are ignored, and unknown types become `Other`.
    pub fn map_model_type(raw: &str) -> (r: ModelKind)
        ensures
            r == civitai_kind_spec(raw@),
    {
        let trimmed = trim(raw);
        let word = to_ascii_lowercase(trimmed.as_str());
        let w = word.as_str();
        if str_eq(w, "checkpoint") {
            ModelKind::Checkpoint
        } else if str_eq(w, "textualinversion") || str_eq(w, "embedding") {
            ModelKind::Embedding
        } else if str_eq(w, "hypernetwork") {
            ModelKind::Hypernetwork
        } else if str_eq(w, "aestheticgradient") {
            ModelKind::AestheticGradient
        } else if str_eq(w, "lora") {
            ModelKind::LoRA
        } else if str_eq(w, "lycoris") {
            ModelKind::LyCORIS
        } else if str_eq(w, "dora") {
            ModelKind::DoRA
        } else if str_eq(w, "controlnet") {
            ModelKind::ControlNet
        } else if str_eq(w, "upscaler") {
            ModelKind::Upscaler
        } else if str_eq(w, "motionmodule") {
            ModelKind::Motion
        } else if str_eq(w, "vae") {
            ModelKind::Vae
        } else if str_eq(w, "pose") || str_eq(w, "poses") {
            ModelKind::Poses
        } else if str_eq(w, "wildcards") {
            ModelKind::Wildcards
        } else if str_eq(w, "workflow") || str_eq(w, "workflows") {
            ModelKind::Workflows
        } else if str_eq(w, "detection") {
            ModelKind::Detection
        } else {
            ModelKind::Other
        }
    }
}

} // verus!
