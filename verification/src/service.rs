//! The application service: its state (configuration, store, catalog and
//! runtime mode) and every decision it takes. The caller performs the
//! file, database and network work the decisions call for.

use vstd::prelude::*;
use crate::catalog::{copy_opt_string, CatalogDb, LibraryItemInsert};
use crate::common::{
    is_listed_model_extension, lemma_model_file_by_extension, looks_like_model_file,
    looks_like_model_file_spec, DaedalusError,
};
use crate::config::{
    all_paths_plain, has_repeated_path, is_resolution, plain_resolution, validation_errors, AppConfig, ConfigStore,
    PlatformPaths, ResolvedConfig, ResolvedView, validation_warnings,
};
use crate::domain::{
    kind_label, DownloadRequest, ImportRequest, ModelKind, ServiceHealth, SourceInfo, SourceKind,
    SourceRef,
};
use crate::paths::{
    path_extension, path_extension_spec, path_file_name, path_file_name_spec, path_file_stem,
    path_file_stem_spec, path_starts_with, path_starts_with_spec,
};
use crate::placement::{
    compute_managed_path, is_unique_destination, managed_path_spec, unique_destination,
    PlacementInput,
};
use crate::sources::CivitaiAdapter;
use crate::text::{
    concat2, decimal, decimal_spec, join_texts, joined_spec, lower_spec, push_str, str_eq,
    string_views, to_ascii_lowercase,
};

verus! {

/// The service's state.
#[derive(Debug, Clone)]
pub struct DaedalusService {
    config_store: ConfigStore,
    config: AppConfig,
    db: CatalogDb,
    runtime_mode: String,
}

impl DaedalusService {
    /// The configuration the service runs with.
    pub closed spec fn config_spec(&self) -> AppConfig {
        self.config
    }

    /// Where the configuration is stored.
    pub closed spec fn store_spec(&self) -> ConfigStore {
        self.config_store
    }

    /// The catalog's database path.
    pub closed spec fn db_path_spec(&self) -> Seq<char> {
        self.db@
    }

    /// The runtime mode reported in health summaries.
    pub closed spec fn mode_spec(&self) -> Seq<char> {
        self.runtime_mode@
    }
}

/// The error a refused configuration is reported with: its errors joined by `; `.
pub open spec fn refusal_message(errors: Seq<Seq<char>>) -> Seq<char> {
    joined_spec(errors, "; "@)
}

/// Whether `r` is what checking `config` gives: success when a resolution
/// validated without error, with the database path of a resolution; on
/// refusal, the errors of a resolution, joined. When every path expands to
/// itself there is one resolution, and the outcome is fixed by it.
pub open spec fn config_check_outcome(
    config: AppConfig,
    platform: PlatformPaths,
    r: Result<Seq<char>, DaedalusError>,
) -> bool {
    &&& r matches Ok(db_path) ==> (exists|v: ResolvedView|
        is_resolution(config, platform, v) && validation_errors(config, v).len() == 0
            && !has_repeated_path(v.model_paths)) && (exists|
        v: ResolvedView,
    | is_resolution(config, platform, v) && db_path == v.database_path)
    &&& r matches Err(DaedalusError::Validation(m)) ==> exists|v: ResolvedView|
        is_resolution(config, platform, v) && validation_errors(config, v).len() > 0 && m@
            == refusal_message(validation_errors(config, v))
    &&& r matches Err(e) ==> (e is Validation || (e is Config && !all_paths_plain(config)))
    &&& all_paths_plain(config) ==> ({
        let v = plain_resolution(config, platform);
        &&& validation_errors(config, v).len() == 0 ==> r == Ok::<Seq<char>, DaedalusError>(
            v.database_path,
        )
        &&& validation_errors(config, v).len() > 0 ==> (r matches Err(DaedalusError::Validation(m))
            && m@ == refusal_message(validation_errors(config, v)))
        &&& has_repeated_path(v.model_paths) ==> r matches Err(DaedalusError::Validation(_))
    })
}

/// Validates a configuration and gives its database path when it is accepted.
fn check_config(config: &AppConfig, platform: &PlatformPaths, existing: &Vec<String>) -> (r:
    Result<String, DaedalusError>)
    ensures
        config_check_outcome(
            *config,
            *platform,
            match r {
                Ok(p) => Ok(p@),
                Err(e) => Err(e),
            },
        ),
{
    let report = config.validate(platform, existing)?;
    if !report.is_ok() {
        let message = join_texts(&report.errors, "; ");
        return Err(DaedalusError::Validation(message));
    }
    let resolved = config.resolved(platform)?;
    let ghost v1 = choose|v: ResolvedView|
        is_resolution(*config, *platform, v) && string_views(report.errors@) == validation_errors(
            *config,
            v,
        ) && string_views(report.warnings@) == validation_warnings(v, string_views(existing@)) && (
        has_repeated_path(v.model_paths) ==> report.errors@.len() > 0);
    proof {
        assert(validation_errors(*config, v1).len() == 0);
    }
    Ok(resolved.database_path)
}

impl DaedalusService {
    /// Starts the service from a loaded configuration: the configuration
    /// must validate, and the catalog is the resolved database path.
    /// `existing` lists the directories known to exist.
    pub fn from_store(
        config_store: ConfigStore,
        config: AppConfig,
        platform: &PlatformPaths,
        existing: &Vec<String>,
        runtime_mode: String,
    ) -> (r: Result<DaedalusService, DaedalusError>)
        ensures
            config_check_outcome(
                config,
                *platform,
                match r {
                    Ok(s) => Ok(s.db_path_spec()),
                    Err(e) => Err(e),
                },
            ),
            r matches Ok(s) ==> s.config_spec() == config && s.store_spec() == config_store
                && s.mode_spec() == runtime_mode@,
    {
        let db_path = check_config(&config, platform, existing)?;
        Ok(
            DaedalusService {
                config_store,
                config,
                db: CatalogDb::new(db_path),
                runtime_mode,
            },
        )
    }

    /// Replaces the configuration when it validates, and the catalog with
    /// the one at its resolved database path; a refused configuration
    /// leaves the service unchanged. Writing it to the store is the
    /// caller's part.
    pub fn update_config(
        &mut self,
        config: AppConfig,
        platform: &PlatformPaths,
        existing: &Vec<String>,
    ) -> (r: Result<(), DaedalusError>)
        ensures
            config_check_outcome(
                config,
                *platform,
                match r {
                    Ok(_) => Ok(final(self).db_path_spec()),
                    Err(e) => Err(e),
                },
            ),
            r is Ok ==> final(self).config_spec() == config,
            r is Err ==> *final(self) == *old(self),
            final(self).store_spec() == old(self).store_spec(),
            final(self).mode_spec() == old(self).mode_spec(),
    {
        let db_path = check_config(&config, platform, existing)?;
        self.config = config;
        self.db = CatalogDb::new(db_path);
        Ok(())
    }

    /// Where the configuration is stored.
    pub fn config_store(&self) -> (r: &ConfigStore)
        ensures
            *r == self.store_spec(),
    {
        &self.config_store
    }

    /// The catalog.
    pub fn catalog(&self) -> (r: &CatalogDb)
        ensures
            r@ == self.db_path_spec(),
    {
        &self.db
    }

    /// A copy of the current configuration.
    pub fn current_config(&self) -> (r: AppConfig)
        ensures
            r == self.config_spec(),
    {
        self.config.copied()
    }

    /// The configured sources: the Civitai adapter's description.
    pub fn list_sources(&self) -> (r: Vec<SourceInfo>)
        ensures
            r@.len() == 1,
            r@[0].id@ == "civitai"@,
            r@[0].kind == SourceKind::Civitai,
            r@[0].display_name@ == "Civitai"@,
            r@[0].api_base_url == self.config_spec().sources.civitai.api_base_url,
            r@[0].web_base_url == self.config_spec().sources.civitai.web_base_url,
            r@[0].enabled == self.config_spec().sources.civitai.enabled,
    {
        let civitai = CivitaiAdapter::new(
            self.config.sources.civitai.api_base_url.clone(),
            self.config.sources.civitai.web_base_url.clone(),
            self.config.sources.civitai.enabled,
        );
        let mut v: Vec<SourceInfo> = Vec::new();
        v.push(civitai.info());
        v
    }

    /// The health summary, given the number of catalog items.
    pub fn health(&self, library_item_count: usize) -> (r: ServiceHealth)
        ensures
            r.status@ == "ok"@,
            r.mode@ == self.mode_spec(),
            r.library_item_count == library_item_count,
            r.source_count == 1,
    {
        let sources = self.list_sources();
        ServiceHealth {
            status: "ok".to_owned(),
            mode: self.runtime_mode.clone(),
            library_item_count,
            source_count: sources.len(),
        }
    }

    /// The current configuration, resolved.
    pub fn resolved_config(&self, platform: &PlatformPaths) -> (r: Result<
        ResolvedConfig,
        DaedalusError,
    >)
        ensures
            r matches Ok(rc) ==> is_resolution(self.config_spec(), *platform, rc@),
            all_paths_plain(self.config_spec()) ==> (r matches Ok(rc) && rc@ == plain_resolution(
                self.config_spec(),
                *platform,
            )),
            r matches Err(e) ==> e is Config && !all_paths_plain(self.config_spec()),
    {
        self.config.resolved(platform)
    }

    /// The kind of a file, judged by the configured directories and then by
    /// its extension.
    pub fn infer_kind_from_path(&self, platform: &PlatformPaths, path: &str) -> (r: Result<
        ModelKind,
        DaedalusError,
    >)
        ensures
            r matches Ok(kind) ==> exists|v: ResolvedView|
                is_resolution(self.config_spec(), *platform, v) && kind == inferred_kind(
                    v.model_paths,
                    path@,
                ),
            all_paths_plain(self.config_spec()) ==> r == Ok::<ModelKind, DaedalusError>(
                inferred_kind(plain_resolution(self.config_spec(), *platform).model_paths, path@),
            ),
            r matches Err(e) ==> e is Config && !all_paths_plain(self.config_spec()),
    {
        let resolved = self.config.resolved(platform)?;
        Ok(infer_kind_in(&resolved, path))
    }
}

/// The first configured directory, in kind order from `i`, that contains `path`.
pub open spec fn root_match_from(paths: Seq<(ModelKind, Seq<char>)>, path: Seq<char>, i: int) -> Option<
    ModelKind,
>
    decreases paths.len() - i,
{
    if i < 0 || i >= paths.len() {
        None
    } else if path_starts_with_spec(path, paths[i].1) {
        Some(paths[i].0)
    } else {
        root_match_from(paths, path, i + 1)
    }
}

/// The kind a lower-cased extension suggests.
pub open spec fn extension_kind(ext: Option<Seq<char>>) -> ModelKind {
    match ext {
        Some(e) => if e == "json"@ || e == "yaml"@ || e == "yml"@ {
            ModelKind::Workflows
        } else if e == "txt"@ {
            ModelKind::Wildcards
        } else if e == "vae"@ {
            ModelKind::Vae
        } else if e == "safetensors"@ || e == "ckpt"@ || e == "pt"@ || e == "pth"@ || e == "bin"@ {
            ModelKind::Checkpoint
        } else {
            ModelKind::Other
        },
        None => ModelKind::Other,
    }
}

/// The kind of a file: the kind whose directory contains it, in kind order;
/// otherwise the kind its extension suggests.
pub open spec fn inferred_kind(paths: Seq<(ModelKind, Seq<char>)>, path: Seq<char>) -> ModelKind {
    match root_match_from(paths, path, 0) {
        Some(kind) => kind,
        None => extension_kind(
            match path_extension_spec(path) {
                Some(e) => Some(lower_spec(e)),
                None => None,
            },
        ),
    }
}

/// With no configured directory from position `i` on containing `path`,
/// no directory matches from there.
proof fn lemma_no_root_matches(paths: Seq<(ModelKind, Seq<char>)>, path: Seq<char>, i: int)
    requires
        0 <= i,
        forall|j: int| i <= j < paths.len() ==> !path_starts_with_spec(path, #[trigger] paths[j].1),
    ensures
        root_match_from(paths, path, i) is None,
    decreases paths.len() - i,
{
    if i < paths.len() {
        lemma_no_root_matches(paths, path, i + 1);
    }
}

/// A file inside none of the configured directories takes its kind from
/// its extension, ASCII case ignored: `safetensors`, `ckpt`, `pt`, `pth`
/// and `bin` make a checkpoint; `json`, `yaml` and `yml` a workflow; `txt`
/// wildcards; `vae` a VAE; a file without an extension is `Other`.
pub proof fn lemma_kind_outside_roots(paths: Seq<(ModelKind, Seq<char>)>, path: Seq<char>)
    requires
        forall|j: int| 0 <= j < paths.len() ==> !path_starts_with_spec(path, #[trigger] paths[j].1),
    ensures
        path_extension_spec(path) matches Some(e) ==> {
            let l = lower_spec(e);
            &&& (l == "safetensors"@ || l == "ckpt"@ || l == "pt"@ || l == "pth"@ || l == "bin"@)
                ==> inferred_kind(paths, path) == ModelKind::Checkpoint
            &&& (l == "json"@ || l == "yaml"@ || l == "yml"@) ==> inferred_kind(paths, path)
                == ModelKind::Workflows
            &&& l == "txt"@ ==> inferred_kind(paths, path) == ModelKind::Wildcards
            &&& l == "vae"@ ==> inferred_kind(paths, path) == ModelKind::Vae
        },
        path_extension_spec(path) is None ==> inferred_kind(paths, path) == ModelKind::Other,
{
    lemma_no_root_matches(paths, path, 0);
    if let Some(e) = path_extension_spec(path) {
        lemma_extension_kind_by_text(lower_spec(e));
    }
}

/// A file inside a configured directory takes the kind of the first such
/// directory, in kind order, whatever its extension.
pub proof fn lemma_kind_inside_root(paths: Seq<(ModelKind, Seq<char>)>, path: Seq<char>, i: int)
    requires
        0 <= i < paths.len(),
        path_starts_with_spec(path, paths[i].1),
        forall|j: int| 0 <= j < i ==> !path_starts_with_spec(path, #[trigger] paths[j].1),
    ensures
        inferred_kind(paths, path) == paths[i].0,
    decreases i,
{
    lemma_root_match_reaches(paths, path, 0, i);
}

proof fn lemma_root_match_reaches(paths: Seq<(ModelKind, Seq<char>)>, path: Seq<char>, k: int, i: int)
    requires
        0 <= k <= i < paths.len(),
        path_starts_with_spec(path, paths[i].1),
        forall|j: int| 0 <= j < i ==> !path_starts_with_spec(path, #[trigger] paths[j].1),
    ensures
        root_match_from(paths, path, k) == Some(paths[i].0),
    decreases i - k,
{
    if k < i {
        lemma_root_match_reaches(paths, path, k + 1, i);
    }
}

/// An import without a requested kind takes the inferred kind of its source.
pub proof fn lemma_import_kind_inferred(request: ImportRequest, v: ResolvedView, source: Seq<char>)
    requires
        request.kind is None,
    ensures
        import_kind_spec(request, v, source) == inferred_kind(v.model_paths, source),
{
}

/// The kind a lower-cased extension suggests.
pub fn kind_for_extension(ext: &str) -> (r: ModelKind)
    ensures
        r == extension_kind(Some(ext@)),
{
    if str_eq(ext, "json") || str_eq(ext, "yaml") || str_eq(ext, "yml") {
        ModelKind::Workflows
    } else if str_eq(ext, "txt") {
        ModelKind::Wildcards
    } else if str_eq(ext, "vae") {
        ModelKind::Vae
    } else if str_eq(ext, "safetensors") || str_eq(ext, "ckpt") || str_eq(ext, "pt") || str_eq(
        ext,
        "pth",
    ) || str_eq(ext, "bin") {
        ModelKind::Checkpoint
    } else {
        ModelKind::Other
    }
}

/// A lower-cased extension gives the kind its text names: `safetensors`,
/// `ckpt`, `pt`, `pth` and `bin` a checkpoint; `json`, `yaml` and `yml` a
/// workflow; `txt` wildcards; `vae` a VAE.
pub proof fn lemma_extension_kind_by_text(l: Seq<char>)
    ensures
        (l == "safetensors"@ || l == "ckpt"@ || l == "pt"@ || l == "pth"@ || l == "bin"@)
            ==> extension_kind(Some(l)) == ModelKind::Checkpoint,
        (l == "json"@ || l == "yaml"@ || l == "yml"@) ==> extension_kind(Some(l))
            == ModelKind::Workflows,
        l == "txt"@ ==> extension_kind(Some(l)) == ModelKind::Wildcards,
        l == "vae"@ ==> extension_kind(Some(l)) == ModelKind::Vae,
{
    reveal_strlit("safetensors");
    reveal_strlit("ckpt");
    reveal_strlit("pt");
    reveal_strlit("pth");
    reveal_strlit("bin");
    reveal_strlit("json");
    reveal_strlit("yaml");
    reveal_strlit("yml");
    reveal_strlit("txt");
    reveal_strlit("vae");
    let early: Seq<Seq<char>> = seq!["json"@, "yaml"@, "yml"@, "txt"@, "vae"@];
    let ckpts: Seq<Seq<char>> = seq!["safetensors"@, "ckpt"@, "pt"@, "pth"@, "bin"@];
    assert forall|i: int, j: int| 0 <= i < 5 && 0 <= j < 5 implies #[trigger] ckpts[i] != #[trigger] early[j] by {
        let a = ckpts[i];
        let b = early[j];
        if a.len() == b.len() {
            assert(a[0] != b[0] || a[1] != b[1]);
        }
    }
    assert forall|j: int| 0 <= j < 3 implies "txt"@ != #[trigger] early[j] by {
        assert("txt"@[0] != early[j][0] || "txt"@.len() != early[j].len());
    }
    assert(ckpts[0] != early[0] && ckpts[0] != early[1] && ckpts[0] != early[2] && ckpts[0] != early[3] && ckpts[0] != early[4]);
    assert(ckpts[1] != early[0] && ckpts[1] != early[1] && ckpts[1] != early[2] && ckpts[1] != early[3] && ckpts[1] != early[4]);
    assert(ckpts[2] != early[0] && ckpts[2] != early[1] && ckpts[2] != early[2] && ckpts[2] != early[3] && ckpts[2] != early[4]);
    assert(ckpts[3] != early[0] && ckpts[3] != early[1] && ckpts[3] != early[2] && ckpts[3] != early[3] && ckpts[3] != early[4]);
    assert(ckpts[4] != early[0] && ckpts[4] != early[1] && ckpts[4] != early[2] && ckpts[4] != early[3] && ckpts[4] != early[4]);
    assert(early[3] != early[0] && early[3] != early[1] && early[3] != early[2]);
    assert(early[4] != early[0] && early[4] != early[1] && early[4] != early[2] && early[4] != early[3]) by {
        assert("vae"@[0] != "json"@[0] && "vae"@[0] != "yaml"@[0] && "vae"@[0] != "yml"@[0] && "vae"@[0] != "txt"@[0]);
    }
}

/// The kind of a file under a resolved configuration.
pub fn infer_kind_in(resolved: &ResolvedConfig, path: &str) -> (r: ModelKind)
    ensures
        r == inferred_kind(resolved@.model_paths, path@),
{
    let ghost paths = resolved@.model_paths;
    let mut i: usize = 0;
    while i < resolved.model_paths.len()
        invariant
            paths == resolved@.model_paths,
            paths.len() == resolved.model_paths@.len(),
            i <= paths.len(),
            root_match_from(paths, path@, 0) == root_match_from(paths, path@, i as int),
        decreases resolved.model_paths.len() - i,
    {
        assert(paths[i as int] == (resolved.model_paths@[i as int].0, resolved.model_paths@[i as int].1@));
        if path_starts_with(path, resolved.model_paths[i].1.as_str()) {
            return resolved.model_paths[i].0;
        }
        i = i + 1;
    }
    match path_extension(path) {
        Some(ext) => {
            let lower = to_ascii_lowercase(ext.as_str());
            kind_for_extension(lower.as_str())
        },
        None => ModelKind::Other,
    }
}

/// The summary of a queued download job: `Queued {label} download for source file {id}`.
pub fn download_summary(request: &DownloadRequest) -> (r: String)
    ensures
        r@ == "Queued "@ + kind_label(request.model_kind) + " download for source file "@
            + request.source_file_id@,
{
    let mut s = concat2("Queued ", request.model_kind.label());
    push_str(&mut s, " download for source file ");
    push_str(&mut s, request.source_file_id.as_str());
    s
}

/// The summary a rescan job is created with.
pub const RESCAN_JOB_SUMMARY: &'static str = "Rescanning configured model directories";

/// The summary of a finished rescan: `Rescanned configured model directories ({n} files)`.
pub fn rescan_summary(scanned: usize) -> (r: String)
    ensures
        r@ == "Rescanned configured model directories ("@ + decimal_spec(scanned as nat)
            + " files)"@,
{
    let mut s = concat2("Rescanned configured model directories (", decimal(scanned as u64).as_str());
    push_str(&mut s, " files)");
    s
}

/// The provenance of a locally found file.
pub open spec fn is_local_source(s: Option<SourceRef>) -> bool {
    s == Some(
        SourceRef {
            source_kind: SourceKind::Local,
            source_model_id: None,
            source_version_id: None,
            source_url: None,
            source_category: None,
        },
    )
}

fn local_source() -> (r: Option<SourceRef>)
    ensures
        is_local_source(r),
{
    Some(
        SourceRef {
            source_kind: SourceKind::Local,
            source_model_id: None,
            source_version_id: None,
            source_url: None,
            source_category: None,
        },
    )
}

/// One file found while walking a configured directory.
#[derive(Debug, Clone, PartialEq, Eq)]
pub struct ScanEntry {
    /// The kind whose directory was walked.
    pub kind: ModelKind,
    /// The path as the walk found it.
    pub path: String,
    /// The path with links and relative parts resolved, where that succeeded.
    pub normalized_path: String,
    /// Whether the entry is a regular file.
    pub is_file: bool,
}

/// Whether a walked entry is catalogued: a regular file that looks like a model.
pub open spec fn is_catalogued(e: ScanEntry) -> bool {
    e.is_file && looks_like_model_file_spec(e.path@)
}

/// The display name of a found file: its stem, or `discovered-model`.
pub open spec fn discovered_name(path: Seq<char>) -> Seq<char> {
    match path_file_stem_spec(path) {
        Some(stem) => stem,
        None => "discovered-model"@,
    }
}

/// Whether `item` is the catalog record for a walked entry found at `now`.
pub open spec fn is_scan_record(item: LibraryItemInsert, e: ScanEntry, now: String) -> bool {
    &&& item.display_name@ == discovered_name(e.path@)
    &&& item.primary_model_kind == e.kind
    &&& is_local_source(item.source)
    &&& item.installed_version is None
    &&& item.storage_path == e.normalized_path
    &&& !item.favorite
    &&& !item.pinned
    &&& item.notes is None
    &&& item.last_verified_at == Some(now)
}

/// The catalogued entries among the first `n`.
pub open spec fn catalogued_prefix(entries: Seq<ScanEntry>, n: int) -> Seq<ScanEntry>
    decreases n,
{
    if n <= 0 {
        Seq::empty()
    } else {
        let rest = catalogued_prefix(entries, n - 1);
        if is_catalogued(entries[n - 1]) {
            rest.push(entries[n - 1])
        } else {
            rest
        }
    }
}

/// A catalogued entry among the first `n` is kept by `catalogued_prefix`.
proof fn lemma_catalogued_prefix_keeps(entries: Seq<ScanEntry>, k: int, n: int)
    requires
        0 <= k < n <= entries.len(),
        is_catalogued(entries[k]),
    ensures
        catalogued_prefix(entries, n).contains(entries[k]),
    decreases n,
{
    let rest = catalogued_prefix(entries, n - 1);
    if k < n - 1 {
        lemma_catalogued_prefix_keeps(entries, k, n - 1);
        let i = choose|i: int| 0 <= i < rest.len() && rest[i] == entries[k];
        if is_catalogued(entries[n - 1]) {
            assert(rest.push(entries[n - 1])[i] == entries[k]);
        }
    } else {
        assert(rest.push(entries[n - 1])[rest.len() as int] == entries[k]);
    }
}

/// A rescan catalogues every regular file the walk found whose extension,
/// ASCII case ignored, is bin, ckpt, gguf, json, onnx, pt, pth,
/// safetensors, txt, vae, yaml or yml; an entry that is not a regular file
/// is never catalogued.
pub proof fn lemma_rescan_catalogues_model_files(entries: Seq<ScanEntry>, k: int)
    requires
        0 <= k < entries.len(),
    ensures
        entries[k].is_file && (path_extension_spec(entries[k].path@) matches Some(ext)
            && is_listed_model_extension(lower_spec(ext))) ==> catalogued_prefix(
            entries,
            entries.len() as int,
        ).contains(entries[k]),
        !entries[k].is_file ==> !is_catalogued(entries[k]),
{
    lemma_model_file_by_extension(entries[k].path@);
    if is_catalogued(entries[k]) {
        lemma_catalogued_prefix_keeps(entries, k, entries.len() as int);
    }
}

/// The records a rescan writes, in walk order.
#[derive(Debug, Clone)]
pub struct RescanPlan {
    pub inserts: Vec<LibraryItemInsert>,
    pub scanned: usize,
}

/// The records a rescan writes for the walked entries: one per regular
/// file that looks like a model, in walk order, stored under its
/// normalized path.
pub fn plan_rescan(entries: &Vec<ScanEntry>, now: String) -> (r: RescanPlan)
    ensures
        r.scanned == r.inserts@.len(),
        r.inserts@.len() == catalogued_prefix(entries@, entries@.len() as int).len(),
        forall|i: int|
            0 <= i < r.inserts@.len() ==> is_scan_record(
                #[trigger] r.inserts@[i],
                catalogued_prefix(entries@, entries@.len() as int)[i],
                now,
            ),
{
    let mut inserts: Vec<LibraryItemInsert> = Vec::new();
    let mut i: usize = 0;
    while i < entries.len()
        invariant
            i <= entries@.len(),
            inserts@.len() == catalogued_prefix(entries@, i as int).len(),
            forall|k: int|
                0 <= k < inserts@.len() ==> is_scan_record(
                    #[trigger] inserts@[k],
                    catalogued_prefix(entries@, i as int)[k],
                    now,
                ),
        decreases entries.len() - i,
    {
        let entry = &entries[i];
        if entry.is_file && looks_like_model_file(entry.path.as_str()) {
            let display_name = match path_file_stem(entry.path.as_str()) {
                Some(stem) => stem,
                None => "discovered-model".to_owned(),
            };
            let item = LibraryItemInsert {
                display_name,
                primary_model_kind: entry.kind,
                source: local_source(),
                installed_version: None,
                storage_path: entry.normalized_path.clone(),
                favorite: false,
                pinned: false,
                notes: None,
                last_verified_at: Some(now.clone()),
            };
            inserts.push(item);
        }
        assert forall|k: int|
            0 <= k < inserts@.len() implies is_scan_record(
            #[trigger] inserts@[k],
            catalogued_prefix(entries@, i + 1)[k],
            now,
        ) by {
            if k < catalogued_prefix(entries@, i as int).len() {
                assert(catalogued_prefix(entries@, i + 1)[k] == catalogued_prefix(entries@, i as int)[k]);
            }
        }
        i = i + 1;
    }
    let scanned = inserts.len();
    RescanPlan { inserts, scanned }
}

/// The error for an import source that is missing or not a regular file.
pub fn missing_import_source(path: &str) -> (r: DaedalusError)
    ensures
        r == DaedalusError::NotFound(r->NotFound_0) && r->NotFound_0@ == "local file does not exist: "@
            + path@,
{
    DaedalusError::NotFound(concat2("local file does not exist: ", path))
}

/// The kind of an imported file: the requested kind, or the inferred one.
pub open spec fn import_kind_spec(request: ImportRequest, v: ResolvedView, source: Seq<char>) -> ModelKind {
    match request.kind {
        Some(kind) => kind,
        None => inferred_kind(v.model_paths, source),
    }
}

/// The display name of an imported file: the requested name, or the stem
/// of `path`, or `imported-model`.
pub open spec fn import_name_spec(request: ImportRequest, path: Seq<char>) -> Seq<char> {
    match request.display_name {
        Some(name) => name@,
        None => match path_file_stem_spec(path) {
            Some(stem) => stem,
            None => "imported-model"@,
        },
    }
}

/// The managed path an imported file is copied to before collisions are
/// avoided: placed by kind, display name and `manual-import`, under the
/// storage root; when the source has no file name, the validation error's
/// text.
pub open spec fn import_target_spec(
    request: ImportRequest,
    v: ResolvedView,
    source: Seq<char>,
) -> Result<Seq<char>, Seq<char>> {
    match path_file_name_spec(source) {
        Some(name) => Ok(
            managed_path_spec(
                v.default_storage_root,
                import_kind_spec(request, v, source),
                import_name_spec(request, source),
                "manual-import"@,
                name,
            ),
        ),
        None => Err("source file must have a valid filename"@),
    }
}

fn display_name_for(request: &ImportRequest, path: &str) -> (r: String)
    ensures
        r@ == import_name_spec(*request, path@),
{
    match &request.display_name {
        Some(name) => name.clone(),
        None => match path_file_stem(path) {
            Some(stem) => stem,
            None => "imported-model".to_owned(),
        },
    }
}

/// The kind an imported file is catalogued as.
pub fn import_kind(request: &ImportRequest, resolved: &ResolvedConfig, source: &str) -> (r: ModelKind)
    ensures
        r == import_kind_spec(*request, resolved@, source@),
{
    match request.kind {
        Some(kind) => kind,
        None => infer_kind_in(resolved, source),
    }
}

/// The managed path an imported file is copied to, before collisions are
/// avoided.
pub fn import_target(request: &ImportRequest, resolved: &ResolvedConfig, source: &str) -> (r: Result<
    String,
    DaedalusError,
>)
    ensures
        match r {
            Ok(p) => import_target_spec(*request, resolved@, source@) == Ok::<Seq<char>, Seq<char>>(p@),
            Err(e) => e matches DaedalusError::Validation(m) && import_target_spec(*request, resolved@, source@)
                == Err::<Seq<char>, Seq<char>>(m@),
        },
{
    let file_name = match path_file_name(source) {
        Some(name) => name,
        None => {
            let m = "source file must have a valid filename".to_owned();
            proof {
                reveal_strlit("source file must have a valid filename");
            }
            return Err(DaedalusError::Validation(m));
        },
    };
    let kind = import_kind(request, resolved, source);
    let display_name = display_name_for(request, source);
    let target = compute_managed_path(
        PlacementInput {
            root: resolved.default_storage_root.as_str(),
            kind,
            model_name: display_name.as_str(),
            version_name: "manual-import",
            filename: file_name.as_str(),
        },
    );
    Ok(target)
}

/// What importing a file does: copy it (when `copy_to` is set, to that
/// path, creating its directory) and then write the catalog record.
#[derive(Debug, Clone)]
pub struct ImportPlan {
    pub copy_to: Option<String>,
    pub item: LibraryItemInsert,
}

/// Whether `item` is the catalog record of an import stored at `storage`.
pub open spec fn is_import_record(
    item: LibraryItemInsert,
    request: ImportRequest,
    v: ResolvedView,
    source: Seq<char>,
    storage: Seq<char>,
    now: String,
) -> bool {
    &&& item.display_name@ == import_name_spec(request, storage)
    &&& item.primary_model_kind == import_kind_spec(request, v, source)
    &&& is_local_source(item.source)
    &&& item.installed_version is None
    &&& item.storage_path@ == storage
    &&& !item.favorite
    &&& !item.pinned
    &&& item.notes is None
    &&& item.last_verified_at == Some(now)
}

/// Plans the import of an existing local file at `source` (already
/// normalized). When the request copies into the library, the copy goes to
/// the managed path, renamed to avoid the paths in `taken`; otherwise the
/// file is catalogued where it is.
pub fn plan_import(
    request: &ImportRequest,
    source: &str,
    resolved: &ResolvedConfig,
    taken: &Vec<String>,
    now: String,
) -> (r: Result<ImportPlan, DaedalusError>)
    requires
        taken@.len() < u64::MAX,
    ensures
        request.copy_into_library ==> match import_target_spec(*request, resolved@, source@) {
            Ok(target) => r matches Ok(plan) && plan.copy_to is Some && is_unique_destination(
                target,
                string_views(taken@),
                plan.copy_to->0@,
            ) && is_import_record(
                plan.item,
                *request,
                resolved@,
                source@,
                plan.copy_to->0@,
                now,
            ),
            Err(m) => r matches Err(DaedalusError::Validation(x)) && x@ == m,
        },
        !request.copy_into_library ==> (r matches Ok(plan) && plan.copy_to is None
            && is_import_record(plan.item, *request, resolved@, source@, source@, now)),
{
    let kind = import_kind(request, resolved, source);
    let (copy_to, storage) = if request.copy_into_library {
        let target = import_target(request, resolved, source)?;
        let destination = unique_destination(target.as_str(), taken);
        (Some(destination.clone()), destination)
    } else {
        (None, source.to_owned())
    };
    let display_name = display_name_for(request, storage.as_str());
    let item = LibraryItemInsert {
        display_name,
        primary_model_kind: kind,
        source: local_source(),
        installed_version: None,
        storage_path: storage,
        favorite: false,
        pinned: false,
        notes: None,
        last_verified_at: Some(now),
    };
    Ok(ImportPlan { copy_to, item })
}

} // verus!
