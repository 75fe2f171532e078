//! The catalog's record encoding: the text each enumeration is stored as,
//! the row an insert writes, the decoding of stored rows, and how a job's
//! status update changes its record. Reading and writing the database is the
//! caller's part.

use vstd::prelude::*;
use crate::common::{check_rfc3339, rfc3339_accepts, DaedalusError};
use crate::domain::{
    is_terminal_status, kind_key, parse_kind_spec, JobKind, JobStatus, LibraryItem, ModelKind,
    SourceKind, SourceRef,
};
use crate::text::{concat2, push_str, str_eq};

verus! {

/// The catalog database, named by its file path.
#[derive(Debug, Clone)]
pub struct CatalogDb {
    path: String,
}

impl View for CatalogDb {
    type V = Seq<char>;

    /// The database's file path.
    closed spec fn view(&self) -> Seq<char> {
        self.path@
    }
}

impl CatalogDb {
    /// The catalog stored at `path`; creating its tables is the caller's part.
    pub fn new(path: String) -> (r: CatalogDb)
        ensures
            r@ == path@,
    {
        CatalogDb { path }
    }

    /// The database's file path.
    pub fn path(&self) -> (r: &str)
        ensures
            r@ == self@,
    {
        self.path.as_str()
    }
}

/// The stored text of a source kind.
pub open spec fn source_kind_text(kind: SourceKind) -> Seq<char> {
    match kind {
        SourceKind::Civitai => "civitai"@,
        SourceKind::Local => "local"@,
    }
}

/// The stored text of a job kind.
pub open spec fn job_kind_text(kind: JobKind) -> Seq<char> {
    match kind {
        JobKind::Download => "download"@,
        JobKind::Sync => "sync"@,
        JobKind::Rescan => "rescan"@,
        JobKind::Import => "import"@,
        JobKind::PreviewSync => "preview_sync"@,
    }
}

/// The stored text of a job status.
pub open spec fn job_status_text(status: JobStatus) -> Seq<char> {
    match status {
        JobStatus::Queued => "queued"@,
        JobStatus::Running => "running"@,
        JobStatus::Completed => "completed"@,
        JobStatus::Failed => "failed"@,
        JobStatus::Cancelled => "cancelled"@,
    }
}

/// The stored text of a source kind.
pub fn source_kind_to_str(value: SourceKind) -> (r: &'static str)
    ensures
        r@ == source_kind_text(value),
{
    match value {
        SourceKind::Civitai => "civitai",
        SourceKind::Local => "local",
    }
}

/// The stored text of a job kind.
pub fn job_kind_to_str(value: JobKind) -> (r: &'static str)
    ensures
        r@ == job_kind_text(value),
{
    match value {
        JobKind::Download => "download",
        JobKind::Sync => "sync",
        JobKind::Rescan => "rescan",
        JobKind::Import => "import",
        JobKind::PreviewSync => "preview_sync",
    }
}

/// The stored text of a job status.
pub fn job_status_to_str(value: JobStatus) -> (r: &'static str)
    ensures
        r@ == job_status_text(value),
{
    match value {
        JobStatus::Queued => "queued",
        JobStatus::Running => "running",
        JobStatus::Completed => "completed",
        JobStatus::Failed => "failed",
        JobStatus::Cancelled => "cancelled",
    }
}

/// What decoding a stored source kind gives.
pub open spec fn parse_source_kind_spec(value: Seq<char>) -> Result<SourceKind, Seq<char>> {
    if value == "civitai"@ {
        Ok(SourceKind::Civitai)
    } else if value == "local"@ {
        Ok(SourceKind::Local)
    } else {
        Err("unknown source kind '"@ + value + "'"@)
    }
}

/// What decoding a stored job kind gives.
pub open spec fn parse_job_kind_spec(value: Seq<char>) -> Result<JobKind, Seq<char>> {
    if value == "download"@ {
        Ok(JobKind::Download)
    } else if value == "sync"@ {
        Ok(JobKind::Sync)
    } else if value == "rescan"@ {
        Ok(JobKind::Rescan)
    } else if value == "import"@ {
        Ok(JobKind::Import)
    } else if value == "preview_sync"@ {
        Ok(JobKind::PreviewSync)
    } else {
        Err("unknown job kind '"@ + value + "'"@)
    }
}

/// What decoding a stored job status gives.
pub open spec fn parse_job_status_spec(value: Seq<char>) -> Result<JobStatus, Seq<char>> {
    if value == "queued"@ {
        Ok(JobStatus::Queued)
    } else if value == "running"@ {
        Ok(JobStatus::Running)
    } else if value == "completed"@ {
        Ok(JobStatus::Completed)
    } else if value == "failed"@ {
        Ok(JobStatus::Failed)
    } else if value == "cancelled"@ {
        Ok(JobStatus::Cancelled)
    } else {
        Err("unknown job status '"@ + value + "'"@)
    }
}

/// `unknown {what} '{value}'`.
fn unknown_value(what: &str, value: &str) -> (r: String)
    ensures
        r@ == "unknown "@ + what@ + " '"@ + value@ + "'"@,
{
    let mut s = concat2("unknown ", what);
    push_str(&mut s, " '");
    push_str(&mut s, value);
    push_str(&mut s, "'");
    s
}

/// Decodes a stored source kind.
pub fn parse_source_kind(value: &str) -> (r: Result<SourceKind, String>)
    ensures
        match r {
            Ok(kind) => parse_source_kind_spec(value@) == Ok::<SourceKind, Seq<char>>(kind),
            Err(m) => parse_source_kind_spec(value@) == Err::<SourceKind, Seq<char>>(m@),
        },
{
    if str_eq(value, "civitai") {
        Ok(SourceKind::Civitai)
    } else if str_eq(value, "local") {
        Ok(SourceKind::Local)
    } else {
        let m = unknown_value("source kind", value);
        proof {
            reveal_strlit("unknown ");
            reveal_strlit("source kind");
            reveal_strlit(" '");
            reveal_strlit("unknown source kind '");
            assert("unknown "@ + "source kind"@ + " '"@ =~= "unknown source kind '"@);
        }
        Err(m)
    }
}

/// Decodes a stored job kind.
pub fn parse_job_kind(value: &str) -> (r: Result<JobKind, String>)
    ensures
        match r {
            Ok(kind) => parse_job_kind_spec(value@) == Ok::<JobKind, Seq<char>>(kind),
            Err(m) => parse_job_kind_spec(value@) == Err::<JobKind, Seq<char>>(m@),
        },
{
    if str_eq(value, "download") {
        Ok(JobKind::Download)
    } else if str_eq(value, "sync") {
        Ok(JobKind::Sync)
    } else if str_eq(value, "rescan") {
        Ok(JobKind::Rescan)
    } else if str_eq(value, "import") {
        Ok(JobKind::Import)
    } else if str_eq(value, "preview_sync") {
        Ok(JobKind::PreviewSync)
    } else {
        let m = unknown_value("job kind", value);
        proof {
            reveal_strlit("unknown ");
            reveal_strlit("job kind");
            reveal_strlit(" '");
            reveal_strlit("unknown job kind '");
            assert("unknown "@ + "job kind"@ + " '"@ =~= "unknown job kind '"@);
        }
        Err(m)
    }
}

/// Decodes a stored job status.
pub fn parse_job_status(value: &str) -> (r: Result<JobStatus, String>)
    ensures
        match r {
            Ok(status) => parse_job_status_spec(value@) == Ok::<JobStatus, Seq<char>>(status),
            Err(m) => parse_job_status_spec(value@) == Err::<JobStatus, Seq<char>>(m@),
        },
{
    if str_eq(value, "queued") {
        Ok(JobStatus::Queued)
    } else if str_eq(value, "running") {
        Ok(JobStatus::Running)
    } else if str_eq(value, "completed") {
        Ok(JobStatus::Completed)
    } else if str_eq(value, "failed") {
        Ok(JobStatus::Failed)
    } else if str_eq(value, "cancelled") {
        Ok(JobStatus::Cancelled)
    } else {
        let m = unknown_value("job status", value);
        proof {
            reveal_strlit("unknown ");
            reveal_strlit("job status");
            reveal_strlit(" '");
            reveal_strlit("unknown job status '");
            assert("unknown "@ + "job status"@ + " '"@ =~= "unknown job status '"@);
        }
        Err(m)
    }
}

/// Decodes a stored model kind.
pub fn parse_model_kind(value: &str) -> (r: Result<ModelKind, String>)
    ensures
        match r {
            Ok(kind) => parse_kind_spec(value@) == Ok::<ModelKind, Seq<char>>(kind),
            Err(m) => parse_kind_spec(value@) == Err::<ModelKind, Seq<char>>(m@),
        },
{
    ModelKind::parse(value)
}

/// Checks a stored timestamp.
pub fn parse_timestamp(value: &str) -> (r: Result<(), String>)
    ensures
        r is Ok <==> rfc3339_accepts(value@),
{
    check_rfc3339(value)
}

/// A copy of an optional text.
pub fn copy_opt_string(o: &Option<String>) -> (r: Option<String>)
    ensures
        r == *o,
{
    match o {
        Some(s) => Some(s.clone()),
        None => None,
    }
}

/// What the catalog stores for a library item, keyed by its storage path.
#[derive(Debug, Clone, PartialEq, Eq)]
pub struct LibraryItemInsert {
    pub display_name: String,
    pub primary_model_kind: ModelKind,
    pub source: Option<SourceRef>,
    pub installed_version: Option<String>,
    pub storage_path: String,
    pub favorite: bool,
    pub pinned: bool,
    pub notes: Option<String>,
    pub last_verified_at: Option<String>,
}

/// A stored `library_items` row, column by column.
#[derive(Debug, Clone, PartialEq, Eq)]
pub struct LibraryItemRow {
    pub id: i64,
    pub display_name: String,
    pub primary_model_kind: String,
    pub source_kind: Option<String>,
    pub source_model_id: Option<String>,
    pub source_version_id: Option<String>,
    pub source_url: Option<String>,
    pub source_category: Option<String>,
    pub installed_version: Option<String>,
    pub storage_path: String,
    pub favorite: i64,
    pub pinned: i64,
    pub notes: Option<String>,
    pub last_verified_at: Option<String>,
    pub created_at: String,
}

/// The stored form of a flag.
pub open spec fn flag_column(b: bool) -> i64 {
    if b { 1 } else { 0 }
}

/// Whether `row` is what the catalog stores for `item` under `id`, created at `created_at`.
pub open spec fn is_row_of(row: LibraryItemRow, item: LibraryItemInsert, id: i64, created_at: String) -> bool {
    &&& row.id == id
    &&& row.display_name == item.display_name
    &&& row.primary_model_kind@ == kind_key(item.primary_model_kind)
    &&& match item.source {
        Some(src) => {
            &&& row.source_kind is Some
            &&& row.source_kind->0@ == source_kind_text(src.source_kind)
            &&& row.source_model_id == src.source_model_id
            &&& row.source_version_id == src.source_version_id
            &&& row.source_url == src.source_url
            &&& row.source_category == src.source_category
        },
        None => {
            &&& row.source_kind is None
            &&& row.source_model_id is None
            &&& row.source_version_id is None
            &&& row.source_url is None
            &&& row.source_category is None
        },
    }
    &&& row.installed_version == item.installed_version
    &&& row.storage_path == item.storage_path
    &&& row.favorite == flag_column(item.favorite)
    &&& row.pinned == flag_column(item.pinned)
    &&& row.notes == item.notes
    &&& row.last_verified_at == item.last_verified_at
    &&& row.created_at == created_at
}

/// Optional text of a provenance field.
fn source_field(source: &Option<SourceRef>, which: u8) -> (r: Option<String>)
    requires
        which < 4,
    ensures
        match source {
            Some(s) => r == if which == 0 {
                s.source_model_id
            } else if which == 1 {
                s.source_version_id
            } else if which == 2 {
                s.source_url
            } else {
                s.source_category
            },
            None => r is None,
        },
{
    match source {
        Some(s) => if which == 0 {
            copy_opt_string(&s.source_model_id)
        } else if which == 1 {
            copy_opt_string(&s.source_version_id)
        } else if which == 2 {
            copy_opt_string(&s.source_url)
        } else {
            copy_opt_string(&s.source_category)
        },
        None => None,
    }
}

/// The row the catalog stores for an item, given the id and creation time
/// the store assigns.
pub fn insert_row(item: &LibraryItemInsert, id: i64, created_at: String) -> (r: LibraryItemRow)
    ensures
        is_row_of(r, *item, id, created_at),
{
    let source_kind = match &item.source {
        Some(s) => Some(source_kind_to_str(s.source_kind).to_owned()),
        None => None,
    };
    LibraryItemRow {
        id,
        display_name: item.display_name.clone(),
        primary_model_kind: item.primary_model_kind.config_key().to_owned(),
        source_kind,
        source_model_id: source_field(&item.source, 0),
        source_version_id: source_field(&item.source, 1),
        source_url: source_field(&item.source, 2),
        source_category: source_field(&item.source, 3),
        installed_version: copy_opt_string(&item.installed_version),
        storage_path: item.storage_path.clone(),
        favorite: if item.favorite { 1 } else { 0 },
        pinned: if item.pinned { 1 } else { 0 },
        notes: copy_opt_string(&item.notes),
        last_verified_at: copy_opt_string(&item.last_verified_at),
        created_at,
    }
}

/// The row an upsert leaves for `item`: an existing row with the same
/// storage path keeps its id and creation time and takes every other column
/// from `item`; otherwise a new row is created at `now`, whose id the store
/// assigns on insert (0 stands for it here).
pub fn upsert_row(existing: Option<&LibraryItemRow>, item: &LibraryItemInsert, now: String) -> (r:
    LibraryItemRow)
    ensures
        match existing {
            Some(old) => is_row_of(r, *item, old.id, old.created_at),
            None => is_row_of(r, *item, 0, now),
        },
{
    match existing {
        Some(old) => insert_row(item, old.id, old.created_at.clone()),
        None => insert_row(item, 0, now),
    }
}


/// Whether a stored provenance kind decodes.
pub open spec fn row_source_decodes(row: LibraryItemRow) -> bool {
    match row.source_kind {
        Some(s) => parse_source_kind_spec(s@) is Ok,
        None => true,
    }
}

/// Whether a stored row decodes: its kinds are known and its timestamps are RFC 3339.
pub open spec fn row_decodes(row: LibraryItemRow) -> bool {
    &&& row_source_decodes(row)
    &&& parse_kind_spec(row.primary_model_kind@) is Ok
    &&& match row.last_verified_at {
        Some(t) => rfc3339_accepts(t@),
        None => true,
    }
    &&& rfc3339_accepts(row.created_at@)
}

/// The item a decodable row stands for.
pub open spec fn decoded_item(row: LibraryItemRow) -> LibraryItem {
    LibraryItem {
        id: row.id,
        display_name: row.display_name,
        primary_model_kind: parse_kind_spec(row.primary_model_kind@)->Ok_0,
        source: match row.source_kind {
            Some(s) => Some(
                SourceRef {
                    source_kind: parse_source_kind_spec(s@)->Ok_0,
                    source_model_id: row.source_model_id,
                    source_version_id: row.source_version_id,
                    source_url: row.source_url,
                    source_category: row.source_category,
                },
            ),
            None => None,
        },
        installed_version: row.installed_version,
        storage_path: row.storage_path,
        favorite: row.favorite != 0,
        pinned: row.pinned != 0,
        notes: row.notes,
        last_verified_at: row.last_verified_at,
        created_at: row.created_at,
    }
}

/// Decodes a stored `library_items` row. The provenance kind is decoded
/// first, then the model kind, then the timestamps; the first failure is
/// reported.
pub fn library_item_from_row(row: LibraryItemRow) -> (r: Result<LibraryItem, String>)
    ensures
        r is Ok <==> row_decodes(row),
        r matches Ok(item) ==> item == decoded_item(row),
        r matches Err(m) ==> (!row_source_decodes(row) ==> parse_source_kind_spec(
            row.source_kind->0@,
        ) == Err::<SourceKind, Seq<char>>(m@)),
        r matches Err(m) ==> (row_source_decodes(row) && parse_kind_spec(
            row.primary_model_kind@,
        ) is Err ==> parse_kind_spec(row.primary_model_kind@) == Err::<ModelKind, Seq<char>>(m@)),
{
    let source = match &row.source_kind {
        Some(raw) => {
            let kind = parse_source_kind(raw.as_str())?;
            Some(
                SourceRef {
                    source_kind: kind,
                    source_model_id: copy_opt_string(&row.source_model_id),
                    source_version_id: copy_opt_string(&row.source_version_id),
                    source_url: copy_opt_string(&row.source_url),
                    source_category: copy_opt_string(&row.source_category),
                },
            )
        },
        None => None,
    };
    let kind = parse_model_kind(row.primary_model_kind.as_str())?;
    match &row.last_verified_at {
        Some(t) => {
            parse_timestamp(t.as_str())?;
        },
        None => {},
    }
    parse_timestamp(row.created_at.as_str())?;
    Ok(
        LibraryItem {
            id: row.id,
            display_name: row.display_name,
            primary_model_kind: kind,
            source,
            installed_version: row.installed_version,
            storage_path: row.storage_path,
            favorite: row.favorite != 0,
            pinned: row.pinned != 0,
            notes: row.notes,
            last_verified_at: row.last_verified_at,
            created_at: row.created_at,
        },
    )
}

/// A job's record without its progress, which the caller keeps.
#[derive(Debug, Clone, PartialEq, Eq)]
pub struct JobRecord {
    pub id: i64,
    pub kind: JobKind,
    pub status: JobStatus,
    pub summary: String,
    pub error_summary: Option<String>,
    pub created_at: String,
    pub started_at: Option<String>,
    pub finished_at: Option<String>,
}

/// A stored `jobs` row without its progress column.
#[derive(Debug, Clone, PartialEq, Eq)]
pub struct JobRow {
    pub id: i64,
    pub kind: String,
    pub status: String,
    pub summary: String,
    pub error_summary: Option<String>,
    pub created_at: String,
    pub started_at: Option<String>,
    pub finished_at: Option<String>,
}

/// Whether a timestamp column decodes.
pub open spec fn optional_stamp_decodes(t: Option<String>) -> bool {
    match t {
        Some(s) => rfc3339_accepts(s@),
        None => true,
    }
}

/// Whether a stored job row decodes.
pub open spec fn job_row_decodes(row: JobRow) -> bool {
    &&& parse_job_kind_spec(row.kind@) is Ok
    &&& parse_job_status_spec(row.status@) is Ok
    &&& rfc3339_accepts(row.created_at@)
    &&& optional_stamp_decodes(row.started_at)
    &&& optional_stamp_decodes(row.finished_at)
}

/// Whether `row` stores `job`.
pub open spec fn is_job_row_of(row: JobRow, job: JobRecord) -> bool {
    &&& row.id == job.id
    &&& row.kind@ == job_kind_text(job.kind)
    &&& row.status@ == job_status_text(job.status)
    &&& row.summary == job.summary
    &&& row.error_summary == job.error_summary
    &&& row.created_at == job.created_at
    &&& row.started_at == job.started_at
    &&& row.finished_at == job.finished_at
}

/// Checks an optional stored timestamp.
fn check_optional_stamp(t: &Option<String>) -> (r: Result<(), String>)
    ensures
        r is Ok <==> optional_stamp_decodes(*t),
{
    match t {
        Some(s) => parse_timestamp(s.as_str()),
        None => Ok(()),
    }
}

impl JobRecord {
    /// A newly queued job.
    pub fn queued(id: i64, kind: JobKind, summary: String, created_at: String) -> (r: JobRecord)
        ensures
            r == (JobRecord {
                id,
                kind,
                status: JobStatus::Queued,
                summary,
                error_summary: None,
                created_at,
                started_at: None,
                finished_at: None,
            }),
    {
        JobRecord {
            id,
            kind,
            status: JobStatus::Queued,
            summary,
            error_summary: None,
            created_at,
            started_at: None,
            finished_at: None,
        }
    }

    /// The record after a status update at time `now`: the status is
    /// replaced; a given error summary replaces the stored one; entering
    /// `Running` stamps the start, and entering a final status stamps the
    /// finish; other stamps are kept.
    pub fn with_status(self, status: JobStatus, error_summary: Option<String>, now: String) -> (r:
        JobRecord)
        ensures
            r.id == self.id,
            r.kind == self.kind,
            r.status == status,
            r.summary == self.summary,
            r.error_summary == match error_summary {
                Some(e) => Some(e),
                None => self.error_summary,
            },
            r.created_at == self.created_at,
            r.started_at == if status == JobStatus::Running {
                Some(now)
            } else {
                self.started_at
            },
            r.finished_at == if is_terminal_status(status) {
                Some(now)
            } else {
                self.finished_at
            },
    {
        let started_at = if status == JobStatus::Running {
            Some(now.clone())
        } else {
            self.started_at
        };
        let terminal = status == JobStatus::Completed || status == JobStatus::Failed || status
            == JobStatus::Cancelled;
        let finished_at = if terminal {
            Some(now)
        } else {
            self.finished_at
        };
        let error_summary = match error_summary {
            Some(e) => Some(e),
            None => self.error_summary,
        };
        JobRecord {
            id: self.id,
            kind: self.kind,
            status,
            summary: self.summary,
            error_summary,
            created_at: self.created_at,
            started_at,
            finished_at,
        }
    }

    /// The row that stores this record.
    pub fn to_row(&self) -> (r: JobRow)
        ensures
            is_job_row_of(r, *self),
    {
        JobRow {
            id: self.id,
            kind: job_kind_to_str(self.kind).to_owned(),
            status: job_status_to_str(self.status).to_owned(),
            summary: self.summary.clone(),
            error_summary: copy_opt_string(&self.error_summary),
            created_at: self.created_at.clone(),
            started_at: copy_opt_string(&self.started_at),
            finished_at: copy_opt_string(&self.finished_at),
        }
    }
}

/// Decodes a stored `jobs` row. The kind is decoded first, then the
/// status, then the timestamps; the first failure is reported.
pub fn job_record_from_row(row: JobRow) -> (r: Result<JobRecord, String>)
    ensures
        r is Ok <==> job_row_decodes(row),
        r matches Ok(job) ==> job == (JobRecord {
            id: row.id,
            kind: parse_job_kind_spec(row.kind@)->Ok_0,
            status: parse_job_status_spec(row.status@)->Ok_0,
            summary: row.summary,
            error_summary: row.error_summary,
            created_at: row.created_at,
            started_at: row.started_at,
            finished_at: row.finished_at,
        }),
        r matches Err(m) ==> (parse_job_kind_spec(row.kind@) is Err ==> parse_job_kind_spec(row.kind@)
            == Err::<JobKind, Seq<char>>(m@)),
        r matches Err(m) ==> (parse_job_kind_spec(row.kind@) is Ok && parse_job_status_spec(row.status@) is Err
            ==> parse_job_status_spec(row.status@) == Err::<JobStatus, Seq<char>>(m@)),
{
    let kind = parse_job_kind(row.kind.as_str())?;
    let status = parse_job_status(row.status.as_str())?;
    parse_timestamp(row.created_at.as_str())?;
    check_optional_stamp(&row.started_at)?;
    check_optional_stamp(&row.finished_at)?;
    Ok(
        JobRecord {
            id: row.id,
            kind,
            status,
            summary: row.summary,
            error_summary: row.error_summary,
            created_at: row.created_at,
            started_at: row.started_at,
            finished_at: row.finished_at,
        },
    )
}

/// A source kind's stored text decodes to it.
pub proof fn lemma_source_kind_round_trip(kind: SourceKind)
    ensures
        parse_source_kind_spec(source_kind_text(kind)) == Ok::<SourceKind, Seq<char>>(kind),
{
    reveal_strlit("civitai");
    assert("civitai"@.len() == 7);
    reveal_strlit("local");
    assert("local"@.len() == 5);
    match kind {
        SourceKind::Civitai => assert(parse_source_kind_spec("civitai"@) == Ok::<SourceKind, Seq<char>>(SourceKind::Civitai)),
        SourceKind::Local => assert(parse_source_kind_spec("local"@) == Ok::<SourceKind, Seq<char>>(SourceKind::Local)),
    }
}

/// A job kind's stored text decodes to it.
pub proof fn lemma_job_kind_round_trip(kind: JobKind)
    ensures
        parse_job_kind_spec(job_kind_text(kind)) == Ok::<JobKind, Seq<char>>(kind),
{
    reveal_strlit("download");
    assert("download"@.len() == 8);
    reveal_strlit("sync");
    assert("sync"@.len() == 4);
    reveal_strlit("rescan");
    assert("rescan"@.len() == 6);
    reveal_strlit("import");
    assert("import"@.len() == 6);
    reveal_strlit("preview_sync");
    assert("preview_sync"@.len() == 12);
    match kind {
        JobKind::Download => assert(parse_job_kind_spec("download"@) == Ok::<JobKind, Seq<char>>(JobKind::Download)),
        JobKind::Sync => assert(parse_job_kind_spec("sync"@) == Ok::<JobKind, Seq<char>>(JobKind::Sync)),
        JobKind::Rescan => assert(parse_job_kind_spec("rescan"@) == Ok::<JobKind, Seq<char>>(JobKind::Rescan)),
        JobKind::Import => assert("import"@[0] != "rescan"@[0] && parse_job_kind_spec("import"@) == Ok::<JobKind, Seq<char>>(JobKind::Import)),
        JobKind::PreviewSync => assert(parse_job_kind_spec("preview_sync"@) == Ok::<JobKind, Seq<char>>(JobKind::PreviewSync)),
    }
}

/// A job status's stored text decodes to it.
pub proof fn lemma_job_status_round_trip(status: JobStatus)
    ensures
        parse_job_status_spec(job_status_text(status)) == Ok::<JobStatus, Seq<char>>(status),
{
    reveal_strlit("queued");
    assert("queued"@.len() == 6);
    reveal_strlit("running");
    assert("running"@.len() == 7);
    reveal_strlit("completed");
    assert("completed"@.len() == 9);
    reveal_strlit("failed");
    assert("failed"@.len() == 6);
    reveal_strlit("cancelled");
    assert("cancelled"@.len() == 9);
    assert("completed"@[1] != "cancelled"@[1]);
    match status {
        JobStatus::Queued => assert(parse_job_status_spec("queued"@) == Ok::<JobStatus, Seq<char>>(JobStatus::Queued)),
        JobStatus::Running => assert(parse_job_status_spec("running"@) == Ok::<JobStatus, Seq<char>>(JobStatus::Running)),
        JobStatus::Completed => assert(parse_job_status_spec("completed"@) == Ok::<JobStatus, Seq<char>>(JobStatus::Completed)),
        JobStatus::Failed => assert("failed"@[0] != "queued"@[0] && parse_job_status_spec("failed"@) == Ok::<JobStatus, Seq<char>>(JobStatus::Failed)),
        JobStatus::Cancelled => assert(parse_job_status_spec("cancelled"@) == Ok::<JobStatus, Seq<char>>(JobStatus::Cancelled)),
    }
}

/// Reading back what an insert stored gives the inserted item, with the id
/// and creation time the store assigned, provided its timestamps are RFC
/// 3339 text.
pub proof fn lemma_library_row_round_trip(
    row: LibraryItemRow,
    item: LibraryItemInsert,
    id: i64,
    created_at: String,
)
    requires
        is_row_of(row, item, id, created_at),
        rfc3339_accepts(created_at@),
        match item.last_verified_at {
            Some(t) => rfc3339_accepts(t@),
            None => true,
        },
    ensures
        row_decodes(row),
        decoded_item(row) == (LibraryItem {
            id,
            display_name: item.display_name,
            primary_model_kind: item.primary_model_kind,
            source: item.source,
            installed_version: item.installed_version,
            storage_path: item.storage_path,
            favorite: item.favorite,
            pinned: item.pinned,
            notes: item.notes,
            last_verified_at: item.last_verified_at,
            created_at,
        }),
{
    crate::domain::lemma_kind_key_round_trip(item.primary_model_kind);
    match item.source {
        Some(src) => {
            lemma_source_kind_round_trip(src.source_kind);
        },
        None => {},
    }
}

/// Reading back a stored job record gives the record, provided its
/// timestamps are RFC 3339 text.
pub proof fn lemma_job_row_round_trip(row: JobRow, job: JobRecord)
    requires
        is_job_row_of(row, job),
        rfc3339_accepts(job.created_at@),
        optional_stamp_decodes(job.started_at),
        optional_stamp_decodes(job.finished_at),
    ensures
        job_row_decodes(row),
        (JobRecord {
            id: row.id,
            kind: parse_job_kind_spec(row.kind@)->Ok_0,
            status: parse_job_status_spec(row.status@)->Ok_0,
            summary: row.summary,
            error_summary: row.error_summary,
            created_at: row.created_at,
            started_at: row.started_at,
            finished_at: row.finished_at,
        }) == job,
{
    lemma_job_kind_round_trip(job.kind);
    lemma_job_status_round_trip(job.status);
}

} // verus!
