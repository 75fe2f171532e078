//! Cross-cutting helpers: the error type, clock access, path-component
//! sanitizing and the set of file extensions that look like model files.

use vstd::prelude::*;
use vstd::utf8::encode_utf8;
use crate::paths::{path_extension, path_extension_spec};
use crate::text::{concat2, lower_spec, str_eq, to_ascii_lowercase, trim_dots, trim_dots_spec};

verus! {

/// Errors of the catalog and its service.
#[derive(Debug, Clone, PartialEq, Eq)]
pub enum DaedalusError {
    Io(String),
    Config(String),
    Database(String),
    Http(String),
    NotFound(String),
    Validation(String),
    Other(String),
}

/// The text an error displays as.
pub open spec fn error_message_spec(e: DaedalusError) -> Seq<char> {
    match e {
        DaedalusError::Io(m) => "io error: "@ + m@,
        DaedalusError::Config(m) => "config error: "@ + m@,
        DaedalusError::Database(m) => "database error: "@ + m@,
        DaedalusError::Http(m) => "http error: "@ + m@,
        DaedalusError::NotFound(m) => "not found: "@ + m@,
        DaedalusError::Validation(m) => "validation error: "@ + m@,
        DaedalusError::Other(m) => m@,
    }
}

impl DaedalusError {
    /// The text the error displays as: a prefix naming its kind, then its detail.
    pub fn message(&self) -> (r: String)
        ensures
            r@ == error_message_spec(*self),
    {
        match self {
            DaedalusError::Io(m) => concat2("io error: ", m.as_str()),
            DaedalusError::Config(m) => concat2("config error: ", m.as_str()),
            DaedalusError::Database(m) => concat2("database error: ", m.as_str()),
            DaedalusError::Http(m) => concat2("http error: ", m.as_str()),
            DaedalusError::NotFound(m) => concat2("not found: ", m.as_str()),
            DaedalusError::Validation(m) => concat2("validation error: ", m.as_str()),
            DaedalusError::Other(m) => m.clone(),
        }
    }
}

/// A page window.
#[derive(Debug, Clone, PartialEq, Eq)]
pub struct Pagination {
    pub limit: usize,
    pub offset: usize,
}

/// Whether RFC 3339 parsing (`chrono::DateTime::parse_from_rfc3339`) accepts a text.
pub uninterp spec fn rfc3339_accepts(text: Seq<char>) -> bool;

/// The current UTC time as RFC 3339 text.
///
/// Trusted: calls `chrono::Utc::now` and renders the result with
/// `to_rfc3339`. The contract claims only that the text is accepted by
/// `parse_from_rfc3339`, which reads what `to_rfc3339` writes; the instant
/// itself depends on the clock and is left unsaid.
#[verifier::external_body]
pub fn now_utc() -> (r: String)
    ensures
        rfc3339_accepts(r@),
{
    chrono::Utc::now().to_rfc3339()
}

/// Checks a text with `chrono::DateTime::parse_from_rfc3339`.
///
/// Trusted: the contract claims only that success is what the name
/// `rfc3339_accepts` stands for, and that a failure carries a message.
#[verifier::external_body]
pub(crate) fn check_rfc3339(text: &str) -> (r: Result<(), String>)
    ensures
        r is Ok <==> rfc3339_accepts(text@),
{
    match chrono::DateTime::parse_from_rfc3339(text) {
        Ok(_) => Ok(()),
        Err(err) => Err(err.to_string()),
    }
}

/// Characters that `sanitize_filename` removes on non-Windows targets:
/// the illegal set and the control ranges.
pub open spec fn sanitize_drops(c: char) -> bool {
    ||| c == '/' || c == '?' || c == '<' || c == '>' || c == '\\' || c == ':' || c == '*'
        || c == '|' || c == '"'
    ||| ('\u{0}' <= c && c <= '\u{1f}')
    ||| ('\u{80}' <= c && c <= '\u{9f}')
}

/// A name with the dropped characters removed, and emptied when only dots remain.
pub open spec fn sanitize_untruncated(name: Seq<char>) -> Seq<char> {
    let kept = name.filter(|c: char| !sanitize_drops(c));
    if kept.len() > 0 && (forall|i: int| 0 <= i < kept.len() ==> kept[i] == '.') {
        Seq::empty()
    } else {
        kept
    }
}

/// The longest prefix of `s` whose UTF-8 encoding fits in `limit` bytes.
pub open spec fn truncate_utf8(s: Seq<char>, limit: nat) -> Seq<char>
    decreases s.len(),
{
    if s.len() == 0 || encode_utf8(s).len() <= limit {
        s
    } else {
        truncate_utf8(s.drop_last(), limit)
    }
}

/// What `sanitize_filename::sanitize` returns on targets other than Windows.
pub open spec fn sanitize_spec(name: Seq<char>) -> Seq<char> {
    truncate_utf8(sanitize_untruncated(name), 255)
}

/// Calls `sanitize_filename::sanitize`.
///
/// Trusted. From the crate's source, on targets other than Windows: illegal
/// characters (`/ ? < > \ : * | "`) and control characters
/// (U+0000..U+001F, U+0080..U+009F) are removed, a name made only of dots
/// becomes empty, and the result is cut to the longest prefix whose UTF-8
/// encoding fits in 255 bytes.
#[verifier::external_body]
fn sanitize_filename_call(name: &str) -> (r: String)
    ensures
        r@ == sanitize_spec(name@),
{
    sanitize_filename::sanitize(name)
}

/// The path component `sanitize_path_component` makes of a name.
pub open spec fn path_component_spec(value: Seq<char>) -> Seq<char> {
    let trimmed = trim_dots_spec(sanitize_spec(value));
    if trimmed.len() == 0 {
        "unnamed"@
    } else {
        trimmed
    }
}

/// Makes a name safe to use as one path component: sanitized, stripped of
/// leading and trailing dots, and `unnamed` when nothing is left.
pub fn sanitize_path_component(value: &str) -> (r: String)
    ensures
        r@ == path_component_spec(value@),
{
    let sanitized = sanitize_filename_call(value);
    let trimmed = trim_dots(sanitized.as_str());
    if trimmed.unicode_len() == 0 {
        "unnamed".to_owned()
    } else {
        trimmed
    }
}

/// A path component is never empty, never starts with a dot, and holds no
/// character that sanitizing removes, `/` among them.
pub proof fn lemma_path_component_safe(value: Seq<char>)
    ensures
        path_component_spec(value).len() > 0,
        path_component_spec(value)[0] != '.',
        forall|i: int|
            0 <= i < path_component_spec(value).len() ==> !sanitize_drops(
                #[trigger] path_component_spec(value)[i],
            ),
{
    let full = sanitize_untruncated(value);
    let sanitized = sanitize_spec(value);
    lemma_untruncated_keeps(value);
    lemma_truncate_prefix(full, 255);
    assert forall|i: int| 0 <= i < sanitized.len() implies !sanitize_drops(#[trigger] sanitized[i]) by {
        assert(sanitized[i] == full[i]);
    }
    lemma_trim_dots_sub(sanitized);
    lemma_trim_dots_ends(sanitized);
    reveal_strlit("unnamed");
    let t = trim_dots_spec(sanitized);
    if t.len() > 0 {
        assert forall|i: int| 0 <= i < t.len() implies !sanitize_drops(#[trigger] t[i]) by {
            assert(sanitized.contains(t[i]));
        }
    }
}

/// Truncation keeps a prefix.
proof fn lemma_truncate_prefix(s: Seq<char>, limit: nat)
    ensures
        truncate_utf8(s, limit).len() <= s.len(),
        truncate_utf8(s, limit) == s.take(truncate_utf8(s, limit).len() as int),
    decreases s.len(),
{
    if !(s.len() == 0 || encode_utf8(s).len() <= limit) {
        lemma_truncate_prefix(s.drop_last(), limit);
        let t = truncate_utf8(s.drop_last(), limit);
        assert(s.drop_last().take(t.len() as int) =~= s.take(t.len() as int));
    } else {
        assert(s.take(s.len() as int) =~= s);
    }
}

/// After trimming dots, the text neither starts nor ends with a dot.
proof fn lemma_trim_dots_ends(s: Seq<char>)
    ensures
        trim_dots_spec(s).len() > 0 ==> trim_dots_spec(s)[0] != '.',
{
    lemma_dots_start_clean(s);
    lemma_dots_end_keeps_first(crate::text::trim_dots_start(s));
}

proof fn lemma_dots_start_clean(s: Seq<char>)
    ensures
        crate::text::trim_dots_start(s).len() > 0 ==> crate::text::trim_dots_start(s)[0] != '.',
    decreases s.len(),
{
    if s.len() > 0 && s[0] == '.' {
        lemma_dots_start_clean(s.drop_first());
    }
}

proof fn lemma_dots_end_keeps_first(s: Seq<char>)
    requires
        s.len() > 0 ==> s[0] != '.',
    ensures
        crate::text::trim_dots_end(s).len() > 0 ==> crate::text::trim_dots_end(s)[0] == s[0],
    decreases s.len(),
{
    if s.len() > 0 && s.last() == '.' {
        if s.len() > 1 {
            lemma_dots_end_keeps_first(s.drop_last());
        }
    }
}

/// Every character the sanitized form keeps is one that is not dropped.
proof fn lemma_untruncated_keeps(name: Seq<char>)
    ensures
        forall|i: int|
            0 <= i < sanitize_untruncated(name).len() ==> !sanitize_drops(
                #[trigger] sanitize_untruncated(name)[i],
            ),
{
    broadcast use vstd::seq_lib::group_filter_ensures;

    let pred = |c: char| !sanitize_drops(c);
    let kept = name.filter(pred);
    assert forall|i: int| 0 <= i < kept.len() implies !sanitize_drops(#[trigger] kept[i]) by {
        assert(pred(kept[i]));
    }
}

/// The file extensions that mark a file as a model artifact.
pub open spec fn model_extensions() -> Seq<Seq<char>> {
    seq![
        "bin"@, "ckpt"@, "gguf"@, "json"@, "onnx"@, "pt"@, "pth"@, "safetensors"@, "txt"@,
        "vae"@, "yaml"@, "yml"@,
    ]
}

/// Whether a lower-cased extension is one of bin, ckpt, gguf, json, onnx,
/// pt, pth, safetensors, txt, vae, yaml, yml.
pub open spec fn is_listed_model_extension(e: Seq<char>) -> bool {
    ||| e == "bin"@
    ||| e == "ckpt"@
    ||| e == "gguf"@
    ||| e == "json"@
    ||| e == "onnx"@
    ||| e == "pt"@
    ||| e == "pth"@
    ||| e == "safetensors"@
    ||| e == "txt"@
    ||| e == "vae"@
    ||| e == "yaml"@
    ||| e == "yml"@
}

/// The supported model extensions are exactly bin, ckpt, gguf, json, onnx,
/// pt, pth, safetensors, txt, vae, yaml and yml.
pub proof fn lemma_model_extensions_exact(e: Seq<char>)
    ensures
        model_extensions().contains(e) <==> is_listed_model_extension(e),
{
    let m = model_extensions();
    if is_listed_model_extension(e) {
        if e == "bin"@ { assert(m[0] == e); }
        else if e == "ckpt"@ { assert(m[1] == e); }
        else if e == "gguf"@ { assert(m[2] == e); }
        else if e == "json"@ { assert(m[3] == e); }
        else if e == "onnx"@ { assert(m[4] == e); }
        else if e == "pt"@ { assert(m[5] == e); }
        else if e == "pth"@ { assert(m[6] == e); }
        else if e == "safetensors"@ { assert(m[7] == e); }
        else if e == "txt"@ { assert(m[8] == e); }
        else if e == "vae"@ { assert(m[9] == e); }
        else if e == "yaml"@ { assert(m[10] == e); }
        else { assert(m[11] == e); }
    }
    if m.contains(e) {
        let k = choose|k: int| 0 <= k < m.len() && m[k] == e;
        assert(0 <= k < 12);
    }
}

/// A path whose extension, ASCII case ignored, is a supported one looks
/// like a model file; a path without an extension does not.
pub proof fn lemma_model_file_by_extension(path: Seq<char>)
    ensures
        path_extension_spec(path) matches Some(ext) ==> (looks_like_model_file_spec(path)
            <==> is_listed_model_extension(lower_spec(ext))),
        path_extension_spec(path) is None ==> !looks_like_model_file_spec(path),
{
    if let Some(ext) = path_extension_spec(path) {
        lemma_model_extensions_exact(lower_spec(ext));
    }
}

/// Trimming dots keeps characters of the text only.
proof fn lemma_trim_dots_sub(s: Seq<char>)
    ensures
        forall|i: int| 0 <= i < trim_dots_spec(s).len() ==> s.contains(#[trigger] trim_dots_spec(s)[i]),
{
    lemma_trim_dots_start_sub(s);
    lemma_trim_dots_end_sub(crate::text::trim_dots_start(s));
    assert forall|i: int| 0 <= i < trim_dots_spec(s).len() implies s.contains(#[trigger] trim_dots_spec(s)[i]) by {
        let c = trim_dots_spec(s)[i];
        assert(crate::text::trim_dots_start(s).contains(c));
        let k = choose|k: int| 0 <= k < crate::text::trim_dots_start(s).len() && crate::text::trim_dots_start(s)[k] == c;
        assert(s.contains(crate::text::trim_dots_start(s)[k]));
    }
}

proof fn lemma_trim_dots_start_sub(s: Seq<char>)
    ensures
        forall|i: int|
            0 <= i < crate::text::trim_dots_start(s).len() ==> s.contains(
                #[trigger] crate::text::trim_dots_start(s)[i],
            ),
    decreases s.len(),
{
    if s.len() > 0 && s[0] == '.' {
        lemma_trim_dots_start_sub(s.drop_first());
        assert forall|i: int|
            0 <= i < crate::text::trim_dots_start(s).len() implies s.contains(
            #[trigger] crate::text::trim_dots_start(s)[i],
        ) by {
            let c = crate::text::trim_dots_start(s)[i];
            assert(crate::text::trim_dots_start(s) == crate::text::trim_dots_start(s.drop_first()));
            assert(s.drop_first().contains(crate::text::trim_dots_start(s.drop_first())[i]));
            let k = choose|k: int| 0 <= k < s.drop_first().len() && s.drop_first()[k] == c;
            assert(s[k + 1] == c);
        }
    } else {
        assert forall|i: int|
            0 <= i < crate::text::trim_dots_start(s).len() implies s.contains(
            #[trigger] crate::text::trim_dots_start(s)[i],
        ) by {
            assert(s[i] == crate::text::trim_dots_start(s)[i]);
        }
    }
}

proof fn lemma_trim_dots_end_sub(s: Seq<char>)
    ensures
        forall|i: int|
            0 <= i < crate::text::trim_dots_end(s).len() ==> s.contains(
                #[trigger] crate::text::trim_dots_end(s)[i],
            ),
    decreases s.len(),
{
    if s.len() > 0 && s.last() == '.' {
        lemma_trim_dots_end_sub(s.drop_last());
        assert forall|i: int|
            0 <= i < crate::text::trim_dots_end(s).len() implies s.contains(
            #[trigger] crate::text::trim_dots_end(s)[i],
        ) by {
            let c = crate::text::trim_dots_end(s)[i];
            assert(crate::text::trim_dots_end(s) == crate::text::trim_dots_end(s.drop_last()));
            assert(s.drop_last().contains(crate::text::trim_dots_end(s.drop_last())[i]));
            let k = choose|k: int| 0 <= k < s.drop_last().len() && s.drop_last()[k] == c;
            assert(s[k] == c);
        }
    } else {
        assert forall|i: int|
            0 <= i < crate::text::trim_dots_end(s).len() implies s.contains(
            #[trigger] crate::text::trim_dots_end(s)[i],
        ) by {
            assert(s[i] == crate::text::trim_dots_end(s)[i]);
        }
    }
}

/// The texts of a sequence of string slices.
pub open spec fn str_views(v: Seq<&str>) -> Seq<Seq<char>> {
    Seq::new(v.len(), |i: int| v[i]@)
}

/// The file extensions that mark a file as a model artifact.
pub fn supported_model_extensions() -> (r: Vec<&'static str>)
    ensures
        str_views(r@) == model_extensions(),
{
    let v: Vec<&'static str> = vec![
        "bin", "ckpt", "gguf", "json", "onnx", "pt", "pth", "safetensors", "txt", "vae", "yaml",
        "yml",
    ];
    assert(str_views(v@) =~= model_extensions());
    v
}

/// Whether a path names a model file: its extension, lower-cased, is one of
/// the supported extensions.
pub open spec fn looks_like_model_file_spec(path: Seq<char>) -> bool {
    match path_extension_spec(path) {
        Some(ext) => model_extensions().contains(lower_spec(ext)),
        None => false,
    }
}

/// Whether an extension, lower-cased, is one of the supported extensions.
pub fn is_model_extension(ext: &str) -> (r: bool)
    ensures
        r == model_extensions().contains(lower_spec(ext@)),
{
    let lower = to_ascii_lowercase(ext);
    let exts = supported_model_extensions();
    let mut i: usize = 0;
    while i < exts.len()
        invariant
            str_views(exts@) == model_extensions(),
            lower@ == lower_spec(ext@),
            i <= exts.len(),
            forall|k: int| 0 <= k < i ==> model_extensions()[k] != lower@,
        decreases exts.len() - i,
    {
        assert(str_views(exts@)[i as int] == exts@[i as int]@);
        let candidate: &str = exts[i];
        if str_eq(candidate, lower.as_str()) {
            assert(model_extensions()[i as int] == lower@);
            assert(model_extensions().contains(lower@));
            return true;
        }
        i = i + 1;
    }
    false
}

/// Whether a path names a model file by its extension.
pub fn looks_like_model_file(path: &str) -> (r: bool)
    ensures
        r == looks_like_model_file_spec(path@),
{
    match path_extension(path) {
        Some(ext) => is_model_extension(ext.as_str()),
        None => false,
    }
}

} // verus!
