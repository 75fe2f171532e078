//! Deterministic placement of downloaded and imported files under managed
//! storage, and collision-free destination names.

use vstd::prelude::*;
use vstd::set_lib::*;
use crate::common::{
    lemma_path_component_safe, path_component_spec, sanitize_drops, sanitize_path_component,
};
use crate::domain::{kind_key, ModelKind};
use crate::paths::{
    is_absolute_spec, join_path, join_spec, path_extension, path_extension_spec, path_file_stem,
    path_file_stem_spec, path_parent, path_parent_spec,
};
use crate::text::{concat2, contains_text, decimal, decimal_spec, digit_char, push_str, string_views};

verus! {

/// What a managed path is computed from.
#[derive(Debug, Clone, PartialEq, Eq)]
pub struct PlacementInput<'a> {
    pub root: &'a str,
    pub kind: ModelKind,
    pub model_name: &'a str,
    pub version_name: &'a str,
    pub filename: &'a str,
}

/// `{root}/{kind key}/{model}/{version}/{filename}`, each of the last three
/// made a safe path component.
pub open spec fn managed_path_spec(
    root: Seq<char>,
    kind: ModelKind,
    model_name: Seq<char>,
    version_name: Seq<char>,
    filename: Seq<char>,
) -> Seq<char> {
    join_spec(
        join_spec(
            join_spec(join_spec(root, kind_key(kind)), path_component_spec(model_name)),
            path_component_spec(version_name),
        ),
        path_component_spec(filename),
    )
}

/// The managed path of a file.
pub fn compute_managed_path(input: PlacementInput<'_>) -> (r: String)
    ensures
        r@ == managed_path_spec(
            input.root@,
            input.kind,
            input.model_name@,
            input.version_name@,
            input.filename@,
        ),
{
    let kind_dir = join_path(input.root, input.kind.config_key());
    let model_dir = join_path(kind_dir.as_str(), sanitize_path_component(input.model_name).as_str());
    let version_dir = join_path(
        model_dir.as_str(),
        sanitize_path_component(input.version_name).as_str(),
    );
    join_path(version_dir.as_str(), sanitize_path_component(input.filename).as_str())
}

/// The stem a collision-free name is built from: the file stem, or `file`.
pub open spec fn stem_or_default(destination: Seq<char>) -> Seq<char> {
    match path_file_stem_spec(destination) {
        Some(stem) => stem,
        None => "file"@,
    }
}

/// The extension suffix a collision-free name keeps: `.` and the extension, or nothing.
pub open spec fn extension_suffix(destination: Seq<char>) -> Seq<char> {
    match path_extension_spec(destination) {
        Some(ext) => "."@ + ext,
        None => Seq::empty(),
    }
}

/// The directory a collision-free name is placed in: the parent, or the empty path.
pub open spec fn parent_or_empty(destination: Seq<char>) -> Seq<char> {
    match path_parent_spec(destination) {
        Some(parent) => parent,
        None => Seq::empty(),
    }
}

/// The `index`-th alternative to a taken destination, beside it.
pub open spec fn candidate_path(destination: Seq<char>, index: nat) -> Seq<char> {
    alternative_path(
        parent_or_empty(destination),
        stem_or_default(destination),
        extension_suffix(destination),
        index,
    )
}

/// Whether `result` is the destination to use for `destination` when the
/// paths in `existing` are taken: the destination itself when free,
/// otherwise the first free alternative.
pub open spec fn is_unique_destination(
    destination: Seq<char>,
    existing: Seq<Seq<char>>,
    result: Seq<char>,
) -> bool {
    if !existing.contains(destination) {
        result == destination
    } else {
        exists|index: nat|
            {
                &&& index >= 1
                &&& result == candidate_path(destination, index)
                &&& !existing.contains(result)
                &&& forall|k: nat|
                    1 <= k < index ==> existing.contains(#[trigger] candidate_path(destination, k))
            }
    }
}

/// A destination that is not taken: `destination` itself when it is free,
/// otherwise `{stem}-{n}{.ext}` beside it for the smallest `n >= 1` that is
/// free. `existing` lists the paths that are taken.
pub fn unique_destination(destination: &str, existing: &Vec<String>) -> (r: String)
    requires
        existing@.len() < u64::MAX,
    ensures
        is_unique_destination(destination@, string_views(existing@), r@),
{
    let ghost ex = string_views(existing@);
    if !contains_text(existing, destination) {
        return destination.to_owned();
    }
    let stem = match path_file_stem(destination) {
        Some(s) => s,
        None => "file".to_owned(),
    };
    let suffix = match path_extension(destination) {
        Some(e) => concat2(".", e.as_str()),
        None => String::new(),
    };
    let parent = match path_parent(destination) {
        Some(p) => p,
        None => String::new(),
    };
    proof {
        reveal_strlit("file");
        assert(stem@ == stem_or_default(destination@));
        assert(suffix@ == extension_suffix(destination@));
        assert(parent@ == parent_or_empty(destination@));
    }
    let r = first_free_alternative(parent.as_str(), stem.as_str(), suffix.as_str(), existing);
    proof {
        let index = choose|index: nat|
            {
                &&& index >= 1
                &&& r@ == alternative_path(parent@, stem@, suffix@, index)
                &&& !ex.contains(r@)
                &&& forall|k: nat|
                    1 <= k < index ==> ex.contains(
                        #[trigger] alternative_path(parent@, stem@, suffix@, k),
                    )
            };
        assert(r@ == candidate_path(destination@, index));
        assert forall|k: nat| 1 <= k < index implies ex.contains(#[trigger] candidate_path(destination@, k)) by {
            assert(candidate_path(destination@, k) == alternative_path(parent@, stem@, suffix@, k));
        }
    }
    r
}

/// The `index`-th alternative built from its parts: `{stem}-{index}{suffix}` in `parent`.
pub open spec fn alternative_path(parent: Seq<char>, stem: Seq<char>, suffix: Seq<char>, index: nat) -> Seq<char> {
    join_spec(parent, stem + "-"@ + decimal_spec(index) + suffix)
}

/// The first alternative `{stem}-{n}{suffix}` in `parent`, counting `n`
/// from 1, that is not among `existing`.
pub fn first_free_alternative(parent: &str, stem: &str, suffix: &str, existing: &Vec<String>) -> (r: String)
    requires
        existing@.len() < u64::MAX,
    ensures
        exists|index: nat|
            {
                &&& index >= 1
                &&& r@ == alternative_path(parent@, stem@, suffix@, index)
                &&& !string_views(existing@).contains(r@)
                &&& forall|k: nat|
                    1 <= k < index ==> string_views(existing@).contains(
                        #[trigger] alternative_path(parent@, stem@, suffix@, k),
                    )
            },
{
    let ghost ex = string_views(existing@);
    let mut index: u64 = 1;
    let ghost mut taken: Set<Seq<char>> = Set::empty();
    loop
        invariant
            ex == string_views(existing@),
            existing@.len() < u64::MAX,
            1 <= index,
            taken.finite(),
            taken.len() == index - 1,
            taken.subset_of(ex.to_set()),
            forall|k: nat| 1 <= k < index ==> ex.contains(#[trigger] alternative_path(parent@, stem@, suffix@, k)),
            forall|p: Seq<char>| #[trigger] taken.contains(p) ==> exists|k: nat| 1 <= k < index && p == alternative_path(parent@, stem@, suffix@, k),
        decreases existing@.len() + 1 - index,
    {
        proof {
            ex.lemma_cardinality_of_set();
            lemma_len_subset(taken, ex.to_set());
            assert(ex.len() == existing@.len());
        }
        let mut name = concat2(stem, "-");
        push_str(&mut name, decimal(index).as_str());
        push_str(&mut name, suffix);
        let candidate = join_path(parent, name.as_str());
        assert(candidate@ == alternative_path(parent@, stem@, suffix@, index as nat));
        if !contains_text(existing, candidate.as_str()) {
            return candidate;
        }
        proof {
            assert(!taken.contains(candidate@)) by {
                if taken.contains(candidate@) {
                    let k = choose|k: nat| 1 <= k < index && candidate@ == alternative_path(parent@, stem@, suffix@, k);
                    lemma_alternatives_distinct(parent@, stem@, suffix@, k, index as nat);
                }
            }
            let old_taken = taken;
            taken = taken.insert(candidate@);
            assert(ex.to_set().contains(candidate@));
            assert forall|p: Seq<char>| #[trigger] taken.contains(p) implies exists|k: nat| 1 <= k < index + 1 && p == alternative_path(parent@, stem@, suffix@, k) by {
                if p != candidate@ {
                    assert(old_taken.contains(p));
                } else {
                    assert(p == alternative_path(parent@, stem@, suffix@, index as nat));
                }
            }
            lemma_len_subset(taken, ex.to_set());
            ex.lemma_cardinality_of_set();
        }
        index = index + 1;
    }
}

/// The length of a decimal rendering is at least one, and at least two from ten on.
proof fn lemma_decimal_len(n: nat)
    ensures
        decimal_spec(n).len() >= 1,
        n >= 10 ==> decimal_spec(n).len() >= 2,
    decreases n,
{
    if n >= 10 {
        lemma_decimal_len(n / 10);
    }
}

/// Distinct numbers have distinct decimal renderings.
pub proof fn lemma_decimal_injective(a: nat, b: nat)
    requires
        decimal_spec(a) == decimal_spec(b),
    ensures
        a == b,
    decreases a,
{
    lemma_decimal_len(a);
    lemma_decimal_len(b);
    if a < 10 && b < 10 {
        assert(decimal_spec(a)[0] == digit_char(a));
        assert(decimal_spec(b)[0] == digit_char(b));
    } else if a >= 10 && b >= 10 {
        let da = decimal_spec(a);
        let db = decimal_spec(b);
        assert(da.last() == digit_char(a % 10));
        assert(db.last() == digit_char(b % 10));
        assert(da.drop_last() == decimal_spec(a / 10));
        assert(db.drop_last() == decimal_spec(b / 10));
        lemma_decimal_injective(a / 10, b / 10);
    } else {
        assert(decimal_spec(a).len() != decimal_spec(b).len());
    }
}

/// Distinct alternatives are distinct paths.
proof fn lemma_alternatives_distinct(parent: Seq<char>, stem: Seq<char>, suffix: Seq<char>, a: nat, b: nat)
    requires
        alternative_path(parent, stem, suffix, a) == alternative_path(parent, stem, suffix, b),
    ensures
        a == b,
{
    let na = stem + "-"@ + decimal_spec(a) + suffix;
    let nb = stem + "-"@ + decimal_spec(b) + suffix;
    lemma_decimal_len(a);
    lemma_decimal_len(b);
    reveal_strlit("-");
    if stem.len() > 0 {
        assert(na[0] == stem[0]);
        assert(nb[0] == stem[0]);
    } else {
        assert(na[0] == '-');
        assert(nb[0] == '-');
    }
    assert(is_absolute_spec(na) == is_absolute_spec(nb));
    if !is_absolute_spec(na) {
        if parent.len() == 0 || parent.last() == '/' {
            assert((parent + na).subrange(parent.len() as int, (parent + na).len() as int) =~= na);
            assert((parent + nb).subrange(parent.len() as int, (parent + nb).len() as int) =~= nb);
        } else {
            let p = parent + "/"@;
            assert((p + na).subrange(p.len() as int, (p + na).len() as int) =~= na);
            assert((p + nb).subrange(p.len() as int, (p + nb).len() as int) =~= nb);
        }
    }
    assert(na == nb);
    let da = decimal_spec(a);
    let db = decimal_spec(b);
    let pre = stem + "-"@;
    assert(na == pre + da + suffix);
    assert(nb == pre + db + suffix);
    assert(da.len() == db.len());
    assert(da =~= na.subrange(pre.len() as int, (pre.len() + da.len()) as int));
    assert(db =~= nb.subrange(pre.len() as int, (pre.len() + db.len()) as int));
    lemma_decimal_injective(a, b);
}

/// A unique destination is never one of the taken paths.
pub proof fn lemma_unique_destination_is_free(
    destination: Seq<char>,
    existing: Seq<Seq<char>>,
    result: Seq<char>,
)
    requires
        is_unique_destination(destination, existing, result),
    ensures
        !existing.contains(result),
{
}

} // verus!
