//! Classification of the origin that the metadata declares for a package.
//!
//! The metadata writes an origin as a scheme, a plus sign and a location:
//! `registry+https://...` for a registry index, `git+https://...` for a
//! repository, `path+file:///...` for a directory. A package of the workspace
//! itself, or one that is taken from a directory, may carry no origin at all.

use crate::identity::SourceKind;
use vstd::prelude::*;

verus! {

/// The kind of source that an origin text stands for: decided by the scheme
/// it starts with. A text with none of the three schemes is of unknown kind.
pub open spec fn origin_kind(origin: Seq<char>) -> SourceKind {
    if "registry+"@.is_prefix_of(origin) {
        SourceKind::Registry
    } else if "git+"@.is_prefix_of(origin) {
        SourceKind::Git
    } else if "path+"@.is_prefix_of(origin) {
        SourceKind::Path
    } else {
        SourceKind::Unknown
    }
}

/// The kind of source of a package with the given declared origin. A package
/// without one is a local project, found by its path.
pub open spec fn source_kind(origin: Option<Seq<char>>) -> SourceKind {
    match origin {
        Some(text) => origin_kind(text),
        None => SourceKind::Path,
    }
}

/// Whether `text` begins with `prefix`.
pub fn starts_with(text: &str, prefix: &str) -> (hit: bool)
    ensures
        hit == prefix@.is_prefix_of(text@),
{
    let wanted: usize = prefix.unicode_len();
    let given: usize = text.unicode_len();
    if given < wanted {
        return false;
    }
    let mut at: usize = 0;
    while at < wanted
        invariant
            at <= wanted,
            wanted == prefix@.len(),
            given == text@.len(),
            wanted <= given,
            forall|j: int| 0 <= j < at ==> prefix@[j] == text@[j],
        decreases wanted - at,
    {
        if prefix.get_char(at) != text.get_char(at) {
            assert(text@.subrange(0, prefix@.len() as int)[at as int] != prefix@[at as int]);
            return false;
        }
        at += 1;
    }
    assert(prefix@ =~= text@.subrange(0, prefix@.len() as int));
    true
}

/// Classifies an origin text. This never fails: a text that is malformed or
/// not known is of kind `Unknown`.
pub fn classify_origin(origin: &str) -> (kind: SourceKind)
    ensures
        kind == origin_kind(origin@),
{
    if starts_with(origin, "registry+") {
        SourceKind::Registry
    } else if starts_with(origin, "git+") {
        SourceKind::Git
    } else if starts_with(origin, "path+") {
        SourceKind::Path
    } else {
        SourceKind::Unknown
    }
}

/// No origin text is of two kinds: the three schemes exclude one another.
pub proof fn lemma_schemes_exclude_one_another(origin: Seq<char>)
    ensures
        !("registry+"@.is_prefix_of(origin) && "git+"@.is_prefix_of(origin)),
        !("registry+"@.is_prefix_of(origin) && "path+"@.is_prefix_of(origin)),
        !("git+"@.is_prefix_of(origin) && "path+"@.is_prefix_of(origin)),
{
    reveal_strlit("registry+");
    reveal_strlit("git+");
    reveal_strlit("path+");
    if "registry+"@.is_prefix_of(origin) {
        assert(origin.subrange(0, 9)[0] == 'r');
    }
    if "git+"@.is_prefix_of(origin) {
        assert(origin.subrange(0, 4)[0] == 'g');
    }
    if "path+"@.is_prefix_of(origin) {
        assert(origin.subrange(0, 5)[0] == 'p');
    }
}

} // verus!
