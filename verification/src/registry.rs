//! Where the vendored model specs of a family live.

use vstd::prelude::*;

use crate::text::concat;

verus! {

/// Whether `text` contains `c`.
pub open spec fn has_char(text: Seq<char>, c: char) -> bool {
    exists|i: int| 0 <= i < text.len() && text[i] == c
}

/// Whether `text` contains `..`.
pub open spec fn has_dot_dot(text: Seq<char>) -> bool {
    exists|i: int| 0 <= i < text.len() - 1 && #[trigger] text[i] == '.' && text[i + 1] == '.'
}

/// A family name that may stand as one path segment: not empty, without a
/// slash or backslash, and without `..`.
pub open spec fn is_single_segment(family: Seq<char>) -> bool {
    &&& family.len() > 0
    &&& !has_char(family, '/')
    &&& !has_char(family, '\\')
    &&& !has_dot_dot(family)
}

/// `base` joined with the relative path `rel`, as `Path::join` does.
pub open spec fn join_path(base: Seq<char>, rel: Seq<char>) -> Seq<char> {
    if base.len() == 0 || base.last() == '/' {
        base + rel
    } else {
        base + "/"@ + rel
    }
}

/// Path of the vendored `model_specs/{family}.json` below the crate directory `root`.
pub open spec fn model_spec_path_of(root: Seq<char>, family: Seq<char>) -> Seq<char> {
    join_path(join_path(root, "../audio-cpp-sys/audio.cpp/model_specs"@), family + ".json"@)
}

/// The characters of a text.
fn chars_of(s: &str) -> (v: Vec<char>)
    ensures
        v@ == s@,
{
    broadcast use vstd::string::group_string_axioms;

    let mut v: Vec<char> = Vec::new();
    for c in it: s.chars()
        invariant
            it.seq() == s@,
            v@ == it.seq().take(it.index() as int),
    {
        assert(it.seq().take(it.index() + 1) =~= v@.push(c));
        v.push(c);
    }
    assert(v@ =~= s@);
    v
}

/// `Path::join`.
fn join(base: &str, rel: &str) -> (p: String)
    ensures
        p@ == join_path(base@, rel@),
{
    let chars = chars_of(base);
    if chars.len() == 0 || chars[chars.len() - 1] == '/' {
        concat(base, rel)
    } else {
        let with_sep = concat(base, "/");
        concat(with_sep.as_str(), rel)
    }
}

/// Whether a family name may stand as one path segment.
pub fn single_segment(family: &str) -> (b: bool)
    ensures
        b == is_single_segment(family@),
{
    let chars = chars_of(family);
    if chars.len() == 0 {
        return false;
    }
    let mut i: usize = 0;
    while i < chars.len()
        invariant
            0 <= i <= chars@.len(),
            chars@ == family@,
            forall|j: int| 0 <= j < i ==> chars@[j] != '/' && chars@[j] != '\\',
            forall|j: int| 0 <= j < i && j + 1 < chars@.len() ==> !(#[trigger] chars@[j] == '.' && chars@[j + 1] == '.'),
        decreases chars@.len() - i,
    {
        if chars[i] == '/' || chars[i] == '\\' {
            return false;
        }
        if i + 1 < chars.len() && chars[i] == '.' && chars[i + 1] == '.' {
            return false;
        }
        i = i + 1;
    }
    true
}

/// Path of the vendored model spec of `family` below the crate directory
/// `root`, or `None` when `family` is not a single path segment.
pub fn model_spec_path(root: &str, family: &str) -> (p: Option<String>)
    ensures
        p is Some <==> is_single_segment(family@),
        p matches Some(path) ==> path@ == model_spec_path_of(root@, family@),
{
    if !single_segment(family) {
        return None;
    }
    let dir = join(root, "../audio-cpp-sys/audio.cpp/model_specs");
    let file = concat(family, ".json");
    let path = join(dir.as_str(), file.as_str());
    Some(path)
}



/// A family name is refused as a path segment exactly when it is empty, or
/// holds a slash, a backslash or two dots in a row; otherwise the spec file
/// is `{family}.json` in the vendored `model_specs` directory below the
/// crate directory.
pub proof fn law_model_spec_location(root: Seq<char>, family: Seq<char>)
    ensures
        is_single_segment(family) <==> (family.len() > 0
            && (forall|i: int| 0 <= i < family.len() ==> #[trigger] family[i] != '/' && family[i] != '\\')
            && (forall|i: int| 0 <= i < family.len() - 1 ==> !(#[trigger] family[i] == '.' && family[i + 1] == '.'))),
        model_spec_path_of(root, family) == join_path(root, "../audio-cpp-sys/audio.cpp/model_specs"@) + "/"@
            + family + ".json"@,
        root.len() == 0 || root.last() == '/' ==> join_path(root, "../audio-cpp-sys/audio.cpp/model_specs"@)
            == root + "../audio-cpp-sys/audio.cpp/model_specs"@,
        root.len() > 0 && root.last() != '/' ==> join_path(root, "../audio-cpp-sys/audio.cpp/model_specs"@)
            == root + "/"@ + "../audio-cpp-sys/audio.cpp/model_specs"@,
{
    reveal_strlit("../audio-cpp-sys/audio.cpp/model_specs");
    let dir = join_path(root, "../audio-cpp-sys/audio.cpp/model_specs"@);
    let d = "../audio-cpp-sys/audio.cpp/model_specs"@;
    assert(d.len() == 38);
    assert(d[37] == 's');
    if root.len() == 0 || root.last() == '/' {
        assert(dir == root + d);
    } else {
        assert(dir == root + "/"@ + d);
        reveal_strlit("/");
        assert(("/"@ + d).last() == d.last());
    }
    assert(dir.len() > 0);
    assert(dir.last() == d.last());
}

} // verus!
