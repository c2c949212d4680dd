//! Joining and splitting file-system paths held as text.
use vstd::prelude::*;

verus! {

/// A name that is relative on every platform: it holds none of the
/// characters that make a path absolute or carry a drive or network prefix
/// (`/`, `\`, `:`). The empty name, `.` and `..` are relative names.
pub open spec fn is_relative_name(name: Seq<char>) -> bool {
    &&& !name.contains('/')
    &&& !name.contains('\\')
    &&& !name.contains(':')
}

/// A bare file name: a relative name that names a file (not empty, not `.`
/// or `..`).
pub open spec fn is_bare_name(name: Seq<char>) -> bool {
    &&& name.len() > 0
    &&& name != seq!['.']
    &&& name != seq!['.', '.']
    &&& is_relative_name(name)
}

/// `p` starts with a Windows verbatim prefix `\\?\`; `Path::join` normalises
/// such paths instead of appending to them.
pub open spec fn has_verbatim_prefix(p: Seq<char>) -> bool {
    p.len() >= 4 && p.take(4) == seq!['\\', '\\', '?', '\\']
}

/// `p` ends with a character after which `Path::join` may add no separator
/// (`/`, `\` or the `:` of a drive).
pub open spec fn ends_with_separator(p: Seq<char>) -> bool {
    p.len() > 0 && (p.last() == '/' || p.last() == '\\' || p.last() == ':')
}

/// `r` is `base` with `name` adjoined: nothing, `/` or `\` between them.
pub open spec fn is_join_of(r: Seq<char>, base: Seq<char>, name: Seq<char>) -> bool {
    exists|sep: Seq<char>|
        (sep == Seq::<char>::empty() || sep == seq!['/'] || sep == seq!['\\']) && r == base + sep
            + name
}

/// What `Path::join(base, name)` is known to give: for a relative `name` and
/// a `base` without verbatim prefix, `base`, a separator or none, then
/// `name`; a separator is there whenever `base` is not empty and does not
/// already end with one, and none is added after a trailing `/`.
pub open spec fn is_path_join(r: Seq<char>, base: Seq<char>, name: Seq<char>) -> bool {
    is_relative_name(name) && !has_verbatim_prefix(base) ==> {
        &&& is_join_of(r, base, name)
        &&& (base.len() > 0 && !ends_with_separator(base) ==> r.len() == base.len() + 1
            + name.len())
        &&& (base.len() > 0 && base.last() == '/' ==> r == base + name)
    }
}

/// `Path::join` of `base` and `name`, written back as text.
///
/// std (`PathBuf::push`): an absolute `name` replaces the path, a name with a
/// prefix or root replaces (part of) it, and under a verbatim prefix the
/// result is normalised; otherwise `name` is appended after the platform's
/// separator, which is left out when `base` is empty or already ends with a
/// separator (or is a bare drive such as `C:`). The contract states the
/// appending case for relative names and bases without verbatim prefix, with
/// `/` or `\` as the separator; which of the two is the platform's is not
/// stated, nor anything for other names or bases.
#[verifier::external_body]
pub(crate) fn join_path(base: &str, name: &str) -> (r: String)
    ensures
        is_path_join(r@, base@, name@),
{
    std::path::Path::new(base).join(name).to_string_lossy().to_string()
}

/// `part` is a contiguous run of the characters of `whole`.
pub open spec fn is_part_of(part: Seq<char>, whole: Seq<char>) -> bool {
    exists|i: int, j: int| 0 <= i <= j <= whole.len() && part == whole.subrange(i, j)
}

/// The position of the last `.` in `s`, or -1 when there is none.
pub open spec fn last_dot(s: Seq<char>) -> int
    decreases s.len(),
{
    if s.len() == 0 {
        -1
    } else if s.last() == '.' {
        s.len() - 1
    } else {
        last_dot(s.drop_last())
    }
}

/// The stem of a file name (std `file_stem`): the whole name when it has no
/// `.` or its last `.` is its first character; otherwise the part before the
/// final `.`.
pub open spec fn stem_of_name(name: Seq<char>) -> Seq<char> {
    if last_dot(name) <= 0 {
        name
    } else {
        name.take(last_dot(name))
    }
}

/// `path` is a directory part, `/`, then the bare file name `name`, and is
/// read the same on every platform: it holds no `\` or `:` and does not
/// start with `//` (a Windows network prefix).
pub open spec fn is_path_to_file(path: Seq<char>, name: Seq<char>) -> bool {
    &&& is_bare_name(name)
    &&& path.len() > name.len()
    &&& path.subrange(path.len() - name.len(), path.len() as int) == name
    &&& path[path.len() - name.len() - 1] == '/'
    &&& !path.contains('\\')
    &&& !path.contains(':')
    &&& !(path.len() >= 2 && path[0] == '/' && path[1] == '/')
}

/// `Path::file_stem` of `path`, as text.
///
/// std: the file name without its final extension: the whole file name when
/// it has no embedded `.`, or when it begins with `.` and has no other `.`;
/// else the portion before the final `.`; `None` when there is no file name.
/// Stated: a stem is a contiguous part of the path holding no `/`; a bare
/// file name, and a path `<dir>/<name>` with a bare `name` that holds no `\`
/// or `:` and does not start with `//`, have the stem `stem_of_name` gives
/// for the file name. Other paths are not stated.
#[verifier::external_body]
pub(crate) fn file_stem(path: &str) -> (r: Option<String>)
    ensures
        r is Some ==> is_part_of(r->0@, path@) && !r->0@.contains('/'),
        is_bare_name(path@) ==> r is Some && r->0@ == stem_of_name(path@),
        forall|name: Seq<char>| #[trigger] is_path_to_file(path@, name) ==> r is Some && r->0@
            == stem_of_name(name),
{
    std::path::Path::new(path).file_stem().map(|s| s.to_string_lossy().to_string())
}

} // verus!
