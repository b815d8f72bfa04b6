use vstd::prelude::*;
use crate::text::{ascii_lowercase, is_ascii_lowering, lemma_ascii_lowering_unique};

verus! {

/// A file path as the platform handed it over: its text when the path is
/// valid Unicode, or the mark that it is not.
#[derive(Clone, Debug, PartialEq, Eq)]
pub enum MediaPath {
    Unicode(String),
    NotUnicode,
}

/// A single plain file name: not empty, not `.` or `..`, and free of the
/// characters that separate components or start a drive prefix on any
/// platform.
pub open spec fn is_plain_file_name(s: Seq<char>) -> bool {
    &&& s.len() > 0
    &&& s != seq!['.']
    &&& s != seq!['.', '.']
    &&& forall|i: int| 0 <= i < s.len() ==> #[trigger] s[i] != '/' && s[i] != '\\' && s[i] != ':'
}

/// Index of the last `.` in `s`, or -1 when there is none.
pub open spec fn last_dot(s: Seq<char>) -> int
    decreases s.len(),
{
    if s.len() == 0 {
        -1
    } else if s.last() == '.' {
        s.len() - 1
    } else {
        last_dot(s.drop_last())
    }
}

/// The extension of a file name: the text after its last `.`, unless there
/// is no `.` or the only one starts the name.
pub open spec fn extension_of_name(s: Seq<char>) -> Option<Seq<char>> {
    let k = last_dot(s);
    if k <= 0 {
        None
    } else {
        Some(s.subrange(k + 1, s.len() as int))
    }
}

/// Relies on std::path::Path::file_name: a path that is one plain file name
/// is its own final component, and `..` has none.
#[verifier::external_body]
fn path_file_name(path: &str) -> (r: Option<String>)
    ensures
        is_plain_file_name(path@) ==> r is Some && r->0@ == path@,
        path@ == seq!['.', '.'] ==> r is None,
{
    std::path::Path::new(path).file_name().and_then(|n| n.to_str()).map(|n| n.to_owned())
}

/// Relies on std::path::Path::extension: for a path that is one plain file
/// name, the text after its last `.`, or nothing when there is no `.` or the
/// only one starts the name.
#[verifier::external_body]
fn path_extension(path: &str) -> (r: Option<String>)
    ensures
        is_plain_file_name(path@) ==> match r {
            Some(e) => extension_of_name(path@) == Some(e@),
            None => extension_of_name(path@) is None,
        },
{
    std::path::Path::new(path).extension().and_then(|e| e.to_str()).map(|e| e.to_owned())
}

/// Whether an extension names one of the engine's own container formats
/// (`prot` or `mka`), in any ASCII case.
pub open spec fn is_container_extension(e: Seq<char>) -> bool {
    exists|r: Seq<char>| is_ascii_lowering(e, r) && (r == "prot"@ || r == "mka"@)
}

/// Whether `ext` is `prot` or `mka`, in any ASCII case.
pub fn container_extension(ext: &str) -> (r: bool)
    ensures
        r == is_container_extension(ext@),
{
    let lowered = ascii_lowercase(ext);
    let r = lowered == "prot".to_owned() || lowered == "mka".to_owned();
    proof {
        if is_container_extension(ext@) {
            let w = choose|w: Seq<char>| is_ascii_lowering(ext@, w) && (w == "prot"@ || w == "mka"@);
            lemma_ascii_lowering_unique(ext@, w, lowered@);
        }
    }
    r
}

/// Whether the engine should open `path` as one of its own containers,
/// judged by the path's extension.
pub fn opens_as_container(path: &str) -> (r: bool)
    ensures
        is_plain_file_name(path@) ==> (r <==> match extension_of_name(path@) {
            Some(e) => is_container_extension(e),
            None => false,
        }),
{
    match path_extension(path) {
        Some(e) => container_extension(e.as_str()),
        None => false,
    }
}

/// The name a window shows for `path`: its final component, when there is
/// one.
pub fn display_name(path: &str) -> (r: Option<String>)
    ensures
        is_plain_file_name(path@) ==> r is Some && r->0@ == path@,
        path@ == seq!['.', '.'] ==> r is None,
{
    path_file_name(path)
}

} // verus!
