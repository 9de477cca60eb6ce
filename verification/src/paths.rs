use vstd::prelude::*;

use crate::text::is_substring;

verus! {

#[verifier::external_type_specification]
#[verifier::external_body]
pub struct ExPathBuf(std::path::PathBuf);

/// `PathBuf::clone` gives a buffer holding the same path. (A `PathBuf` is
/// taken here as the path it holds; nothing in this crate reads anything else
/// of it, such as its capacity.)
pub assume_specification[<std::path::PathBuf as Clone>::clone](path: &std::path::PathBuf) -> (res: std::path::PathBuf)
    ensures
        res == *path,
;

/// Calls `PathBuf::from` on a text. Nothing is stated of the buffer: this
/// crate never looks into one, it only carries it to the caller.
#[verifier::external_body]
fn path_buf_from(text: &str) -> (res: std::path::PathBuf) {
    std::path::PathBuf::from(text)
}

/// A path as the file system knows it, with its text: `raw` is what file
/// access uses, and `text` is its display form (`to_string_lossy` of `raw`),
/// which is what the logic of this crate reads. The two agree wherever the
/// path is valid Unicode; where it is not, `raw` still names the file.
#[derive(Debug)]
pub struct FilePath {
    pub raw: std::path::PathBuf,
    pub text: String,
}

impl Clone for FilePath {
    fn clone(&self) -> (res: Self)
        ensures
            res == *self,
    {
        FilePath { raw: self.raw.clone(), text: self.text.clone() }
    }
}

impl FilePath {
    /// The path written as `text`.
    pub fn from_text(text: String) -> (res: Self)
        ensures
            res.text == text,
    {
        let raw = path_buf_from(text.as_str());
        FilePath { raw, text }
    }
}

/// The last component of `path` as the standard library's path parsing for
/// the target platform finds it (`None` where there is none: an empty path, a
/// path that ends in `..`, or one that is only a root or a prefix).
pub uninterp spec fn spec_file_name(path: Seq<char>) -> Option<Seq<char>>;

/// `path` is one plain component: non-empty, neither `.` nor `..`, and free of
/// `/`, `\` and `:`, so that no platform splits it or reads a prefix in it.
pub open spec fn is_plain_name(path: Seq<char>) -> bool {
    &&& path.len() > 0
    &&& path != seq!['.']
    &&& path != seq!['.', '.']
    &&& forall|i: int| 0 <= i < path.len() ==> path[i] != '/' && path[i] != '\\' && path[i] != ':'
}

/// `name` can be a normal path component: non-empty and neither `.` nor
/// `..`. (Which characters separate components depends on the platform and,
/// on Windows, on whether the path is verbatim, so nothing is said of them.)
pub open spec fn is_component(name: Seq<char>) -> bool {
    &&& name.len() > 0
    &&& name != seq!['.']
    &&& name != seq!['.', '.']
}

/// The name shown for `path`: its last component, or the empty text where it
/// has none.
pub open spec fn display_name(path: Seq<char>) -> Seq<char> {
    match spec_file_name(path) {
        Some(n) => n,
        None => Seq::empty(),
    }
}

/// Calls `std::path::Path::file_name` on `path` and converts the component
/// back to text. The result is named by `spec_file_name`, since how a path
/// splits depends on the target platform's separators and prefixes; the
/// contract adds only what holds on every platform: an empty path has no file
/// name, a plain name is its own file name, and a file name is a non-empty
/// run of the path's own characters other than `.` and `..`. Which component
/// is picked in other cases, and which characters it may hold, is left to the
/// name.
#[verifier::external_body]
pub(crate) fn path_file_name(path: &str) -> (res: Option<String>)
    ensures
        res.deep_view() == spec_file_name(path@),
        path@.len() == 0 ==> res is None,
        is_plain_name(path@) ==> res.deep_view() == Some(path@),
        res matches Some(n) ==> is_component(n@) && is_substring(n@, path@),
{
    match std::path::Path::new(path).file_name() {
        Some(n) => Some(n.to_string_lossy().into_owned()),
        None => None,
    }
}

/// The last component of `path`, or the empty text where it has none.
pub fn file_name_or_empty(path: &str) -> (res: String)
    ensures
        res@ == display_name(path@),
{
    match path_file_name(path) {
        Some(n) => n,
        None => String::new(),
    }
}

/// The path that `path` lies in, as the standard library's path parsing for
/// the target platform finds it (`None` where `path` is empty or only a root
/// or a prefix).
pub uninterp spec fn spec_parent(path: Seq<char>) -> Option<Seq<char>>;

/// Calls `std::path::Path::parent` and converts the result back to text. The
/// result is named by `spec_parent`; the contract adds only what holds on
/// every platform: the empty path has no parent, a plain name lies in the
/// empty path, and a parent is a shorter beginning of the path itself.
#[verifier::external_body]
pub(crate) fn path_parent(path: &str) -> (res: Option<String>)
    ensures
        res.deep_view() == spec_parent(path@),
        path@.len() == 0 ==> res is None,
        is_plain_name(path@) ==> res.deep_view() == Some(Seq::<char>::empty()),
        res matches Some(p) ==> p@.is_prefix_of(path@) && p@.len() < path@.len(),
{
    match std::path::Path::new(path).parent() {
        Some(p) => Some(p.to_string_lossy().into_owned()),
        None => None,
    }
}

/// The directory `PathBuf::pop` leaves of `path`: its parent, or the path
/// itself where it has none.
pub open spec fn popped(path: Seq<char>) -> Seq<char> {
    match spec_parent(path) {
        Some(p) => p,
        None => path,
    }
}

/// The path `name` joined onto `base` as the standard library's path
/// handling for the target platform does it.
pub uninterp spec fn spec_path_join(base: Seq<char>, name: Seq<char>) -> Seq<char>;

/// Calls `std::path::Path::join` and converts the result back to text. The
/// result is named by `spec_path_join`, since separators and the handling of
/// absolute or prefixed names depend on the target platform; the contract adds
/// only what holds on every platform: a plain name ends the joined path, and
/// joining onto the empty path gives the name itself. Where the separator goes
/// in other cases is left to the name.
#[verifier::external_body]
pub(crate) fn path_join(base: &str, name: &str) -> (res: String)
    ensures
        res@ == spec_path_join(base@, name@),
        is_plain_name(name@) ==> name@.is_suffix_of(res@),
        is_plain_name(name@) && base@.len() == 0 ==> res@ == name@,
{
    std::path::Path::new(base).join(name).to_string_lossy().into_owned()
}

} // verus!
