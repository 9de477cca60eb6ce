use vstd::prelude::*;
use vstd::string::StringExecFns;

use crate::code_editor::{CodeEditor, placeholder_code, default_language};
use crate::explorer::{Explorer, is_fresh};
use crate::paths::{display_name, file_name_or_empty, path_join, path_parent, popped, spec_path_join, FilePath};
use crate::text::{chars_of, contains_chars, is_substring, spec_to_lowercase, str_starts_with, to_lowercase};

verus! {

/// The reader's state: the path typed in, the files found there, the search
/// filter over them, path suggestions, the open file and its edited text,
/// the directory tree, and the error to show.
pub struct MyApp {
    pub path: String,
    pub explorer: Explorer,
    pub files: Vec<FilePath>,
    pub search: String,
    pub search_suggestions: Vec<String>,
    pub filtered_files: Vec<FilePath>,
    pub selected_file: Option<FilePath>,
    pub file_content: String,
    pub edited_content: String,
    pub editor: CodeEditor,
    pub error: String,
}

/// What the caller found at the path typed in.
pub enum PathListing {
    /// Nothing exists at the path (or it is empty); `fallback` is the
    /// directory to show instead.
    Missing { fallback: String },
    /// The path exists; `files` are the regular files directly inside it.
    Found { files: Vec<FilePath> },
}

/// The error shown when the path typed in does not exist.
pub open spec fn invalid_path_message() -> Seq<char> {
    "(Invalid Path) Path does not exist!"@
}

/// The text shown in place of a file that could not be read.
pub open spec fn read_failure_text() -> Seq<char> {
    "<failed to read file>"@
}

/// The start of the error shown when saving fails.
pub open spec fn save_error_prefix() -> Seq<char> {
    "Failed to save file: "@
}

/// `path` matches the search text, ignoring case.
pub open spec fn matches_search(search: Seq<char>, path: Seq<char>) -> bool {
    is_substring(spec_to_lowercase(search), spec_to_lowercase(path))
}

/// The test that the search text `search` applies to each path.
pub open spec fn search_pred(search: Seq<char>) -> spec_fn(FilePath) -> bool {
    |path: FilePath| matches_search(search, path.text@)
}

/// The files shown for the search text: all of them when the search is
/// empty, else those whose path contains it, ignoring case, in order.
pub open spec fn search_filter(files: Seq<FilePath>, search: Seq<char>) -> Seq<FilePath> {
    if search.len() == 0 {
        files
    } else {
        files.filter(search_pred(search))
    }
}

/// The test that the prefix `prefix` applies to each entry name.
pub open spec fn prefix_pred(prefix: Seq<char>) -> spec_fn(Seq<char>) -> bool {
    |name: Seq<char>| prefix.is_prefix_of(name)
}

/// The text that suggestions must begin with: nothing when the path is a
/// directory, else the path's last component.
pub open spec fn suggestion_prefix(path: Seq<char>, is_dir: bool) -> Seq<char> {
    if is_dir {
        Seq::empty()
    } else {
        display_name(path)
    }
}

/// The first file of a list, if any.
pub open spec fn first_of(files: Seq<FilePath>) -> Option<FilePath> {
    if files.len() > 0 {
        Some(files[0])
    } else {
        None
    }
}

/// The text shown for a file, given what reading it gave.
pub open spec fn shown_text(read: Option<Seq<char>>) -> Seq<char> {
    match read {
        Some(c) => c,
        None => read_failure_text(),
    }
}

/// With an empty search every file is shown; otherwise exactly the files
/// whose whole path, lower-cased, contains the lower-cased search are shown:
/// each shown file is one of the files and its path contains the search, and
/// each file whose path contains the search is shown.
pub proof fn law_search_shows_exactly_matches(files: Seq<FilePath>, search: Seq<char>)
    ensures
        search.len() == 0 ==> search_filter(files, search) == files,
        search.len() > 0 ==> forall|i: int|
            0 <= i < search_filter(files, search).len() ==> {
                &&& is_substring(
                    spec_to_lowercase(search),
                    spec_to_lowercase((#[trigger] search_filter(files, search)[i]).text@),
                )
                &&& files.contains(search_filter(files, search)[i])
            },
        search.len() > 0 ==> forall|i: int|
            0 <= i < files.len() && is_substring(spec_to_lowercase(search), spec_to_lowercase((#[trigger] files[i]).text@)) ==> search_filter(
                files,
                search,
            ).contains(files[i]),
{
    broadcast use vstd::seq_lib::group_filter_ensures;
    if search.len() > 0 {
        let pred = search_pred(search);
        assert forall|i: int| 0 <= i < search_filter(files, search).len() implies {
            &&& is_substring(
                    spec_to_lowercase(search),
                    spec_to_lowercase((#[trigger] search_filter(files, search)[i]).text@),
                )
            &&& files.contains(search_filter(files, search)[i])
        } by {
            files.lemma_filter_pred(pred, i);
            files.lemma_filter_contains_rev(pred, files.filter(pred)[i]);
            assert(files.filter(pred).contains(files.filter(pred)[i]));
        }
        assert forall|i: int|
            0 <= i < files.len() && is_substring(spec_to_lowercase(search), spec_to_lowercase((#[trigger] files[i]).text@)) implies search_filter(
            files,
            search,
        ).contains(files[i]) by {
            files.lemma_filter_contains(pred, i);
        }
    }
}

/// Keeping the items that pass a test, twice over, keeps the same items as
/// doing it once.
proof fn lemma_filter_twice<A>(s: Seq<A>, pred: spec_fn(A) -> bool)
    ensures
        s.filter(pred).filter(pred) == s.filter(pred),
    decreases s.len(),
{
    reveal(Seq::filter);
    if s.len() > 0 {
        lemma_filter_twice(s.drop_last(), pred);
        let sub = s.drop_last().filter(pred);
        if pred(s.last()) {
            sub.lemma_filter_push(s.last(), pred);
        }
    }
}

/// Filtering the shown files again by the same search shows the same files.
pub proof fn law_search_idempotent(files: Seq<FilePath>, search: Seq<char>)
    ensures
        search_filter(search_filter(files, search), search) == search_filter(files, search),
{
    if search.len() > 0 {
        lemma_filter_twice(files, search_pred(search));
    }
}

/// A text inside a text inside a third is inside the third.
proof fn lemma_substring_trans(a: Seq<char>, b: Seq<char>, c: Seq<char>)
    requires
        is_substring(a, b),
        is_substring(b, c),
    ensures
        is_substring(a, c),
{
    let i = choose|i: int|
        0 <= i && i + a.len() <= b.len() && #[trigger] b.subrange(i, i + a.len()) == a;
    let j = choose|j: int|
        0 <= j && j + b.len() <= c.len() && #[trigger] c.subrange(j, j + b.len()) == b;
    assert(c.subrange(j + i, j + i + a.len()) =~= a);
}

/// Where every item passing `narrow` passes `wide`, keeping the items that
/// pass `wide` and then those that pass `narrow` keeps those that pass
/// `narrow`.
proof fn lemma_filter_narrower<A>(
    s: Seq<A>,
    wide: spec_fn(A) -> bool,
    narrow: spec_fn(A) -> bool,
)
    requires
        forall|p: A| #[trigger] narrow(p) ==> wide(p),
    ensures
        s.filter(wide).filter(narrow) == s.filter(narrow),
    decreases s.len(),
{
    reveal(Seq::filter);
    if s.len() > 0 {
        lemma_filter_narrower(s.drop_last(), wide, narrow);
        let sub = s.drop_last().filter(wide);
        if wide(s.last()) {
            sub.lemma_filter_push(s.last(), narrow);
        }
    }
}

/// Narrowing the search never adds a file: where the lower-case earlier
/// search occurs in the lower-case later one, the files shown for the later
/// search are those shown for the earlier one that also match the later one.
/// The last two conditions are what `to_lowercase` states of every text it
/// is called on: the lower case of a text is empty exactly when the text is.
pub proof fn law_narrowing_search_never_adds(
    files: Seq<FilePath>,
    earlier: Seq<char>,
    later: Seq<char>,
)
    requires
        is_substring(spec_to_lowercase(earlier), spec_to_lowercase(later)),
        spec_to_lowercase(earlier).len() == 0 <==> earlier.len() == 0,
        spec_to_lowercase(later).len() == 0 <==> later.len() == 0,
    ensures
        search_filter(files, later) == search_filter(search_filter(files, earlier), later),
{
    if earlier.len() > 0 {
        assert forall|p: FilePath| #[trigger] search_pred(later)(p) implies search_pred(earlier)(p) by {
            lemma_substring_trans(spec_to_lowercase(earlier), spec_to_lowercase(later), spec_to_lowercase(p.text@));
        }
        lemma_filter_narrower(files, search_pred(earlier), search_pred(later));
    }
}

/// Every suggestion is one of the listed entries and begins with the prefix,
/// and every listed entry that begins with the prefix is suggested.
pub proof fn law_suggestions_exactly_prefixed(entries: Seq<Seq<char>>, prefix: Seq<char>)
    ensures
        forall|i: int|
            0 <= i < entries.filter(prefix_pred(prefix)).len() ==> {
                &&& prefix.is_prefix_of(#[trigger] entries.filter(prefix_pred(prefix))[i])
                &&& entries.contains(entries.filter(prefix_pred(prefix))[i])
            },
        forall|i: int|
            0 <= i < entries.len() && prefix.is_prefix_of(#[trigger] entries[i]) ==> entries.filter(
                prefix_pred(prefix),
            ).contains(entries[i]),
{
    let pred = prefix_pred(prefix);
    assert forall|i: int| 0 <= i < entries.filter(pred).len() implies {
        &&& prefix.is_prefix_of(#[trigger] entries.filter(pred)[i])
        &&& entries.contains(entries.filter(pred)[i])
    } by {
        entries.lemma_filter_pred(pred, i);
        entries.lemma_filter_contains_rev(pred, entries.filter(pred)[i]);
        assert(entries.filter(pred).contains(entries.filter(pred)[i]));
    }
    assert forall|i: int|
        0 <= i < entries.len() && prefix.is_prefix_of(#[trigger] entries[i]) implies entries.filter(
        pred,
    ).contains(entries[i]) by {
        entries.lemma_filter_contains(pred, i);
    }
}

/// The paths in `files` that match `search`, in order.
fn filter_by_search(files: &Vec<FilePath>, search: &String) -> (res: Vec<FilePath>)
    ensures
        res@ == files@.filter(search_pred(search@)),
{
    let search_lower = to_lowercase(search.as_str());
    let needle = chars_of(search_lower.as_str());
    let ghost pred = search_pred(search@);
    let mut res: Vec<FilePath> = Vec::new();
    let mut i: usize = 0;
    while i < files.len()
        invariant
            i <= files@.len(),
            needle@ == spec_to_lowercase(search@),
            pred == search_pred(search@),
            res@ == files@.take(i as int).filter(pred),
        decreases files@.len() - i,
    {
        let lower = to_lowercase(files[i].text.as_str());
        let hay = chars_of(lower.as_str());
        let keep = contains_chars(&hay, &needle);
        if keep {
            res.push(files[i].clone());
        }
        proof {
            assert(files@.take(i + 1) =~= files@.take(i as int).push(files@[i as int]));
            files@.take(i as int).lemma_filter_push(files@[i as int], pred);
        }
        i = i + 1;
    }
    assert(files@.take(files@.len() as int) =~= files@);
    res
}

/// The names in `entries` that begin with `prefix`, in order.
fn filter_by_prefix(entries: &Vec<String>, prefix: &String) -> (res: Vec<String>)
    ensures
        res.deep_view() == entries.deep_view().filter(prefix_pred(prefix@)),
{
    let ghost pred = prefix_pred(prefix@);
    let mut res: Vec<String> = Vec::new();
    let mut i: usize = 0;
    while i < entries.len()
        invariant
            i <= entries@.len(),
            pred == prefix_pred(prefix@),
            res.deep_view() == entries.deep_view().take(i as int).filter(pred),
        decreases entries@.len() - i,
    {
        let keep = str_starts_with(entries[i].as_str(), prefix.as_str());
        let ghost before = res.deep_view();
        if keep {
            res.push(entries[i].clone());
            assert(res.deep_view() =~= before.push(entries@[i as int]@));
        }
        proof {
            let dv = entries.deep_view();
            assert(dv.take(i + 1) =~= dv.take(i as int).push(dv[i as int]));
            dv.take(i as int).lemma_filter_push(dv[i as int], pred);
        }
        i = i + 1;
    }
    assert(entries.deep_view().take(entries@.len() as int) =~= entries.deep_view());
    res
}

/// `after` is `before` once `path` was opened with `read` as what reading it
/// gave.
pub open spec fn show_result(before: MyApp, after: MyApp, path: FilePath, read: Option<String>) -> bool {
    &&& after.selected_file == Some(path)
    &&& after.file_content@ == shown_text(read.deep_view())
    &&& after.edited_content@ == shown_text(read.deep_view())
    &&& after.editor.code@ == shown_text(read.deep_view())
    &&& after.editor.language == before.editor.language
    &&& after == (MyApp {
        selected_file: after.selected_file,
        file_content: after.file_content,
        edited_content: after.edited_content,
        editor: after.editor,
        ..before
    })
}

/// Opening a file selects it and puts exactly the text that reading gave,
/// whole, into the file content, the edited content and the editor; where
/// reading failed, all three hold the note `<failed to read file>`. Nothing
/// else of the state changes.
pub proof fn law_show_file_shows_what_was_read(
    before: MyApp,
    after: MyApp,
    path: FilePath,
    read: Option<String>,
)
    requires
        show_result(before, after, path, read),
    ensures
        after.selected_file == Some(path),
        read matches Some(c) ==> {
            &&& after.file_content@ == c@
            &&& after.edited_content@ == c@
            &&& after.editor.code@ == c@
        },
        read is None ==> {
            &&& after.file_content@ == "<failed to read file>"@
            &&& after.edited_content@ == "<failed to read file>"@
            &&& after.editor.code@ == "<failed to read file>"@
        },
        after.path == before.path,
        after.files == before.files,
        after.filtered_files == before.filtered_files,
        after.search == before.search,
        after.error == before.error,
{
}

/// `after` is `before` once the suggestions were refreshed from `entries`,
/// listed where the path points (`path_is_dir` tells whether it is itself a
/// directory).
pub open spec fn suggestions_result(
    before: MyApp,
    after: MyApp,
    path_is_dir: bool,
    entries: Option<Vec<String>>,
) -> bool {
    &&& after.search_suggestions.deep_view() == match entries {
        Some(e) => e.deep_view().filter(prefix_pred(suggestion_prefix(before.path@, path_is_dir))),
        None => Seq::empty(),
    }
    &&& after == (MyApp { search_suggestions: after.search_suggestions, ..before })
}

/// Keeping the items that pass a test every item passes keeps them all.
proof fn lemma_filter_keeps_all<A>(s: Seq<A>, pred: spec_fn(A) -> bool)
    requires
        forall|x: A| #[trigger] pred(x),
    ensures
        s.filter(pred) == s,
    decreases s.len(),
{
    reveal(Seq::filter);
    if s.len() > 0 {
        lemma_filter_keeps_all(s.drop_last(), pred);
        assert(s.drop_last().push(s.last()) =~= s);
    }
}

/// The suggestions for a path that is not a directory are exactly the listed
/// entries, in order, that begin with the path's whole last component; for a
/// directory they are all listed entries; where nothing could be listed there
/// are none.
pub proof fn law_suggestions_begin_with_last_component(
    before: MyApp,
    after: MyApp,
    path_is_dir: bool,
    entries: Option<Vec<String>>,
)
    requires
        suggestions_result(before, after, path_is_dir, entries),
    ensures
        entries is None ==> after.search_suggestions@.len() == 0,
        entries is Some && path_is_dir ==> after.search_suggestions.deep_view()
            == entries->0.deep_view(),
        entries is Some && !path_is_dir ==> forall|i: int|
            0 <= i < after.search_suggestions.deep_view().len() ==> {
                &&& display_name(before.path@).is_prefix_of(
                    #[trigger] after.search_suggestions.deep_view()[i],
                )
                &&& entries->0.deep_view().contains(after.search_suggestions.deep_view()[i])
            },
        entries is Some && !path_is_dir ==> forall|i: int|
            0 <= i < entries->0.deep_view().len() && display_name(before.path@).is_prefix_of(
                #[trigger] entries->0.deep_view()[i],
            ) ==> after.search_suggestions.deep_view().contains(entries->0.deep_view()[i]),
        after.path == before.path,
        after.files == before.files,
        after.filtered_files == before.filtered_files,
{
    match entries {
        Some(e) => {
            let dv = e.deep_view();
            if path_is_dir {
                let pred = prefix_pred(Seq::<char>::empty());
                assert forall|x: Seq<char>| #[trigger] pred(x) by {
                    assert(Seq::<char>::empty() =~= x.subrange(0, 0));
                }
                lemma_filter_keeps_all(dv, pred);
            } else {
                law_suggestions_exactly_prefixed(dv, display_name(before.path@));
            }
        },
        None => {
            assert(after.search_suggestions.deep_view().len() == 0);
        },
    }
}

impl MyApp {
    /// The state at start-up, showing `roaming_path`; the caller then runs
    /// `setup` with what it finds there.
    pub fn new(roaming_path: FilePath) -> (res: Self)
        ensures
            res.path == roaming_path.text,
            is_fresh(res.explorer, display_name(roaming_path.text@), roaming_path, true, true),
            res.files@.len() == 0,
            res.search@.len() == 0,
            res.search_suggestions@.len() == 0,
            res.filtered_files@.len() == 0,
            res.selected_file is None,
            res.file_content@.len() == 0,
            res.edited_content@.len() == 0,
            res.editor.language@ == default_language(),
            res.editor.code@ == placeholder_code(),
            res.error@.len() == 0,
    {
        let explorer = Explorer::from_pathbuf(&roaming_path);
        MyApp {
            path: roaming_path.text,
            explorer,
            files: Vec::new(),
            search: String::new(),
            search_suggestions: Vec::new(),
            filtered_files: Vec::new(),
            selected_file: None,
            file_content: String::new(),
            edited_content: String::new(),
            editor: CodeEditor::default(),
            error: String::new(),
        }
    }

    /// Recomputes the files shown from the search text.
    pub fn update_filtered_files(&mut self)
        ensures
            final(self).filtered_files@ == search_filter(
                old(self).files@,
                old(self).search@,
            ),
            *final(self) == (MyApp { filtered_files: final(self).filtered_files, ..*old(self) }),
    {
        if self.search.as_str().is_empty() {
            self.filtered_files = self.files.clone();
            assert(self.filtered_files@ =~= self.files@);
        } else {
            self.filtered_files = filter_by_search(&self.files, &self.search);
        }
    }

    /// The file to open first: the first file shown, if any.
    pub fn first_filtered_file(&self) -> (res: Option<FilePath>)
        ensures
            res == first_of(self.filtered_files@),
    {
        if self.filtered_files.len() > 0 {
            Some(self.filtered_files[0].clone())
        } else {
            None
        }
    }

    /// Opens `path`, whose text reading gave as `read` (`None` where reading
    /// failed): it becomes the selected file, and its text (or a note that
    /// it could not be read) fills the editor.
    pub fn show_file(&mut self, path: FilePath, read: Option<String>)
        ensures
            show_result(*old(self), *final(self), path, read),
    {
        self.selected_file = Some(path);
        self.file_content = match read {
            Some(c) => c,
            None => String::from_str("<failed to read file>"),
        };
        self.edited_content = self.file_content.clone();
        self.editor.set_content(self.edited_content.clone());
    }

    /// Applies what the caller found at the path typed in. Where nothing is
    /// there, the error is set and the path falls back; otherwise the error
    /// is cleared, the file list and the filter are refreshed, the tree is
    /// rebuilt for the path, and the file to open first is returned.
    pub fn setup(&mut self, listing: PathListing) -> (to_open: Option<FilePath>)
        ensures
            match listing {
                PathListing::Missing { fallback } => {
                    &&& to_open is None
                    &&& final(self).error@ == invalid_path_message()
                    &&& final(self).error@ == "(Invalid Path) Path does not exist!"@
                    &&& final(self).path == fallback
                    &&& *final(self) == (MyApp {
                        error: final(self).error,
                        path: final(self).path,
                        ..*old(self)
                    })
                },
                PathListing::Found { files } => {
                    &&& final(self).error@.len() == 0
                    &&& final(self).files == files
                    &&& final(self).filtered_files@ == search_filter(
                        files@,
                        old(self).search@,
                    )
                    &&& final(self).explorer.path.text == old(self).path
                    &&& is_fresh(
                        final(self).explorer,
                        display_name(old(self).path@),
                        final(self).explorer.path,
                        true,
                        true,
                    )
                    &&& to_open == first_of(final(self).filtered_files@)
                    &&& *final(self) == (MyApp {
                        error: final(self).error,
                        files: final(self).files,
                        filtered_files: final(self).filtered_files,
                        explorer: final(self).explorer,
                        ..*old(self)
                    })
                },
            },
    {
        match listing {
            PathListing::Missing { fallback } => {
                self.error = String::from_str("(Invalid Path) Path does not exist!");
                self.path = fallback;
                None
            },
            PathListing::Found { files } => {
                self.error = String::new();
                self.files = files;
                self.update_filtered_files();
                let to_open = self.first_filtered_file();
                let root = FilePath::from_text(self.path.clone());
                self.explorer = Explorer::from_pathbuf(&root);
                to_open
            },
        }
    }

    /// Whether the path typed in can be listed: it is not blank and
    /// `exists_on_disk` says something exists there. Where it cannot, `setup`
    /// is to be handed `PathListing::Missing`.
    pub fn path_is_usable(&self, exists_on_disk: bool) -> (res: bool)
        ensures
            res == (self.path@.len() > 0 && exists_on_disk),
    {
        !self.path.as_str().is_empty() && exists_on_disk
    }

    /// The directory whose entries are offered as suggestions: the path
    /// itself when it is a directory, else the directory it lies in.
    pub fn suggestion_dir(&self, path_is_dir: bool) -> (res: String)
        ensures
            res@ == if path_is_dir {
                self.path@
            } else {
                popped(self.path@)
            },
    {
        if path_is_dir {
            self.path.clone()
        } else {
            match path_parent(self.path.as_str()) {
                Some(p) => p,
                None => self.path.clone(),
            }
        }
    }

    /// Refreshes the path suggestions from a listing of the directory the
    /// path points into: `path_is_dir` tells whether the path itself is a
    /// directory, and `entries` are the names listed there (`None` where the
    /// directory could not be read). A suggestion is an entry that begins
    /// with the path's last component, or any entry when the path is a
    /// directory.
    pub fn update_suggestions(&mut self, path_is_dir: bool, entries: Option<Vec<String>>)
        ensures
            suggestions_result(*old(self), *final(self), path_is_dir, entries),
    {
        let prefix = if path_is_dir {
            String::new()
        } else {
            file_name_or_empty(self.path.as_str())
        };
        match entries {
            Some(e) => {
                self.search_suggestions = filter_by_prefix(&e, &prefix);
            },
            None => {
                self.search_suggestions = Vec::new();
                assert(self.search_suggestions.deep_view() =~= Seq::empty());
            },
        }
    }

    /// The full path that choosing the suggestion `suggestion` leads to: the
    /// suggestion joined onto the path typed in.
    pub fn suggestion_path(&self, suggestion: &str) -> (res: String)
        ensures
            res@ == spec_path_join(self.path@, suggestion@),
    {
        path_join(self.path.as_str(), suggestion)
    }

    /// Records that saving the open file failed with `message`.
    pub fn record_save_error(&mut self, message: &str)
        ensures
            final(self).error@ == save_error_prefix() + message@,
            final(self).error@ == "Failed to save file: "@ + message@,
            *final(self) == (MyApp { error: final(self).error, ..*old(self) }),
    {
        let mut error = String::from_str("Failed to save file: ");
        error.append(message);
        self.error = error;
    }

    /// Clears the error once it was acknowledged.
    pub fn dismiss_error(&mut self)
        ensures
            final(self).error@.len() == 0,
            *final(self) == (MyApp { error: final(self).error, ..*old(self) }),
    {
        self.error = String::new();
    }

    /// Takes the editor's text as the edited content to save.
    pub fn sync_edited_content(&mut self)
        ensures
            final(self).edited_content@ == old(self).editor.code@,
            *final(self) == (MyApp { edited_content: final(self).edited_content, ..*old(self) }),
    {
        self.edited_content = self.editor.get_content();
    }
}

} // verus!
