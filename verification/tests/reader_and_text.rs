use file_reader::paths::{file_name_or_empty, FilePath};
use file_reader::reader::{MyApp, PathListing};
use file_reader::text::{chars_of, contains_chars, starts_with_chars, str_contains, str_starts_with};

fn fp(s: &str) -> FilePath {
    FilePath::from_text(s.to_string())
}

fn fps(files: &[&str]) -> Vec<FilePath> {
    files.iter().map(|s| fp(s)).collect()
}

fn texts(files: &[FilePath]) -> Vec<String> {
    files.iter().map(|p| p.text.clone()).collect()
}

fn app_with(files: &[&str]) -> MyApp {
    let mut app = MyApp::new(fp("/roaming"));
    app.path = "/work".to_string();
    let to_open = app.setup(PathListing::Found { files: fps(files) });
    assert_eq!(to_open.map(|p| p.text), files.first().map(|s| s.to_string()));
    app
}

#[test]
fn new_state_shows_roaming_path() {
    let app = MyApp::new(fp("/home/u/Roaming"));
    assert_eq!(app.path, "/home/u/Roaming");
    assert_eq!(app.explorer.name, "Roaming");
    assert!(app.files.is_empty() && app.filtered_files.is_empty());
    assert!(app.selected_file.is_none());
    assert_eq!(app.editor.code, "// Select a file to view its contents\n");
    assert!(app.error.is_empty());
}

#[test]
fn setup_missing_path_sets_error_and_falls_back() {
    let mut app = MyApp::new(fp("/roaming"));
    app.path = "/nope".to_string();
    let r = app.setup(PathListing::Missing { fallback: "/roaming".to_string() });
    assert!(r.is_none());
    assert_eq!(app.error, "(Invalid Path) Path does not exist!");
    assert_eq!(app.path, "/roaming");
    assert!(app.files.is_empty());
}

#[test]
fn setup_found_lists_and_clears_error() {
    let mut app = MyApp::new(fp("/roaming"));
    app.record_save_error("disk full");
    app.path = "/work".to_string();
    let r = app.setup(PathListing::Found { files: fps(&["/work/a.txt", "/work/b.rs"]) });
    assert_eq!(r.map(|p| p.text).as_deref(), Some("/work/a.txt"));
    assert!(app.error.is_empty());
    assert_eq!(texts(&app.filtered_files), texts(&app.files));
    assert_eq!(app.explorer.name, "work");
    assert_eq!(app.explorer.path.text, "/work");
}

#[test]
fn setup_found_empty_dir_opens_nothing() {
    let mut app = MyApp::new(fp("/roaming"));
    let r = app.setup(PathListing::Found { files: Vec::new() });
    assert!(r.is_none());
    assert!(app.first_filtered_file().is_none());
}

#[test]
fn search_is_case_insensitive() {
    let mut app = app_with(&["/work/README.md", "/work/main.rs", "/work/Readme.txt"]);
    app.search = "readme".to_string();
    app.update_filtered_files();
    assert_eq!(texts(&app.filtered_files), vec!["/work/README.md".to_string(), "/work/Readme.txt".to_string()]);
    assert_eq!(app.first_filtered_file().map(|p| p.text).as_deref(), Some("/work/README.md"));
}

#[test]
fn search_uppercase_query_matches_lowercase_path() {
    let mut app = app_with(&["/work/notes.md", "/work/main.rs"]);
    app.search = "MAIN".to_string();
    app.update_filtered_files();
    assert_eq!(texts(&app.filtered_files), vec!["/work/main.rs".to_string()]);
}

#[test]
fn empty_search_shows_all() {
    let mut app = app_with(&["/work/x", "/work/y"]);
    app.search = String::new();
    app.update_filtered_files();
    assert_eq!(texts(&app.filtered_files), texts(&app.files));
}

#[test]
fn search_without_match_shows_none() {
    let mut app = app_with(&["/work/x", "/work/y"]);
    app.search = "zzz".to_string();
    app.update_filtered_files();
    assert!(app.filtered_files.is_empty());
    assert!(app.first_filtered_file().is_none());
}

#[test]
fn search_twice_is_same() {
    let mut app = app_with(&["/work/ab", "/work/b", "/work/AB2"]);
    app.search = "ab".to_string();
    app.update_filtered_files();
    let once = app.filtered_files.clone();
    app.files = once.clone();
    app.update_filtered_files();
    assert_eq!(texts(&app.filtered_files), texts(&once));
}

#[test]
fn show_file_fills_editor() {
    let mut app = MyApp::new(fp("/roaming"));
    app.show_file(fp("/work/a.txt"), Some("hello".to_string()));
    assert_eq!(app.selected_file.map(|p| p.text).as_deref(), Some("/work/a.txt"));
    assert_eq!(app.file_content, "hello");
    assert_eq!(app.edited_content, "hello");
    assert_eq!(app.editor.get_content(), "hello");
}

#[test]
fn show_unreadable_file() {
    let mut app = MyApp::new(fp("/roaming"));
    app.show_file(fp("/work/bin"), None);
    assert_eq!(app.file_content, "<failed to read file>");
    assert_eq!(app.editor.code, "<failed to read file>");
}

#[test]
fn sync_takes_editor_text() {
    let mut app = MyApp::new(fp("/roaming"));
    app.show_file(fp("/work/a.txt"), Some("v1".to_string()));
    app.editor.set_content("v2".to_string());
    app.sync_edited_content();
    assert_eq!(app.edited_content, "v2");
    assert_eq!(app.file_content, "v1");
}

#[test]
fn save_error_and_dismiss() {
    let mut app = MyApp::new(fp("/roaming"));
    app.record_save_error("permission denied");
    assert_eq!(app.error, "Failed to save file: permission denied");
    app.dismiss_error();
    assert!(app.error.is_empty());
}

#[test]
fn suggestions_by_prefix_of_last_component() {
    let mut app = MyApp::new(fp("/roaming"));
    app.path = "/home/u/Do".to_string();
    app.update_suggestions(false, Some(vec!["Documents".to_string(), "Downloads".to_string(), "Music".to_string(), "do".to_string()]));
    assert_eq!(app.search_suggestions, vec!["Documents".to_string(), "Downloads".to_string()]);
}

#[test]
fn suggestions_for_directory_take_all() {
    let mut app = MyApp::new(fp("/roaming"));
    app.path = "/home/u".to_string();
    app.update_suggestions(true, Some(vec!["a".to_string(), "b".to_string()]));
    assert_eq!(app.search_suggestions, vec!["a".to_string(), "b".to_string()]);
}

#[test]
fn suggestions_unreadable_dir_empty() {
    let mut app = MyApp::new(fp("/roaming"));
    app.search_suggestions = vec!["old".to_string()];
    app.update_suggestions(true, None);
    assert!(app.search_suggestions.is_empty());
}

#[test]
fn suggestion_path_joins() {
    let mut app = MyApp::new(fp("/roaming"));
    app.path = "/home/u".to_string();
    let p = app.suggestion_path("Documents");
    assert!(p.ends_with("Documents"));
    assert_ne!(p, "Documents");
    assert!(p.starts_with("/home/u"));
}

#[test]
fn file_names() {
    assert_eq!(file_name_or_empty("/a/b/c.txt"), "c.txt");
    assert_eq!(file_name_or_empty("plain"), "plain");
    assert_eq!(file_name_or_empty(""), "");
    assert_eq!(file_name_or_empty("/a/.."), "");
    assert_eq!(file_name_or_empty("/a/b/"), "b");
}

#[test]
fn text_search() {
    assert!(str_contains("hello world", "o w"));
    assert!(str_contains("abc", ""));
    assert!(str_contains("", ""));
    assert!(!str_contains("ab", "abc"));
    assert!(!str_contains("abcabd", "abe"));
    assert!(str_contains("aaab", "aab"));
    assert!(str_contains("héllo", "él"));
}

#[test]
fn text_prefix() {
    assert!(str_starts_with("Documents", "Doc"));
    assert!(str_starts_with("x", ""));
    assert!(!str_starts_with("Do", "Doc"));
    assert!(!str_starts_with("Music", "Mo"));
}

#[test]
fn char_helpers() {
    let h = chars_of("héllo");
    assert_eq!(h, vec!['h', 'é', 'l', 'l', 'o']);
    assert!(contains_chars(&h, &vec!['l', 'o']));
    assert!(starts_with_chars(&h, &vec!['h', 'é']));
    assert!(!starts_with_chars(&h, &vec!['é']));
}

#[test]
fn blank_path_is_not_usable() {
    let mut app = MyApp::new(fp("/roaming"));
    app.path = String::new();
    assert!(!app.path_is_usable(true));
    app.path = "/work".to_string();
    assert!(app.path_is_usable(true));
    assert!(!app.path_is_usable(false));
}

#[test]
fn suggestion_dir_is_parent_unless_dir() {
    let mut app = MyApp::new(fp("/roaming"));
    app.path = "/home/u/Do".to_string();
    assert_eq!(app.suggestion_dir(false), "/home/u");
    assert_eq!(app.suggestion_dir(true), "/home/u/Do");
    app.path = "Do".to_string();
    assert_eq!(app.suggestion_dir(false), "");
    app.path = "/".to_string();
    assert_eq!(app.suggestion_dir(false), "/");
}

#[test]
fn narrowing_search_never_adds() {
    let mut app = app_with(&["/work/abc.txt", "/work/ab.rs", "/work/xyz", "/work/ABCD"]);
    app.search = "ab".to_string();
    app.update_filtered_files();
    let wide = texts(&app.filtered_files);
    app.search = "ABC".to_string();
    app.update_filtered_files();
    let narrow = texts(&app.filtered_files);
    assert_eq!(narrow, vec!["/work/abc.txt".to_string(), "/work/ABCD".to_string()]);
    assert!(narrow.iter().all(|p| wide.contains(p)));
}

#[test]
fn new_keeps_raw_roaming_path() {
    let app = MyApp::new(fp("/home/u/Roaming"));
    assert_eq!(app.explorer.path.raw, std::path::PathBuf::from("/home/u/Roaming"));
}

#[test]
fn shown_file_keeps_raw_path() {
    let mut app = app_with(&["/work/a.txt"]);
    let first = app.first_filtered_file().unwrap();
    app.show_file(first, Some("x".to_string()));
    assert_eq!(app.selected_file.unwrap().raw, std::path::PathBuf::from("/work/a.txt"));
}

#[test]
fn narrowing_to_empty_search_after_nonempty_is_wider() {
    let mut app = app_with(&["/work/a", "/work/b"]);
    app.search = "a".to_string();
    app.update_filtered_files();
    assert_eq!(texts(&app.filtered_files), vec!["/work/a".to_string()]);
    app.search = String::new();
    app.update_filtered_files();
    assert_eq!(app.filtered_files.len(), 2);
}
