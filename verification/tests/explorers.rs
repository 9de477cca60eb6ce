use file_reader::explorer::{Entry, Explorer};
use file_reader::explorer_backup::Explorer as FlatExplorer;
use file_reader::paths::FilePath;

fn fp(s: &str) -> FilePath {
    FilePath::from_text(s.to_string())
}

#[test]
fn from_pathbuf_names_root_after_last_component() {
    let e = Explorer::from_pathbuf(&fp("/home/user/docs"));
    assert_eq!(e.name, "docs");
    assert_eq!(e.path.text, "/home/user/docs");
    assert_eq!(e.path.raw, std::path::PathBuf::from("/home/user/docs"));
    assert!(!e.is_file);
    assert!(!e.opened);
    assert!(e.initial_open);
    assert!(e.children.is_empty());
    assert_eq!(e.access_count, 0);
}

#[test]
fn from_pathbuf_of_root_has_empty_name() {
    let e = Explorer::from_pathbuf(&fp("/"));
    assert_eq!(e.name, "");
}

#[test]
fn folder_and_file_nodes() {
    let d = Explorer::folder("src".to_string(), fp("/p/src"), None);
    assert!(!d.is_file && !d.opened && !d.initial_open);
    let d2 = Explorer::folder("src".to_string(), fp("/p/src"), Some(false));
    assert!(!d2.initial_open);
    let f = Explorer::file("a.rs".to_string(), fp("/p/a.rs"));
    assert!(f.is_file && f.opened && f.initial_open);
    assert_eq!(f.path.text, "/p/a.rs");
}

fn listing() -> Vec<Entry> {
    vec![
        Entry { path: fp("/p/src"), is_dir: true },
        Entry { path: fp("/p/main.rs"), is_dir: false },
    ]
}

#[test]
fn load_children_once() {
    let mut e = Explorer::from_pathbuf(&fp("/p"));
    e.load_children(listing());
    assert_eq!(e.children.len(), 2);
    assert_eq!(e.children[0].name, "src");
    assert!(!e.children[0].is_file);
    assert!(!e.children[0].initial_open);
    assert_eq!(e.children[1].name, "main.rs");
    assert!(e.children[1].is_file);
    assert_eq!(e.access_count, 1);
    e.load_children(vec![Entry { path: fp("/p/other"), is_dir: false }]);
    assert_eq!(e.children.len(), 2);
    assert_eq!(e.access_count, 1);
}

#[test]
fn empty_listing_counts_each_load() {
    let mut e = Explorer::from_pathbuf(&fp("/empty"));
    e.load_children(Vec::new());
    e.load_children(Vec::new());
    assert!(e.children.is_empty());
    assert_eq!(e.access_count, 2);
}

#[test]
fn header_open_asks_for_listing_once() {
    let mut e = Explorer::from_pathbuf(&fp("/p"));
    assert!(e.on_header_response(true, false));
    assert!(e.opened);
    e.load_children(listing());
    assert!(!e.on_header_response(true, false));
    assert!(e.opened);
    assert!(!e.on_header_response(false, true));
    assert!(!e.opened);
    assert!(!e.on_header_response(true, false));
    assert!(e.opened);
}

#[test]
fn header_on_file_does_nothing() {
    let mut f = Explorer::file("a".to_string(), fp("/a"));
    assert!(!f.on_header_response(true, false));
    assert!(f.opened);
}

#[test]
fn flat_default_and_leaves() {
    let d = FlatExplorer::default();
    assert_eq!(d.name, "Unnamed");
    assert!(!d.is_file);
    let dir = FlatExplorer::default_dir("x".to_string());
    assert!(!dir.is_file && dir.children.is_empty());
    let f = FlatExplorer::file("y".to_string());
    assert!(f.is_file);
}

#[test]
fn flat_from_pathbuf_lists_files() {
    let comps = vec!["/p/a.txt".to_string(), "/p/sub".to_string()];
    let e = FlatExplorer::from_pathbuf(&"/p".to_string(), &comps);
    assert_eq!(e.name, "p");
    assert_eq!(e.children.len(), 2);
    assert_eq!(e.children[0].name, "a.txt");
    assert_eq!(e.children[1].name, "sub");
    assert!(e.children.iter().all(|c| c.is_file));
}

#[test]
fn flat_insert_in_batches() {
    let mut a = FlatExplorer::default_dir("r".to_string());
    FlatExplorer::insert_path(&mut a, &vec!["/r/one".to_string()]);
    FlatExplorer::insert_path(&mut a, &vec!["/r/two".to_string(), "/r/three".to_string()]);
    let mut b = FlatExplorer::default_dir("r".to_string());
    FlatExplorer::insert_path(
        &mut b,
        &vec!["/r/one".to_string(), "/r/two".to_string(), "/r/three".to_string()],
    );
    let na: Vec<&str> = a.children.iter().map(|c| c.name.as_str()).collect();
    let nb: Vec<&str> = b.children.iter().map(|c| c.name.as_str()).collect();
    assert_eq!(na, nb);
    assert_eq!(na, vec!["one", "two", "three"]);
}

#[test]
fn flat_insert_nothing() {
    let mut a = FlatExplorer::default_dir("r".to_string());
    FlatExplorer::insert_path(&mut a, &Vec::new());
    assert!(a.children.is_empty());
}

#[test]
fn clone_copies_whole_tree() {
    let mut e = Explorer::from_pathbuf(&fp("/p"));
    e.load_children(listing());
    let c = e.clone();
    assert_eq!(c.name, e.name);
    assert_eq!(c.path.text, e.path.text);
    assert_eq!(c.path.raw, e.path.raw);
    assert_eq!(c.access_count, e.access_count);
    assert_eq!(c.last_accessed_time, e.last_accessed_time);
    assert_eq!(c.children.len(), 2);
    assert_eq!(c.children[1].name, "main.rs");
    assert!(c.children[1].is_file);
}

#[test]
fn flat_clone_copies_whole_tree() {
    let comps = vec!["/p/a.txt".to_string()];
    let e = FlatExplorer::from_pathbuf(&"/p".to_string(), &comps);
    let c = e.clone();
    assert_eq!(c.name, "p");
    assert_eq!(c.children.len(), 1);
    assert_eq!(c.children[0].name, "a.txt");
}

#[test]
fn tree_stays_well_formed_through_steps() {
    let mut e = Explorer::from_pathbuf(&fp("/p"));
    assert!(e.on_header_response(true, false));
    e.load_children(listing());
    let file = &mut e.children[1];
    assert!(!file.on_header_response(false, true));
    assert!(file.is_file && file.opened && file.initial_open && file.children.is_empty());
    assert_eq!(e.children.len(), 2);
}

#[test]
fn timed_nodes_record_given_time() {
    let t = std::time::Instant::now();
    let d = Explorer::folder_at("d".to_string(), fp("/d"), Some(true), t);
    assert_eq!(d.last_accessed_time, t);
    assert!(d.initial_open && !d.is_file);
    let f = Explorer::file_at("f".to_string(), fp("/f"), t);
    assert_eq!(f.last_accessed_time, t);
    assert!(f.is_file);
}

#[test]
fn load_children_at_records_time() {
    let mut e = Explorer::from_pathbuf(&fp("/p"));
    let t = std::time::Instant::now();
    e.load_children_at(listing(), t);
    assert_eq!(e.last_accessed_time, t);
    assert_eq!(e.children.len(), 2);
    assert_eq!(e.access_count, 1);
    let t2 = std::time::Instant::now();
    e.load_children_at(listing(), t2);
    assert_eq!(e.last_accessed_time, t);
    assert_eq!(e.access_count, 1);
}

#[test]
fn children_keep_listed_raw_paths() {
    let raw = std::path::PathBuf::from("/p/x.txt");
    let path = FilePath { raw: raw.clone(), text: "/p/x.txt".to_string() };
    let mut e = Explorer::from_pathbuf(&fp("/p"));
    e.load_children(vec![Entry { path, is_dir: false }]);
    assert_eq!(e.children[0].path.raw, raw);
    assert_eq!(e.children[0].name, "x.txt");
}
