use nostromo_notes::listing::{load_browser_entries, load_files, load_template_files, DirEntry, EntryKind};

fn entry(dir: &str, name: &str, kind: EntryKind) -> DirEntry {
    DirEntry { path: format!("{}/{}", dir, name), name: name.to_string(), kind }
}

fn names(v: &[DirEntry]) -> Vec<String> {
    v.iter().map(|e| e.name.clone()).collect()
}

#[test]
fn files_list_directories_first_then_names_in_order() {
    let walk = vec![
        DirEntry { path: "/n".to_string(), name: "n".to_string(), kind: EntryKind::Dir },
        entry("/n", "zeta.md", EntryKind::File),
        entry("/n", "beta", EntryKind::Dir),
        entry("/n", "alpha.md", EntryKind::File),
        entry("/n", ".hidden.md", EntryKind::File),
        entry("/n", "Alpha", EntryKind::Dir),
        entry("/n", ".git", EntryKind::Dir),
    ];
    let r = load_files(&"/n".to_string(), walk);
    assert_eq!(names(&r), vec!["Alpha", "beta", "alpha.md", "zeta.md"]);
    assert_eq!(r[0].path, "/n/Alpha");
}

#[test]
fn files_list_of_empty_walk_is_empty() {
    let r = load_files(&".".to_string(), vec![]);
    assert!(r.is_empty());
}

#[test]
fn browser_lists_parent_then_visible_directories() {
    let read = vec![
        entry("/a/b", "notes.md", EntryKind::File),
        entry("/a/b", "zz", EntryKind::Dir),
        entry("/a/b", ".cache", EntryKind::Dir),
        entry("/a/b", "mm", EntryKind::Dir),
    ];
    let r = load_browser_entries(&"/a/b".to_string(), read);
    assert_eq!(names(&r), vec!["..", "mm", "zz"]);
    assert_eq!(r[0].path, "/a/b/..");
    assert_eq!(r[0].kind, EntryKind::Dir);
}

#[test]
fn browser_at_filesystem_root_has_no_parent_entry() {
    let read = vec![entry("", "etc", EntryKind::Dir)];
    let r = load_browser_entries(&"/".to_string(), read);
    assert_eq!(names(&r), vec!["etc"]);
}

#[test]
fn templates_are_the_files_in_walk_order() {
    let walk = vec![
        DirEntry { path: "/t".to_string(), name: "t".to_string(), kind: EntryKind::Dir },
        entry("/t", "b.md", EntryKind::File),
        entry("/t", "sub", EntryKind::Dir),
        entry("/t", "a.md", EntryKind::File),
    ];
    let r = load_template_files(walk);
    assert_eq!(names(&r), vec!["b.md", "a.md"]);
}
