use fuzzy_matcher::skim::SkimMatcherV2;
use fuzzy_matcher::FuzzyMatcher;
use nostromo_notes::fuzzy::{filter_files, rank_by_score};
use nostromo_notes::listing::{DirEntry, EntryKind};

fn file(name: &str) -> DirEntry {
    DirEntry { path: format!("./{}", name), name: name.to_string(), kind: EntryKind::File }
}

fn names(v: &[DirEntry]) -> Vec<String> {
    v.iter().map(|e| e.name.clone()).collect()
}

#[test]
fn empty_query_keeps_every_file_in_order() {
    let files = vec![file("b.md"), file("a.md"), file("c.md")];
    let r = filter_files(&files, "");
    assert_eq!(names(&r), vec!["b.md", "a.md", "c.md"]);
}

#[test]
fn name_without_query_letters_in_order_is_left_out() {
    let files = vec![file("todo.md"), file("xyz.md"), file("dxo.txt")];
    let r = filter_files(&files, "od");
    assert_eq!(names(&r), vec!["todo.md"]);
    let r = filter_files(&files, "qq");
    assert!(r.is_empty());
}

#[test]
fn search_scenario_orders_matches_by_score() {
    let files = vec![file("report.md"), file("readme.md"), file("todo.md")];
    let r = filter_files(&files, "re");
    let got = names(&r);
    assert_eq!(got.len(), 2);
    assert!(got.contains(&"report.md".to_string()));
    assert!(got.contains(&"readme.md".to_string()));
    assert!(!got.contains(&"todo.md".to_string()));
    let m = SkimMatcherV2::default();
    let s0 = m.fuzzy_match(&got[0], "re").unwrap();
    let s1 = m.fuzzy_match(&got[1], "re").unwrap();
    assert!(s0 >= s1);
}

#[test]
fn upper_case_query_respects_case() {
    let files = vec![file("Readme.md"), file("readme.md")];
    let r = filter_files(&files, "Re");
    assert_eq!(names(&r), vec!["Readme.md"]);
    let r = filter_files(&files, "re");
    assert_eq!(r.len(), 2);
}

#[test]
fn ranking_is_by_descending_score_and_keeps_ties_in_order() {
    let files = vec![file("a"), file("b"), file("c"), file("d")];
    let scores = vec![Some(5), None, Some(7), Some(5)];
    let r = rank_by_score(&files, &scores);
    assert_eq!(names(&r), vec!["c", "a", "d"]);
}
