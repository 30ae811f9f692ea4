use ppt_stealer::catalog::{extension, file_moniter, is_hidden, LocalSourceManager, NamePattern, ScanEntry, ScanFilter};

fn comps(parts: &[&str]) -> Vec<String> {
    parts.iter().map(|s| s.to_string()).collect()
}

fn file(parts: &[&str]) -> ScanEntry {
    ScanEntry { rel: comps(parts), is_file: true }
}

fn exts(e: &[&str]) -> Vec<String> {
    comps(e)
}

#[test]
fn filter_keeps_only_matching_visible_files() {
    let root = comps(&["home", "u", "Desktop"]);
    let entries = vec![
        file(&["report.PPTX"]),
        file(&["notes.txt"]),
        file(&["~$lock.pptx"]),
        file(&[".hidden.pptx"]),
    ];
    let f = ScanFilter::new(exts(&["pptx", "docx"]), None, None, None);
    let kept = file_moniter(&root, &entries, &f);
    assert_eq!(kept, vec![comps(&["home", "u", "Desktop", "report.PPTX"])]);
}

#[test]
fn excluded_directories_hide_their_files() {
    let root = comps(&["r"]);
    let entries = vec![
        file(&[".git", "a.md"]),
        file(&["_build", "b.md"]),
        file(&["docs", "c.md"]),
        ScanEntry { rel: comps(&["docs"]), is_file: false },
    ];
    let f = ScanFilter::new(exts(&["md"]), None, None, None);
    assert_eq!(file_moniter(&root, &entries, &f), vec![comps(&["r", "docs", "c.md"])]);
}

#[test]
fn hidden_names() {
    assert!(is_hidden(".x"));
    assert!(is_hidden("_x"));
    assert!(is_hidden("~$x"));
    assert!(!is_hidden("~x"));
    assert!(!is_hidden("x.y"));
    assert!(!is_hidden(""));
}

#[test]
fn extension_follows_last_dot() {
    assert_eq!(extension("a.tar.GZ"), Some("GZ".to_string()));
    assert_eq!(extension(".bashrc"), None);
    assert_eq!(extension("README"), None);
    assert_eq!(extension("a."), Some(String::new()));
}

#[test]
fn regex_selects_when_extension_does_not() {
    let root = comps(&["r"]);
    let entries = vec![file(&["notes.txt"]), file(&["todo.txt"]), file(&["plan.pptx"])];
    let f = ScanFilter::new(exts(&["pptx"]), Some("^no"), None, None);
    assert_eq!(
        file_moniter(&root, &entries, &f),
        vec![comps(&["r", "notes.txt"]), comps(&["r", "plan.pptx"])]
    );
}

#[test]
fn invalid_regex_matches_nothing() {
    assert!(ScanFilter::has_invalid_pattern(Some("(unclosed")));
    assert!(!ScanFilter::has_invalid_pattern(Some("ok")));
    assert!(!ScanFilter::has_invalid_pattern(None));
    assert!(NamePattern::new("(unclosed").is_none());
    let root = comps(&["r"]);
    let entries = vec![file(&["(unclosed.txt"]), file(&["a.pptx"])];
    let f = ScanFilter::new(exts(&["pptx"]), Some("(unclosed"), None, None);
    assert!(f.pattern.is_none());
    assert_eq!(file_moniter(&root, &entries, &f), vec![comps(&["r", "a.pptx"])]);
}

#[test]
fn depth_bounds_are_inclusive() {
    let root = comps(&["r"]);
    let entries = vec![file(&["a.md"]), file(&["d", "b.md"]), file(&["d", "e", "c.md"])];
    let f = ScanFilter::new(exts(&["md"]), None, Some(2), Some(2));
    assert_eq!(file_moniter(&root, &entries, &f), vec![comps(&["r", "d", "b.md"])]);
    let g = ScanFilter::new(exts(&["md"]), None, None, Some(1));
    assert_eq!(file_moniter(&root, &entries, &g), vec![comps(&["r", "a.md"])]);
}

#[test]
fn duplicate_entries_are_folded() {
    let root = comps(&["r"]);
    let entries = vec![file(&["a.md"]), file(&["a.md"])];
    let f = ScanFilter::new(exts(&["md"]), None, None, None);
    assert_eq!(file_moniter(&root, &entries, &f).len(), 1);
}

#[test]
fn get_files_tags_each_file_with_its_root() {
    let m = LocalSourceManager { base_path: comps(&["r"]) };
    let entries = vec![file(&["a.md"]), file(&["b.txt"])];
    let f = ScanFilter::new(exts(&["md"]), None, None, None);
    let files = m.get_files(4, &entries, &f);
    assert_eq!(files.len(), 1);
    assert_eq!(files[0].path, comps(&["r", "a.md"]));
    assert_eq!(files[0].root, 4);
    assert_eq!(files[0].cached_sha256(), None);
}

#[test]
fn accepted_extensions_are_compared_as_given() {
    let f = ScanFilter::new(exts(&["pptx", "md"]), None, None, None);
    assert!(f.accepts_extension(&"pptx".to_string()));
    assert!(!f.accepts_extension(&"PPTX".to_string()));
    assert!(!f.accepts_extension(&"txt".to_string()));
}

#[test]
fn name_pattern_matches_anywhere() {
    let p = NamePattern::new("re.ort").unwrap();
    assert!(p.is_match("my report.txt"));
    assert!(!p.is_match("notes.txt"));
}
