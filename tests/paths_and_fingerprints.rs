use ppt_stealer::fingerprint::{fingerprint, get_hashes, same_fingerprint, to_hex, HashError, LocalFile};
use ppt_stealer::paths::{destination_path, root_label, sanitize, strip_root};
use ppt_stealer::sync::get_changed_files;
use ppt_stealer::fingerprint::HashEntry;

fn comps(parts: &[&str]) -> Vec<String> {
    parts.iter().map(|s| s.to_string()).collect()
}

#[test]
fn sanitize_replaces_unsafe_characters() {
    assert_eq!(sanitize("My Docs-1_v2.0"), "My Docs-1_v2.0");
    assert_eq!(sanitize("a/b:c*é"), "a_b_c__");
    assert_eq!(sanitize(""), "");
}

#[test]
fn root_label_of_filesystem_root_is_underscore() {
    assert_eq!(root_label(&comps(&[])), "_");
    assert_eq!(root_label(&comps(&["home", "user", "Desk top$"])), "Desk top_");
}

#[test]
fn strip_root_fails_on_mismatch() {
    let root = comps(&["home", "user"]);
    assert_eq!(strip_root(&root, &comps(&["home", "user", "a", "b.txt"])), Some(comps(&["a", "b.txt"])));
    assert_eq!(strip_root(&root, &comps(&["home", "other", "b.txt"])), None);
    assert_eq!(strip_root(&root, &comps(&["home"])), None);
}

#[test]
fn destination_starts_with_sanitized_root_name() {
    let root = comps(&["home", "user", "Desktop"]);
    let file = comps(&["home", "user", "Desktop", "docs", "report.pptx"]);
    let dest = destination_path(&root, &file).unwrap();
    assert_eq!(dest, comps(&["Desktop", "docs", "report.pptx"]));
    assert!(dest.iter().all(|c| c != ".."));
    let usb = comps(&["media", "USB#1"]);
    let on_usb = comps(&["media", "USB#1", "x.docx"]);
    assert_eq!(destination_path(&usb, &on_usb).unwrap(), comps(&["USB_1", "x.docx"]));
}

#[test]
fn distinct_roots_do_not_collide() {
    let a = comps(&["home", "user", "Desktop"]);
    let b = comps(&["media", "stick"]);
    let fa = comps(&["home", "user", "Desktop", "notes", "plan.md"]);
    let fb = comps(&["media", "stick", "notes", "plan.md"]);
    let da = destination_path(&a, &fa).unwrap();
    let db = destination_path(&b, &fb).unwrap();
    assert_ne!(da, db);
}

#[test]
fn fingerprint_of_known_inputs() {
    assert_eq!(
        fingerprint(b""),
        "e3b0c44298fc1c149afbf4c8996fb92427ae41e4649b934ca495991b7852b855"
    );
    assert_eq!(
        fingerprint(b"abc"),
        "ba7816bf8f01cfea414140de5dae2223b00361a396177a9cb410ff61f20015ad"
    );
}

#[test]
fn fingerprint_is_stable_and_sensitive() {
    let data = b"some document bytes".to_vec();
    assert_eq!(fingerprint(&data), fingerprint(&data));
    let mut changed = data.clone();
    changed[3] ^= 1;
    assert_ne!(fingerprint(&data), fingerprint(&changed));
    assert_eq!(fingerprint(&data).len(), 64);
}

#[test]
fn hex_encoding_is_lower_case() {
    assert_eq!(to_hex(&[0x00, 0xff, 0x1a, 0xb0]), "00ff1ab0");
    assert_eq!(to_hex(&[]), "");
}

#[test]
fn cache_is_filled_once_and_refreshed_on_demand() {
    let mut f = LocalFile::new(comps(&["d", "a.txt"]), 0);
    assert_eq!(f.cached_sha256(), None);
    let first = f.get_sha256(|| Ok(b"abc".to_vec())).unwrap();
    assert_eq!(first, fingerprint(b"abc"));
    let mut called = false;
    let second = f.get_sha256(|| {
        called = true;
        Ok(b"other".to_vec())
    });
    assert!(!called);
    assert_eq!(second, Ok(first.clone()));
    let refreshed = f.get_new_sha256(|| Ok(b"other".to_vec())).unwrap();
    assert_eq!(refreshed, fingerprint(b"other"));
    assert_eq!(f.cached_sha256(), Some(refreshed));
}

#[test]
fn failed_read_keeps_cache() {
    let mut f = LocalFile::new(comps(&["d", "a.txt"]), 2);
    assert_eq!(f.get_sha256(|| Err(HashError::NotFound)), Err(HashError::NotFound));
    assert_eq!(f.cached_sha256(), None);
    f.get_new_sha256(|| Ok(b"x".to_vec())).unwrap();
    assert_eq!(f.get_new_sha256(|| Err(HashError::IoFailure)), Err(HashError::IoFailure));
    assert_eq!(f.cached_sha256(), Some(fingerprint(b"x")));
    assert_eq!(f.root, 2);
}

#[test]
fn missing_fingerprint_matches_nothing() {
    let h = Some("ab".to_string());
    assert!(same_fingerprint(&h, &h.clone()));
    assert!(!same_fingerprint(&None, &None));
    assert!(!same_fingerprint(&h, &None));
    assert!(!same_fingerprint(&h, &Some("ac".to_string())));
}

#[test]
fn hashes_pair_paths_with_fingerprints() {
    let paths = vec!["/a".to_string(), "/b".to_string()];
    let contents = vec![b"abc".to_vec(), b"".to_vec()];
    let hs = get_hashes(&paths, &contents);
    assert_eq!(hs.len(), 2);
    assert_eq!(hs[0].path, "/a");
    assert_eq!(hs[0].sha256, fingerprint(b"abc"));
    assert_eq!(hs[1].sha256, fingerprint(b""));
}

fn entry(p: &str, h: &str) -> HashEntry {
    HashEntry { path: p.to_string(), sha256: h.to_string() }
}

#[test]
fn changed_files_are_new_or_different() {
    let old = vec![entry("/a", "1"), entry("/b", "2"), entry("/gone", "9")];
    let new = vec![entry("/a", "1"), entry("/b", "3"), entry("/c", "4")];
    assert_eq!(get_changed_files(&old, &new), vec!["/b".to_string(), "/c".to_string()]);
    assert_eq!(get_changed_files(&new, &new), Vec::<String>::new());
    assert_eq!(get_changed_files(&vec![], &new).len(), 3);
}
