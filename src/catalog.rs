//! The source catalog: which entries found under a source root are kept.
//!
//! The walk itself is file-system work done by the caller, which hands over
//! each entry's path relative to the root, as components, and whether it is
//! a regular file. An entry is kept when it is a file within the depth
//! bounds, when no component of its relative path is excluded (dot-,
//! underscore- or `~$`-prefixed), and when its name is selected: its
//! extension, lower-cased, is one of the configured ones, or else the name
//! matches the configured pattern.
use vstd::prelude::*;
use crate::fingerprint::LocalFile;
use crate::text::{lower_of, lowercase, push_copy};

verus! {

#[verifier::external_type_specification]
#[verifier::external_body]
pub struct ExRegex(regex::Regex);

#[verifier::external_type_specification]
#[verifier::external_body]
pub struct ExRegexError(regex::Error);

/// Whether a pattern compiles.
pub uninterp spec fn regex_valid(pattern: Seq<char>) -> bool;

/// Whether the regular expression `pattern` matches somewhere in `text`.
pub uninterp spec fn regex_matches(pattern: Seq<char>, text: Seq<char>) -> bool;

/// Relies on `regex::Regex::new`: it fails exactly on the patterns that do
/// not compile, which depends on the pattern alone.
#[verifier::external_body]
fn compile_regex(pattern: &str) -> (r: Result<regex::Regex, regex::Error>)
    ensures
        r is Ok <==> regex_valid(pattern@),
{
    regex::Regex::new(pattern)
}

/// A compiled file-name pattern, with the text it was compiled from.
pub struct NamePattern {
    source: String,
    compiled: regex::Regex,
}

/// Relies on `regex::Regex::is_match`: whether the pattern matches anywhere
/// in the text. The pattern's compiled form is only ever built from its
/// source text, by `NamePattern::new`.
#[verifier::external_body]
fn pattern_is_match(p: &NamePattern, text: &str) -> (r: bool)
    ensures
        r == regex_matches(p.source(), text@),
{
    p.compiled.is_match(text)
}

impl NamePattern {
    /// The text the pattern was compiled from.
    pub closed spec fn source(&self) -> Seq<char> {
        self.source@
    }

    /// Compiles a pattern; `None` when it does not compile.
    pub fn new(pattern: &str) -> (r: Option<NamePattern>)
        ensures
            r is Some <==> regex_valid(pattern@),
            r is Some ==> r->0.source() == pattern@,
    {
        match compile_regex(pattern) {
            Ok(compiled) => Some(NamePattern { source: String::from_str(pattern), compiled }),
            Err(_) => None,
        }
    }

    /// Whether the pattern matches somewhere in `text`.
    pub fn is_match(&self, text: &str) -> (r: bool)
        ensures
            r == regex_matches(self.source(), text@),
    {
        pattern_is_match(self, text)
    }
}

/// Names that are never cataloged, nor descended into: hidden (`.`),
/// private (`_`) and office lock files (`~$`).
pub open spec fn is_excluded_name(name: Seq<char>) -> bool {
    ||| (name.len() >= 1 && (name[0] == '.' || name[0] == '_'))
    ||| (name.len() >= 2 && name[0] == '~' && name[1] == '$')
}

/// Whether a name is excluded (see `is_excluded_name`).
pub fn is_hidden(name: &str) -> (r: bool)
    ensures
        r == is_excluded_name(name@),
{
    let n = name.unicode_len();
    if n == 0 {
        return false;
    }
    let c0 = name.get_char(0);
    if c0 == '.' || c0 == '_' {
        return true;
    }
    n >= 2 && c0 == '~' && name.get_char(1) == '$'
}

/// The index of the last `c` in `s`, or -1.
pub open spec fn last_index_of(s: Seq<char>, c: char) -> int
    decreases s.len(),
{
    if s.len() == 0 {
        -1
    } else if s.last() == c {
        s.len() - 1
    } else {
        last_index_of(s.drop_last(), c)
    }
}

/// The extension of a file name: what follows its last dot, when that dot
/// is not the name's first character.
pub open spec fn extension_of(name: Seq<char>) -> Option<Seq<char>> {
    let i = last_index_of(name, '.');
    if i <= 0 {
        None
    } else {
        Some(name.subrange(i + 1, name.len() as int))
    }
}

proof fn lemma_last_index_bounds(s: Seq<char>, c: char)
    ensures
        -1 <= last_index_of(s, c) < s.len(),
    decreases s.len(),
{
    if s.len() > 0 {
        lemma_last_index_bounds(s.drop_last(), c);
    }
}

/// The extension of a file name (see `extension_of`).
pub fn extension(name: &str) -> (r: Option<String>)
    ensures
        r is Some <==> extension_of(name@) is Some,
        r is Some ==> r->0@ == extension_of(name@)->0,
{
    let n = name.unicode_len();
    let mut last: Option<usize> = None;
    let mut i: usize = 0;
    while i < n
        invariant
            n == name@.len(),
            i <= n,
            match last {
                Some(k) => k == last_index_of(name@.subrange(0, i as int), '.'),
                None => last_index_of(name@.subrange(0, i as int), '.') == -1,
            },
        decreases n - i,
    {
        assert(name@.subrange(0, i + 1).drop_last() =~= name@.subrange(0, i as int));
        if name.get_char(i) == '.' {
            last = Some(i);
        }
        i = i + 1;
    }
    assert(name@.subrange(0, n as int) =~= name@);
    proof {
        lemma_last_index_bounds(name@, '.');
    }
    match last {
        Some(k) => if k == 0 {
            None
        } else {
            Some(String::from_str(name.substring_char(k + 1, n)))
        },
        None => None,
    }
}

/// Which names a scan selects, and within which depths.
pub struct ScanFilter {
    /// Accepted extensions, compared with the lower-cased extension.
    pub exts: Vec<String>,
    /// The file-name pattern, when one was given and it compiles.
    pub pattern: Option<NamePattern>,
    pub min_depth: Option<usize>,
    pub max_depth: Option<usize>,
}

impl ScanFilter {
    /// A filter; a pattern that does not compile is left out, so that it
    /// matches nothing (see `has_invalid_pattern`).
    pub fn new(exts: Vec<String>, regex: Option<&str>, min_depth: Option<usize>, max_depth: Option<usize>) -> (r: ScanFilter)
        ensures
            r.exts == exts,
            r.min_depth == min_depth,
            r.max_depth == max_depth,
            r.pattern is Some <==> (regex is Some && regex_valid(regex->0@)),
            r.pattern is Some ==> r.pattern->0.source() == regex->0@,
    {
        let pattern = match regex {
            Some(p) => NamePattern::new(p),
            None => None,
        };
        ScanFilter { exts, pattern, min_depth, max_depth }
    }

    /// Whether a pattern was given that does not compile; the scan then goes
    /// on as if none had been given, and the caller warns.
    pub fn has_invalid_pattern(regex: Option<&str>) -> (r: bool)
        ensures
            r == (regex is Some && !regex_valid(regex->0@)),
    {
        match regex {
            Some(p) => NamePattern::new(p).is_none(),
            None => false,
        }
    }

    /// Whether an extension, already lower-cased, is one of the accepted
    /// ones.
    pub fn accepts_extension(&self, lower_ext: &String) -> (r: bool)
        ensures
            r == self.exts.deep_view().contains(lower_ext@),
    {
        contains_string(&self.exts, lower_ext)
    }

    /// The pattern's source text, as a specification value.
    pub open spec fn pattern_source(&self) -> Option<Seq<char>> {
        match self.pattern {
            Some(p) => Some(p.source()),
            None => None,
        }
    }
}

/// Whether a name is selected: by its lower-cased extension first, else by
/// the pattern.
pub open spec fn name_selected(exts: Seq<Seq<char>>, pattern: Option<Seq<char>>, name: Seq<char>) -> bool {
    ||| (extension_of(name) is Some && exts.contains(lower_of(extension_of(name)->0)))
    ||| (pattern is Some && regex_matches(pattern->0, name))
}

/// Whether a depth lies within the optional bounds.
pub open spec fn depth_within(min_depth: Option<usize>, max_depth: Option<usize>, depth: int) -> bool {
    &&& (min_depth is Some ==> min_depth->0 <= depth)
    &&& (max_depth is Some ==> depth <= max_depth->0)
}

/// An entry of a walk under a source root.
pub struct ScanEntry {
    /// The path relative to the root, as components.
    pub rel: Vec<String>,
    pub is_file: bool,
}

/// Whether an entry is kept by a filter.
pub open spec fn entry_kept(f: ScanFilter, rel: Seq<Seq<char>>, is_file: bool) -> bool {
    &&& is_file
    &&& rel.len() > 0
    &&& depth_within(f.min_depth, f.max_depth, rel.len() as int)
    &&& forall|i: int| 0 <= i < rel.len() ==> !is_excluded_name(#[trigger] rel[i])
    &&& name_selected(f.exts.deep_view(), f.pattern_source(), rel.last())
}

/// The absolute paths of the kept entries, in walk order, each path once.
pub open spec fn kept_paths(f: ScanFilter, root: Seq<Seq<char>>, entries: Seq<ScanEntry>) -> Seq<Seq<Seq<char>>>
    decreases entries.len(),
{
    if entries.len() == 0 {
        seq![]
    } else {
        let prev = kept_paths(f, root, entries.drop_last());
        let e = entries.last();
        let full = root + e.rel.deep_view();
        if entry_kept(f, e.rel.deep_view(), e.is_file) && !prev.contains(full) {
            prev.push(full)
        } else {
            prev
        }
    }
}

/// Whether `exts` holds `ext`.
fn contains_string(exts: &Vec<String>, ext: &String) -> (r: bool)
    ensures
        r == exts.deep_view().contains(ext@),
{
    let mut i: usize = 0;
    while i < exts.len()
        invariant
            i <= exts.len(),
            forall|j: int| 0 <= j < i ==> exts.deep_view()[j] != ext@,
        decreases exts.len() - i,
    {
        if exts[i] == *ext {
            assert(exts.deep_view()[i as int] == ext@);
            return true;
        }
        i = i + 1;
    }
    false
}

/// Whether a name is selected by a filter (see `name_selected`).
pub fn select_name(f: &ScanFilter, name: &str) -> (r: bool)
    ensures
        r == name_selected(f.exts.deep_view(), f.pattern_source(), name@),
{
    match extension(name) {
        Some(ext) => {
            let lower = lowercase(ext.as_str());
            if f.accepts_extension(&lower) {
                return true;
            }
        },
        None => {},
    }
    match &f.pattern {
        Some(p) => p.is_match(name),
        None => false,
    }
}

fn depth_ok(f: &ScanFilter, depth: usize) -> (r: bool)
    ensures
        r == depth_within(f.min_depth, f.max_depth, depth as int),
{
    let lo = match f.min_depth {
        Some(m) => m <= depth,
        None => true,
    };
    let hi = match f.max_depth {
        Some(m) => depth <= m,
        None => true,
    };
    lo && hi
}

/// Whether an entry is kept (see `entry_kept`).
pub fn keep_entry(f: &ScanFilter, e: &ScanEntry) -> (r: bool)
    ensures
        r == entry_kept(*f, e.rel.deep_view(), e.is_file),
{
    let n = e.rel.len();
    if !e.is_file || n == 0 || !depth_ok(f, n) {
        return false;
    }
    let mut i: usize = 0;
    while i < n
        invariant
            n == e.rel.len(),
            i <= n,
            forall|j: int| 0 <= j < i ==> !is_excluded_name(#[trigger] e.rel.deep_view()[j]),
        decreases n - i,
    {
        if is_hidden(e.rel[i].as_str()) {
            assert(is_excluded_name(e.rel.deep_view()[i as int]));
            return false;
        }
        i = i + 1;
    }
    select_name(f, e.rel[n - 1].as_str())
}

/// Whether two paths are the same.
pub fn same_path(a: &Vec<String>, b: &Vec<String>) -> (r: bool)
    ensures
        r == (a.deep_view() == b.deep_view()),
{
    if a.len() != b.len() {
        return false;
    }
    let r = crate::paths::is_under(a, b);
    assert(b.deep_view().subrange(0, a.len() as int) =~= b.deep_view());
    r
}

pub(crate) fn contains_path(paths: &Vec<Vec<String>>, p: &Vec<String>) -> (r: bool)
    ensures
        r == paths.deep_view().contains(p.deep_view()),
{
    let mut i: usize = 0;
    while i < paths.len()
        invariant
            i <= paths.len(),
            forall|j: int| 0 <= j < i ==> paths.deep_view()[j] != p.deep_view(),
        decreases paths.len() - i,
    {
        if same_path(&paths[i], p) {
            assert(paths.deep_view()[i as int] == p.deep_view());
            return true;
        }
        i = i + 1;
    }
    false
}

pub(crate) fn join(root: &Vec<String>, rel: &Vec<String>) -> (r: Vec<String>)
    ensures
        r.deep_view() == root.deep_view() + rel.deep_view(),
{
    let mut out: Vec<String> = Vec::new();
    let mut i: usize = 0;
    while i < root.len()
        invariant
            i <= root.len(),
            out.deep_view() == root.deep_view().subrange(0, i as int),
        decreases root.len() - i,
    {
        push_copy(&mut out, &root[i]);
        assert(out.deep_view() =~= root.deep_view().subrange(0, i + 1));
        i = i + 1;
    }
    let mut k: usize = 0;
    while k < rel.len()
        invariant
            k <= rel.len(),
            out.deep_view() == root.deep_view() + rel.deep_view().subrange(0, k as int),
        decreases rel.len() - k,
    {
        push_copy(&mut out, &rel[k]);
        assert(out.deep_view() =~= root.deep_view() + rel.deep_view().subrange(0, k + 1));
        k = k + 1;
    }
    assert(root.deep_view().subrange(0, root.len() as int) =~= root.deep_view());
    assert(rel.deep_view().subrange(0, rel.len() as int) =~= rel.deep_view());
    out
}

/// Scans the entries of a walk under `root`: the absolute paths of the kept
/// entries, in walk order, each path once.
pub fn file_moniter(root: &Vec<String>, entries: &Vec<ScanEntry>, f: &ScanFilter) -> (r: Vec<Vec<String>>)
    ensures
        r.deep_view() == kept_paths(*f, root.deep_view(), entries@),
{
    let mut out: Vec<Vec<String>> = Vec::new();
    let mut i: usize = 0;
    while i < entries.len()
        invariant
            i <= entries.len(),
            out.deep_view() == kept_paths(*f, root.deep_view(), entries@.subrange(0, i as int)),
        decreases entries.len() - i,
    {
        let e = &entries[i];
        assert(entries@.subrange(0, i + 1).drop_last() =~= entries@.subrange(0, i as int));
        if keep_entry(f, e) {
            let full = join(root, &e.rel);
            if !contains_path(&out, &full) {
                let ghost before = out.deep_view();
                out.push(full);
                assert(out.deep_view() =~= before.push(root.deep_view() + e.rel.deep_view()));
            }
        }
        i = i + 1;
    }
    assert(entries@.subrange(0, entries.len() as int) =~= entries@);
    out
}

/// Manager of a folder from which files are scanned.
pub struct LocalSourceManager {
    /// The canonical root of the scan, as components.
    pub base_path: Vec<String>,
}

impl LocalSourceManager {
    /// The cataloged files of a walk under this root: one per kept path, in
    /// walk order, tagged with `root_index` and with nothing cached.
    pub fn get_files(&self, root_index: usize, entries: &Vec<ScanEntry>, f: &ScanFilter) -> (r: Vec<LocalFile>)
        ensures
            r.len() == kept_paths(*f, self.base_path.deep_view(), entries@).len(),
            forall|i: int|
                0 <= i < r.len() ==> (#[trigger] r[i]).path.deep_view() == kept_paths(
                    *f,
                    self.base_path.deep_view(),
                    entries@,
                )[i] && r[i].root == root_index && r[i].cached() is None,
    {
        let paths = file_moniter(&self.base_path, entries, f);
        let ghost kept = paths.deep_view();
        let mut out: Vec<LocalFile> = Vec::new();
        let mut i: usize = 0;
        while i < paths.len()
            invariant
                i <= paths.len(),
                kept == paths.deep_view(),
                out.len() == i,
                forall|j: int|
                    0 <= j < i ==> (#[trigger] out[j]).path.deep_view() == kept[j] && out[j].root
                        == root_index && out[j].cached() is None,
            decreases paths.len() - i,
        {
            let p = join(&Vec::new(), &paths[i]);
            assert(p.deep_view() =~= paths.deep_view()[i as int]);
            out.push(LocalFile::new(p, root_index));
            i = i + 1;
        }
        out
    }
}

} // verus!
