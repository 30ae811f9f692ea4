//! Where a cataloged file lands on a destination.
//!
//! Paths are handled as sequences of components: an absolute path is the list
//! of names below the file-system root, so the root itself is the empty list.
use vstd::prelude::*;
use crate::text::{push_char, push_copy};

verus! {

/// Characters kept as they are in a root label.
pub open spec fn is_safe_char(c: char) -> bool {
    ||| ('a' <= c && c <= 'z')
    ||| ('A' <= c && c <= 'Z')
    ||| ('0' <= c && c <= '9')
    ||| c == '-'
    ||| c == '_'
    ||| c == '.'
    ||| c == ' '
}

/// A safe character stays, any other becomes `_`.
pub open spec fn sanitize_char(c: char) -> char {
    if is_safe_char(c) {
        c
    } else {
        '_'
    }
}

/// The name with every unsafe character replaced by `_`.
pub open spec fn sanitized(s: Seq<char>) -> Seq<char> {
    s.map_values(|c: char| sanitize_char(c))
}

/// The label under which a root's files land: the root's last component,
/// sanitized; `_` for the file-system root, which has no name.
pub open spec fn root_label_of(root: Seq<Seq<char>>) -> Seq<char> {
    if root.len() == 0 {
        seq!['_']
    } else {
        sanitized(root.last())
    }
}

/// Whether `p` is a leading part of `s`, component by component.
pub open spec fn is_path_prefix(s: Seq<Seq<char>>, p: Seq<Seq<char>>) -> bool {
    p.len() <= s.len() && s.subrange(0, p.len() as int) == p
}

/// The path of `file` below `root`.
pub open spec fn relative_to(root: Seq<Seq<char>>, file: Seq<Seq<char>>) -> Seq<Seq<char>> {
    file.subrange(root.len() as int, file.len() as int)
}

/// The destination path of `file` found under `root`: the root's label, then
/// the file's path below the root.
pub open spec fn destination_of(root: Seq<Seq<char>>, file: Seq<Seq<char>>) -> Seq<Seq<char>> {
    seq![root_label_of(root)] + relative_to(root, file)
}

/// A component of a canonical path: not empty, not `.` and not `..`.
pub open spec fn is_plain_component(c: Seq<char>) -> bool {
    c.len() > 0 && c != seq!['.'] && c != seq!['.', '.']
}

/// A canonical path: every component is plain.
pub open spec fn is_canonical(p: Seq<Seq<char>>) -> bool {
    forall|i: int| 0 <= i < p.len() ==> is_plain_component(#[trigger] p[i])
}

/// Whether a path holds a parent-directory (`..`) segment.
pub open spec fn has_traversal(p: Seq<Seq<char>>) -> bool {
    exists|i: int| 0 <= i < p.len() && #[trigger] p[i] == seq!['.', '.']
}

fn is_safe(c: char) -> (r: bool)
    ensures
        r == is_safe_char(c),
{
    ('a' <= c && c <= 'z') || ('A' <= c && c <= 'Z') || ('0' <= c && c <= '9') || c == '-'
        || c == '_' || c == '.' || c == ' '
}

/// Replaces every character outside the safe set (ASCII letters and digits,
/// `-`, `_`, `.`, space) by `_`.
pub fn sanitize(name: &str) -> (r: String)
    ensures
        r@ == sanitized(name@),
{
    let n = name.unicode_len();
    let mut out = String::new();
    let mut i: usize = 0;
    while i < n
        invariant
            n == name@.len(),
            i <= n,
            out@ == sanitized(name@.subrange(0, i as int)),
        decreases n - i,
    {
        let c = name.get_char(i);
        if is_safe(c) {
            push_char(&mut out, c);
        } else {
            push_char(&mut out, '_');
        }
        assert(name@.subrange(0, i + 1) =~= name@.subrange(0, i as int).push(c));
        assert(sanitized(name@.subrange(0, i + 1)) =~= sanitized(name@.subrange(0, i as int)).push(
            sanitize_char(c),
        ));
        i = i + 1;
    }
    assert(name@.subrange(0, n as int) =~= name@);
    out
}

/// The label of a source root (see `root_label_of`).
pub fn root_label(root: &Vec<String>) -> (r: String)
    ensures
        r@ == root_label_of(root.deep_view()),
{
    let n = root.len();
    if n == 0 {
        let mut s = String::new();
        push_char(&mut s, '_');
        assert(s@ =~= seq!['_']);
        s
    } else {
        sanitize(root[n - 1].as_str())
    }
}

/// Whether `root` is a leading part of `file`.
pub fn is_under(root: &Vec<String>, file: &Vec<String>) -> (r: bool)
    ensures
        r == is_path_prefix(file.deep_view(), root.deep_view()),
{
    let n = root.len();
    if n > file.len() {
        return false;
    }
    let mut i: usize = 0;
    while i < n
        invariant
            n == root.len(),
            n <= file.len(),
            i <= n,
            forall|j: int| 0 <= j < i ==> file.deep_view()[j] == root.deep_view()[j],
        decreases n - i,
    {
        if file[i] != root[i] {
            assert(file.deep_view().subrange(0, n as int)[i as int] != root.deep_view()[i as int]);
            return false;
        }
        i = i + 1;
    }
    assert(file.deep_view().subrange(0, n as int) =~= root.deep_view());
    true
}

/// The path of `file` below `root`, or `None` when `file` does not lie under
/// `root`. The prefix is stripped whole: nothing is truncated on a mismatch.
pub fn strip_root(root: &Vec<String>, file: &Vec<String>) -> (r: Option<Vec<String>>)
    ensures
        r is Some <==> is_path_prefix(file.deep_view(), root.deep_view()),
        r is Some ==> r->0.deep_view() == relative_to(root.deep_view(), file.deep_view()),
{
    if !is_under(root, file) {
        return None;
    }
    let mut out: Vec<String> = Vec::new();
    let mut i: usize = root.len();
    while i < file.len()
        invariant
            root.len() <= i <= file.len(),
            out.deep_view() == file.deep_view().subrange(root.len() as int, i as int),
        decreases file.len() - i,
    {
        push_copy(&mut out, &file[i]);
        assert(out.deep_view() =~= file.deep_view().subrange(root.len() as int, i + 1));
        i = i + 1;
    }
    Some(out)
}

/// The destination path of a file found under a source root: the root's
/// sanitized label followed by the file's path below the root. `None` when
/// the file does not lie under the root.
pub fn destination_path(root: &Vec<String>, file: &Vec<String>) -> (r: Option<Vec<String>>)
    ensures
        r is Some <==> is_path_prefix(file.deep_view(), root.deep_view()),
        r is Some ==> r->0.deep_view() == destination_of(root.deep_view(), file.deep_view()),
{
    match strip_root(root, file) {
        None => None,
        Some(rel) => {
            let label = root_label(root);
            let mut out: Vec<String> = Vec::new();
            push_copy(&mut out, &label);
            let mut i: usize = 0;
            while i < rel.len()
                invariant
                    i <= rel.len(),
                    out.deep_view() == seq![root_label_of(root.deep_view())] + rel.deep_view().subrange(0, i as int),
                decreases rel.len() - i,
            {
                push_copy(&mut out, &rel[i]);
                assert(out.deep_view() =~= seq![root_label_of(root.deep_view())] + rel.deep_view().subrange(0, i + 1));
                i = i + 1;
            }
            assert(rel.deep_view().subrange(0, rel.len() as int) =~= rel.deep_view());
            Some(out)
        },
    }
}

proof fn lemma_sanitized_dots(s: Seq<char>)
    requires
        sanitized(s) == seq!['.', '.'],
    ensures
        s == seq!['.', '.'],
{
    assert(sanitized(s).len() == s.len());
    assert(sanitize_char(s[0]) == '.');
    assert(sanitize_char(s[1]) == '.');
    assert(s =~= seq!['.', '.']);
}

/// For a file strictly inside a source root, both paths canonical, the
/// destination path starts with the root's label and holds no `..` segment.
pub proof fn lemma_destination_is_safe(root: Seq<Seq<char>>, file: Seq<Seq<char>>)
    requires
        is_canonical(root),
        is_canonical(file),
        is_path_prefix(file, root),
        root.len() < file.len(),
    ensures
        destination_of(root, file)[0] == root_label_of(root),
        !has_traversal(destination_of(root, file)),
{
    let d = destination_of(root, file);
    if root.len() > 0 {
        assert(is_plain_component(root[root.len() - 1]));
        if root_label_of(root) == seq!['.', '.'] {
            lemma_sanitized_dots(root.last());
        }
    } else {
        assert(seq!['_'] != seq!['.', '.']) by {
            assert(seq!['_'].len() != seq!['.', '.'].len());
        }
    }
    assert forall|i: int| 0 <= i < d.len() implies #[trigger] d[i] != seq!['.', '.'] by {
        if i > 0 {
            assert(d[i] == file[root.len() + i - 1]);
            assert(is_plain_component(file[root.len() + i - 1]));
        }
    }
}

/// Two files found at the same path below two source roots whose labels
/// differ land on two different destination paths.
pub proof fn lemma_distinct_roots_do_not_collide(
    root1: Seq<Seq<char>>,
    file1: Seq<Seq<char>>,
    root2: Seq<Seq<char>>,
    file2: Seq<Seq<char>>,
)
    requires
        is_path_prefix(file1, root1),
        is_path_prefix(file2, root2),
        relative_to(root1, file1) == relative_to(root2, file2),
        root_label_of(root1) != root_label_of(root2),
    ensures
        destination_of(root1, file1) != destination_of(root2, file2),
{
    assert(destination_of(root1, file1)[0] != destination_of(root2, file2)[0]);
}

} // verus!
