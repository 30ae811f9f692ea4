//! Content fingerprints: the lower-case hex SHA-256 digest of a file's bytes,
//! and the lazily filled cache that a cataloged file keeps of it.
use vstd::prelude::*;
use crate::text::push_char;

verus! {

/// The SHA-256 digest of a byte sequence.
pub uninterp spec fn sha256_of(data: Seq<u8>) -> Seq<u8>;

/// Relies on `sha2::Sha256::digest` (through the `sha2::Digest` trait): the
/// 32-byte SHA-256 digest of the data, which depends on the data alone.
#[verifier::external_body]
fn sha256_digest(data: &[u8]) -> (r: Vec<u8>)
    ensures
        r@ == sha256_of(data@),
        r@.len() == 32,
{
    <sha2::Sha256 as sha2::Digest>::digest(data).to_vec()
}

/// The sixteen lower-case hex digits, in order.
pub open spec fn hex_digits() -> Seq<char> {
    seq!['0', '1', '2', '3', '4', '5', '6', '7', '8', '9', 'a', 'b', 'c', 'd', 'e', 'f']
}

/// Two lower-case hex digits per byte, high half first.
pub open spec fn hex_of(data: Seq<u8>) -> Seq<char>
    decreases data.len(),
{
    if data.len() == 0 {
        seq![]
    } else {
        let b = data.last();
        hex_of(data.drop_last()) + seq![hex_digits()[(b / 16) as int], hex_digits()[(b % 16) as int]]
    }
}

/// The fingerprint of a file's contents: its SHA-256 digest in lower-case hex.
pub open spec fn fingerprint_of(data: Seq<u8>) -> Seq<char> {
    hex_of(sha256_of(data))
}

fn hex_digit(n: u8) -> (c: char)
    requires
        n < 16,
    ensures
        c == hex_digits()[n as int],
{
    let digits: [char; 16] = ['0', '1', '2', '3', '4', '5', '6', '7', '8', '9', 'a', 'b', 'c', 'd', 'e', 'f'];
    assert(digits@ =~= hex_digits());
    digits[n as usize]
}

/// Encodes bytes as lower-case hex, two digits per byte.
pub fn to_hex(data: &[u8]) -> (r: String)
    ensures
        r@ == hex_of(data@),
{
    let mut out = String::new();
    let mut i: usize = 0;
    while i < data.len()
        invariant
            i <= data@.len(),
            out@ == hex_of(data@.subrange(0, i as int)),
        decreases data@.len() - i,
    {
        let b = data[i];
        push_char(&mut out, hex_digit(b / 16));
        push_char(&mut out, hex_digit(b % 16));
        assert(data@.subrange(0, i + 1).drop_last() =~= data@.subrange(0, i as int));
        assert(out@ =~= hex_of(data@.subrange(0, i + 1)));
        i = i + 1;
    }
    assert(data@.subrange(0, data@.len() as int) =~= data@);
    out
}

/// The fingerprint of a byte sequence (see `fingerprint_of`).
pub fn fingerprint(data: &[u8]) -> (r: String)
    ensures
        r@ == fingerprint_of(data@),
        r@.len() == 64,
{
    let digest = sha256_digest(data);
    proof {
        lemma_hex_len(digest@);
    }
    to_hex(digest.as_slice())
}

/// Hashing the same bytes twice gives the same fingerprint.
pub proof fn lemma_fingerprint_stable(a: Seq<u8>, b: Seq<u8>)
    requires
        a == b,
    ensures
        fingerprint_of(a) == fingerprint_of(b),
{
}

proof fn lemma_hex_len(data: Seq<u8>)
    ensures
        hex_of(data).len() == 2 * data.len(),
    decreases data.len(),
{
    if data.len() > 0 {
        lemma_hex_len(data.drop_last());
    }
}

/// Why a fingerprint could not be computed.
#[derive(Clone, Copy, Debug, PartialEq, Eq, Structural)]
pub enum HashError {
    /// The file vanished between discovery and hashing.
    NotFound,
    /// Reading the file failed.
    IoFailure,
    /// The remote digest command exited with a non-zero code.
    RemoteExecutionFailed { exit_code: i32 },
    /// The remote channel closed or its read failed.
    ConnectionLost,
}

/// What a fingerprint computation yields from the outcome of reading the
/// bytes: the fingerprint of what was read, or the read's own error.
pub open spec fn digest_outcome(read: Result<Vec<u8>, HashError>, r: Result<String, HashError>) -> bool {
    match read {
        Ok(bytes) => r is Ok && r->Ok_0@ == fingerprint_of(bytes@),
        Err(e) => r == Err::<String, HashError>(e),
    }
}

/// A file found by a scan, with its lazily computed fingerprint.
///
/// The fingerprint is computed on demand and kept for the life of this value
/// only; a new scan builds new values.
pub struct LocalFile {
    /// The file's absolute path, as components.
    pub path: Vec<String>,
    /// The index of the source root the file was found under.
    pub root: usize,
    /// The fingerprint computed so far, if any.
    pub sha256: Option<String>,
}

impl LocalFile {
    /// The cached fingerprint, if one was computed.
    pub open spec fn cached(&self) -> Option<Seq<char>> {
        match self.sha256 {
            Some(s) => Some(s@),
            None => None,
        }
    }

    /// A file with nothing cached yet.
    pub fn new(path: Vec<String>, root: usize) -> (r: LocalFile)
        ensures
            r.path == path,
            r.root == root,
            r.cached() is None,
    {
        LocalFile { path, root, sha256: None }
    }

    /// The cached fingerprint, if any.
    pub fn cached_sha256(&self) -> (r: Option<String>)
        ensures
            r is Some <==> self.cached() is Some,
            r is Some ==> self.cached() == Some(r->0@),
    {
        match &self.sha256 {
            Some(s) => Some(s.clone()),
            None => None,
        }
    }

    /// Computes the fingerprint again from the bytes that `read` returns, and
    /// overwrites the cache with it. On a read error the cache is left as it
    /// was and the error is returned.
    pub fn get_new_sha256<F>(&mut self, read: F) -> (r: Result<String, HashError>)
        where
            F: FnOnce() -> Result<Vec<u8>, HashError>,
        requires
            call_requires(read, ()),
        ensures
            exists|res: Result<Vec<u8>, HashError>|
                call_ensures(read, (), res) && #[trigger] digest_outcome(res, r),
            final(self).path == old(self).path,
            final(self).root == old(self).root,
            r is Ok ==> final(self).cached() == Some(r->Ok_0@),
            r is Err ==> final(self).cached() == old(self).cached(),
    {
        let res = read();
        match res {
            Ok(bytes) => {
                let h = fingerprint(bytes.as_slice());
                let r: Result<String, HashError> = Ok(h.clone());
                self.sha256 = Some(h);
                assert(digest_outcome(Ok(bytes), r));
                r
            },
            Err(e) => {
                assert(digest_outcome(Err(e), Err(e)));
                Err(e)
            },
        }
    }

    /// The cached fingerprint when there is one; otherwise it is computed from
    /// the bytes that `read` returns and cached. `read` is not called when a
    /// value is cached.
    pub fn get_sha256<F>(&mut self, read: F) -> (r: Result<String, HashError>)
        where
            F: FnOnce() -> Result<Vec<u8>, HashError>,
        requires
            call_requires(read, ()),
        ensures
            old(self).cached() is Some ==> r is Ok && old(self).cached() == Some(r->Ok_0@)
                && final(self).cached() == old(self).cached(),
            old(self).cached() is None ==> exists|res: Result<Vec<u8>, HashError>|
                call_ensures(read, (), res) && #[trigger] digest_outcome(res, r),
            final(self).path == old(self).path,
            final(self).root == old(self).root,
            r is Ok ==> final(self).cached() == Some(r->Ok_0@),
            r is Err ==> final(self).cached() is None,
    {
        match &self.sha256 {
            Some(s) => Ok(s.clone()),
            None => self.get_new_sha256(read),
        }
    }
}

/// Two fingerprints match only when both are known and equal: a missing
/// fingerprint matches nothing.
pub open spec fn fingerprints_match(a: Option<Seq<char>>, b: Option<Seq<char>>) -> bool {
    a is Some && b is Some && a->0 == b->0
}

/// Compares two optional fingerprints (see `fingerprints_match`).
pub fn same_fingerprint(a: &Option<String>, b: &Option<String>) -> (r: bool)
    ensures
        r == fingerprints_match(
            match a { Some(s) => Some(s@), None => None },
            match b { Some(s) => Some(s@), None => None },
        ),
{
    match (a, b) {
        (Some(x), Some(y)) => *x == *y,
        _ => false,
    }
}

/// A path and the fingerprint of its contents.
pub struct HashEntry {
    pub path: String,
    pub sha256: String,
}

/// Fingerprints each file: entry `i` pairs `paths[i]` with the fingerprint of
/// `contents[i]`.
pub fn get_hashes(paths: &Vec<String>, contents: &Vec<Vec<u8>>) -> (r: Vec<HashEntry>)
    requires
        paths.len() == contents.len(),
    ensures
        r.len() == paths.len(),
        forall|i: int|
            0 <= i < r.len() ==> (#[trigger] r[i]).path@ == paths[i]@ && r[i].sha256@
                == fingerprint_of(contents[i]@),
{
    let mut out: Vec<HashEntry> = Vec::new();
    let mut i: usize = 0;
    while i < paths.len()
        invariant
            paths.len() == contents.len(),
            i <= paths.len(),
            out.len() == i,
            forall|j: int|
                0 <= j < i ==> (#[trigger] out[j]).path@ == paths[j]@ && out[j].sha256@
                    == fingerprint_of(contents[j]@),
        decreases paths.len() - i,
    {
        let h = fingerprint(contents[i].as_slice());
        out.push(HashEntry { path: paths[i].clone(), sha256: h });
        i = i + 1;
    }
    out
}

} // verus!
