//! The decisions of a poll cycle: which source roots take part, which
//! destinations are configured, and which files changed since the last
//! cycle.
use vstd::prelude::*;
use crate::catalog::{contains_path, join, LocalSourceManager};
use crate::config::{ServerParams, UploadTarget};
use crate::fingerprint::HashEntry;
use crate::session::{credential_error, credential_from, resolve_credential, ConfigError, Credential};
use crate::text::push_char;

verus! {

/// Whether `new` differs from every entry recorded last time: no recorded
/// entry has both its path and its fingerprint.
pub open spec fn is_changed(old: Seq<HashEntry>, e: HashEntry) -> bool {
    !exists|j: int| 0 <= j < old.len() && (#[trigger] old[j]).path@ == e.path@ && old[j].sha256@ == e.sha256@
}

/// The paths of the entries of `new` that changed, in order.
pub open spec fn changed_paths(old: Seq<HashEntry>, new: Seq<HashEntry>) -> Seq<Seq<char>>
    decreases new.len(),
{
    if new.len() == 0 {
        seq![]
    } else {
        let prev = changed_paths(old, new.drop_last());
        if is_changed(old, new.last()) {
            prev.push(new.last().path@)
        } else {
            prev
        }
    }
}

fn changed(old: &Vec<HashEntry>, e: &HashEntry) -> (r: bool)
    ensures
        r == is_changed(old@, *e),
{
    let mut j: usize = 0;
    while j < old.len()
        invariant
            j <= old.len(),
            forall|k: int| 0 <= k < j ==> !((#[trigger] old@[k]).path@ == e.path@ && old@[k].sha256@ == e.sha256@),
        decreases old.len() - j,
    {
        if old[j].path == e.path && old[j].sha256 == e.sha256 {
            return false;
        }
        j = j + 1;
    }
    true
}

/// The paths whose fingerprint is new or differs from the one recorded last
/// time, in the order of `new`.
pub fn get_changed_files(old: &Vec<HashEntry>, new: &Vec<HashEntry>) -> (r: Vec<String>)
    ensures
        r.deep_view() == changed_paths(old@, new@),
{
    let mut out: Vec<String> = Vec::new();
    let mut i: usize = 0;
    while i < new.len()
        invariant
            i <= new.len(),
            out.deep_view() == changed_paths(old@, new@.subrange(0, i as int)),
        decreases new.len() - i,
    {
        assert(new@.subrange(0, i + 1).drop_last() =~= new@.subrange(0, i as int));
        if changed(old, &new[i]) {
            crate::text::push_copy(&mut out, &new[i].path);
        }
        i = i + 1;
    }
    assert(new@.subrange(0, new.len() as int) =~= new@);
    out
}

/// A candidate source root, as the caller found it: its canonical path, or
/// `None` when it could not be resolved, and whether it is a directory.
pub struct RootCandidate {
    pub path: Option<Vec<String>>,
    pub is_dir: bool,
}

/// A mounted volume.
pub struct Volume {
    pub mount_point: Vec<String>,
    pub is_removable: bool,
}

/// A candidate that can serve as a source root.
pub open spec fn root_valid(c: RootCandidate) -> bool {
    c.path is Some && c.is_dir
}

/// A list without its repeated elements, first occurrences kept in order.
pub open spec fn unique(xs: Seq<Seq<Seq<char>>>) -> Seq<Seq<Seq<char>>>
    decreases xs.len(),
{
    if xs.len() == 0 {
        seq![]
    } else {
        let prev = unique(xs.drop_last());
        if prev.contains(xs.last()) {
            prev
        } else {
            prev.push(xs.last())
        }
    }
}

/// The mount points of the removable volumes, in order.
pub open spec fn removable_mounts(vs: Seq<Volume>) -> Seq<Seq<Seq<char>>>
    decreases vs.len(),
{
    if vs.len() == 0 {
        seq![]
    } else {
        let prev = removable_mounts(vs.drop_last());
        if vs.last().is_removable {
            prev.push(vs.last().mount_point.deep_view())
        } else {
            prev
        }
    }
}

/// The paths of a list of valid candidates.
pub open spec fn candidate_paths(cs: Seq<RootCandidate>) -> Seq<Seq<Seq<char>>> {
    Seq::new(cs.len(), |i: int| cs[i].path->0.deep_view())
}

/// The source roots of a cycle: the desktop, then the removable volumes
/// when asked for, then the extra paths, each root once.
pub open spec fn roots_of(desktop: RootCandidate, volumes: Seq<Volume>, usb: bool, extras: Seq<RootCandidate>) -> Seq<Seq<Seq<char>>> {
    unique(
        seq![desktop.path->0.deep_view()] + (if usb {
            removable_mounts(volumes)
        } else {
            seq![]
        }) + candidate_paths(extras),
    )
}

fn push_unique(out: &mut Vec<Vec<String>>, p: &Vec<String>, Ghost(xs): Ghost<Seq<Seq<Seq<char>>>>)
    requires
        old(out).deep_view() == unique(xs),
    ensures
        final(out).deep_view() == unique(xs.push(p.deep_view())),
{
    assert(xs.push(p.deep_view()).drop_last() =~= xs);
    if !contains_path(out, p) {
        let q = join(&Vec::new(), p);
        assert(q.deep_view() =~= p.deep_view());
        let ghost before = out.deep_view();
        out.push(q);
        assert(out.deep_view() =~= before.push(p.deep_view()));
    }
}

/// Resolves the source roots of a cycle (see `roots_of`). A missing
/// desktop, or a desktop or extra path that is not an existing directory,
/// is a configuration error.
pub fn source_roots(desktop: Option<&RootCandidate>, volumes: &Vec<Volume>, usb: bool, extras: &Vec<RootCandidate>) -> (r: Result<Vec<Vec<String>>, ConfigError>)
    ensures
        desktop is None ==> r == Err::<Vec<Vec<String>>, ConfigError>(ConfigError::NoDesktop),
        desktop is Some ==> (r is Ok <==> root_valid(*desktop->0) && forall|i: int|
            0 <= i < extras.len() ==> root_valid(#[trigger] extras@[i])),
        desktop is Some && r is Err ==> r == Err::<Vec<Vec<String>>, ConfigError>(
            ConfigError::InvalidSourcePath,
        ),
        r is Ok ==> r->Ok_0.deep_view() == roots_of(*desktop->0, volumes@, usb, extras@),
{
    let d = match desktop {
        Some(d) => d,
        None => {
            return Err(ConfigError::NoDesktop);
        },
    };
    let dp = match &d.path {
        Some(p) => {
            if !d.is_dir {
                return Err(ConfigError::InvalidSourcePath);
            }
            p
        },
        None => {
            return Err(ConfigError::InvalidSourcePath);
        },
    };
    let mut k: usize = 0;
    while k < extras.len()
        invariant
            desktop == Some(d),
            root_valid(*d),
            k <= extras.len(),
            forall|j: int| 0 <= j < k ==> root_valid(#[trigger] extras@[j]),
        decreases extras.len() - k,
    {
        if extras[k].path.is_none() || !extras[k].is_dir {
            assert(!root_valid(extras@[k as int]));
            return Err(ConfigError::InvalidSourcePath);
        }
        k = k + 1;
    }
    let ghost first = seq![dp.deep_view()];
    let ghost mounts = if usb {
        removable_mounts(volumes@)
    } else {
        seq![]
    };
    let mut out: Vec<Vec<String>> = Vec::new();
    assert(out.deep_view() =~= unique(Seq::empty()));
    push_unique(&mut out, dp, Ghost(Seq::empty()));
    assert(Seq::<Seq<Seq<char>>>::empty().push(dp.deep_view()) =~= first);
    let mut v: usize = 0;
    while v < volumes.len()
        invariant
            v <= volumes.len(),
            out.deep_view() == unique(
                first + (if usb {
                    removable_mounts(volumes@.subrange(0, v as int))
                } else {
                    seq![]
                }),
            ),
        decreases volumes.len() - v,
    {
        assert(volumes@.subrange(0, v + 1).drop_last() =~= volumes@.subrange(0, v as int));
        if usb && volumes[v].is_removable {
            let ghost xs = first + removable_mounts(volumes@.subrange(0, v as int));
            push_unique(&mut out, &volumes[v].mount_point, Ghost(xs));
            assert(xs.push(volumes@[v as int].mount_point.deep_view()) =~= first + removable_mounts(
                volumes@.subrange(0, v + 1),
            ));
        }
        v = v + 1;
    }
    assert(volumes@.subrange(0, volumes.len() as int) =~= volumes@);
    let mut e: usize = 0;
    while e < extras.len()
        invariant
            e <= extras.len(),
            forall|j: int| 0 <= j < extras.len() ==> root_valid(#[trigger] extras@[j]),
            out.deep_view() == unique(first + mounts + candidate_paths(extras@.subrange(0, e as int))),
        decreases extras.len() - e,
    {
        let ghost xs = first + mounts + candidate_paths(extras@.subrange(0, e as int));
        assert(root_valid(extras@[e as int]));
        match &extras[e].path {
            Some(p) => {
                push_unique(&mut out, p, Ghost(xs));
                assert(xs.push(p.deep_view()) =~= first + mounts + candidate_paths(
                    extras@.subrange(0, e + 1),
                ));
            },
            None => {},
        }
        e = e + 1;
    }
    assert(extras@.subrange(0, extras.len() as int) =~= extras@);
    Ok(out)
}

/// A configured destination.
#[derive(Clone, Debug)]
pub enum Backend {
    Local,
    Ssh(Credential),
}

/// The index of the first destination that is not local, or the length.
pub open spec fn first_remote(ts: Seq<UploadTarget>) -> int
    decreases ts.len(),
{
    if ts.len() == 0 {
        0
    } else if ts[0] != UploadTarget::Local {
        0
    } else {
        1 + first_remote(ts.drop_first())
    }
}

proof fn lemma_first_remote(ts: Seq<UploadTarget>, i: int)
    requires
        0 <= i <= ts.len(),
        forall|j: int| 0 <= j < i ==> ts[j] == UploadTarget::Local,
        i == ts.len() || ts[i] != UploadTarget::Local,
    ensures
        first_remote(ts) == i,
    decreases ts.len(),
{
    if ts.len() > 0 && i > 0 {
        lemma_first_remote(ts.drop_first(), i - 1);
    }
}

/// The configuration error of a list of destinations, if any: a remote kind
/// that is not implemented, the credential of the remote destination, or a
/// destination after the remote one, in the order the list is read.
pub open spec fn plan_error(ts: Seq<UploadTarget>, p: ServerParams) -> Option<ConfigError> {
    let i = first_remote(ts);
    if i >= ts.len() {
        None
    } else if ts[i] != UploadTarget::SshServer {
        Some(ConfigError::UnsupportedTarget)
    } else if credential_error(p) is Some {
        credential_error(p)
    } else if i + 1 < ts.len() {
        Some(ConfigError::OnlyOneRemote)
    } else {
        None
    }
}

/// Builds the destinations of a run from the configured kinds, before any
/// network work (see `plan_error`). On success the list holds one local
/// destination per local kind, followed by the remote one when configured.
pub fn plan_backends(targets: &Vec<UploadTarget>, server: &ServerParams) -> (r: Result<Vec<Backend>, ConfigError>)
    ensures
        r is Err <==> plan_error(targets@, *server) is Some,
        r is Err ==> r == Err::<Vec<Backend>, ConfigError>(plan_error(targets@, *server)->0),
        r is Ok ==> r->Ok_0.len() == targets.len(),
        r is Ok ==> forall|i: int|
            #![trigger r->Ok_0@[i]]
            0 <= i < targets.len() ==> (targets@[i] == UploadTarget::Local <==> r->Ok_0@[i] is Local)
                && (r->Ok_0@[i] is Ssh ==> credential_from(r->Ok_0@[i]->Ssh_0, *server)),
{
    let mut out: Vec<Backend> = Vec::new();
    let mut i: usize = 0;
    while i < targets.len() && targets[i] == UploadTarget::Local
        invariant
            i <= targets.len(),
            out.len() == i,
            forall|j: int| 0 <= j < i ==> targets@[j] == UploadTarget::Local && out@[j] is Local,
        decreases targets.len() - i,
    {
        out.push(Backend::Local);
        i = i + 1;
    }
    proof {
        lemma_first_remote(targets@, i as int);
    }
    if i == targets.len() {
        return Ok(out);
    }
    if targets[i] != UploadTarget::SshServer {
        return Err(ConfigError::UnsupportedTarget);
    }
    let cred = match resolve_credential(server) {
        Ok(c) => c,
        Err(e) => {
            return Err(e);
        },
    };
    if i + 1 < targets.len() {
        return Err(ConfigError::OnlyOneRemote);
    }
    let ghost before = out@;
    out.push(Backend::Ssh(cred));
    assert(forall|j: int| 0 <= j < i ==> out@[j] == before[j]);
    Ok(out)
}

/// The folder under which a destination stores files when none is
/// configured: the date, then the home folder's name joined to the host
/// name by `--` (the home folder's name alone when the host name is not
/// known).
pub open spec fn default_folder_of(date: Seq<char>, home: Seq<char>, host: Option<Seq<char>>) -> Seq<Seq<char>> {
    match host {
        Some(h) => seq![date, home + seq!['-', '-'] + h],
        None => seq![date, home],
    }
}

/// Builds the default destination folder (see `default_folder_of`).
pub fn get_default_folder_name(date: &str, home: &str, host: Option<&str>) -> (r: Vec<String>)
    ensures
        r.deep_view() == default_folder_of(date@, home@, match host {
            Some(h) => Some(h@),
            None => None,
        }),
{
    let mut name = String::from_str(home);
    match host {
        Some(h) => {
            push_char(&mut name, '-');
            push_char(&mut name, '-');
            name.append(h);
            assert(name@ =~= home@ + seq!['-', '-'] + h@);
        },
        None => {},
    }
    let mut out: Vec<String> = Vec::new();
    out.push(String::from_str(date));
    out.push(name);
    let ghost expected = default_folder_of(date@, home@, match host {
        Some(h) => Some(h@),
        None => None,
    });
    assert(out.deep_view() =~~= expected);
    out
}

/// Manager of a destination folder on this machine.
pub struct LocalTargetManager {
    /// The folder, relative to the destination's base, as components.
    pub base_path: Vec<String>,
}

impl LocalTargetManager {
    /// The given folder, or `default_folder` when none is given.
    pub fn new(base_path: Option<Vec<String>>, default_folder: Vec<String>) -> (r: LocalTargetManager)
        ensures
            r.base_path == (match base_path {
                Some(p) => p,
                None => default_folder,
            }),
    {
        LocalTargetManager {
            base_path: match base_path {
                Some(p) => p,
                None => default_folder,
            },
        }
    }
}

/// A folder that anchors the paths of its files: a source root, or a
/// destination folder.
pub trait FolderManager {
    /// The folder, as components.
    spec fn base(&self) -> Seq<Seq<char>>;

    /// A copy of the folder's path.
    fn get_base_path(&self) -> (r: Vec<String>)
        ensures
            r.deep_view() == self.base(),
    ;
}

impl FolderManager for LocalSourceManager {
    open spec fn base(&self) -> Seq<Seq<char>> {
        self.base_path.deep_view()
    }

    fn get_base_path(&self) -> (r: Vec<String>) {
        let r = join(&Vec::new(), &self.base_path);
        assert(r.deep_view() =~= self.base_path.deep_view());
        r
    }
}

impl FolderManager for LocalTargetManager {
    open spec fn base(&self) -> Seq<Seq<char>> {
        self.base_path.deep_view()
    }

    fn get_base_path(&self) -> (r: Vec<String>) {
        let r = join(&Vec::new(), &self.base_path);
        assert(r.deep_view() =~= self.base_path.deep_view());
        r
    }
}

} // verus!
