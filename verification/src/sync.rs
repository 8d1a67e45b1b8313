use vstd::prelude::*;
use vstd::string::StringExecFns;

use crate::bundle::{artifact_file_name, artifact_name_seq, bundle_seq, bundle_text, BundleEntry};
use crate::errors::Error;
use crate::ids::{AsstId, FileId};
use crate::strutil::{contains_seq, contains_sub, ends_with, ends_with_seq, str_eq};

verus! {

/// `name` ends with one of the extension suffixes.
pub open spec fn matches_any_ext(name: Seq<char>, exts: Seq<Seq<char>>) -> bool {
    exists|i: int| 0 <= i < exts.len() && ends_with_seq(name, exts[i])
}

/// A file in the private data directory is a stale artifact when it
/// matches the artifact extension patterns and its name does not embed
/// the currently active assistant identity.
pub open spec fn is_stale_spec(name: Seq<char>, exts: Seq<Seq<char>>, asst: Seq<char>) -> bool {
    matches_any_ext(name, exts) && !contains_seq(name, asst)
}

/// Classifies one file name against the extension patterns and the
/// active assistant identity.
pub fn is_stale_artifact(name: &str, exts: &Vec<String>, asst_id: &AsstId) -> (r: bool)
    ensures
        r == is_stale_spec(name@, exts.deep_view(), asst_id@),
{
    let mut matched = false;
    let mut i: usize = 0;
    while i < exts.len()
        invariant
            i <= exts.len(),
            matched == exists|j: int| 0 <= j < i && ends_with_seq(name@, exts.deep_view()[j]),
        decreases exts.len() - i,
    {
        if ends_with(name, exts[i].as_str()) {
            assert(ends_with_seq(name@, exts.deep_view()[i as int]));
            matched = true;
        }
        i = i + 1;
    }
    if !matched {
        return false;
    }
    !contains_sub(name, asst_id.id.as_str())
}

/// Every stale file among `files` resides under the private data
/// directory, recognized by `marker` occurring in its path.
pub open spec fn cleanup_safe(
    files: Seq<Seq<char>>,
    exts: Seq<Seq<char>>,
    asst: Seq<char>,
    marker: Seq<char>,
) -> bool {
    forall|i: int|
        0 <= i < files.len() && is_stale_spec(files[i], exts, asst) ==> contains_seq(
            files[i],
            marker,
        )
}

/// Decides which files of the private data directory are stale artifacts
/// of a previous assistant identity and must be deleted.
///
/// Deletion is fenced by a path-containment safeguard: if any stale file
/// does not contain `marker` (the private data directory segment) in its
/// path, the whole cleanup is refused with a safety violation and no
/// deletion at all is proposed.
pub fn plan_stale_cleanup(
    files: &Vec<String>,
    exts: &Vec<String>,
    asst_id: &AsstId,
    marker: &str,
) -> (r: Result<Vec<String>, Error>)
    ensures
        (r is Ok <==> cleanup_safe(files.deep_view(), exts.deep_view(), asst_id@, marker@)),
        (r matches Ok(del) ==> del.deep_view() == files.deep_view().filter(
            |n: Seq<char>| is_stale_spec(n, exts.deep_view(), asst_id@),
        )),
        (r matches Err(e) ==> e matches Error::SafetyViolation(p) && (exists|i: int|
            0 <= i < files.deep_view().len() && files.deep_view()[i] == p@ && is_stale_spec(
                p@,
                exts.deep_view(),
                asst_id@,
            ) && !contains_seq(p@, marker@))),
{
    let ghost fv = files.deep_view();
    let ghost pred = |n: Seq<char>| is_stale_spec(n, exts.deep_view(), asst_id@);
    let mut out: Vec<String> = Vec::new();
    let mut i: usize = 0;
    while i < files.len()
        invariant
            i <= files.len(),
            fv == files.deep_view(),
            fv.len() == files@.len(),
            pred == (|n: Seq<char>| is_stale_spec(n, exts.deep_view(), asst_id@)),
            out.deep_view() == fv.take(i as int).filter(pred),
            forall|j: int|
                0 <= j < i && is_stale_spec(fv[j], exts.deep_view(), asst_id@) ==> contains_seq(
                    fv[j],
                    marker@,
                ),
        decreases files.len() - i,
    {
        let name = &files[i];
        proof {
            assert(fv[i as int] == name@);
        }
        if is_stale_artifact(name.as_str(), exts, asst_id) {
            if !contains_sub(name.as_str(), marker) {
                proof {
                    assert(!cleanup_safe(fv, exts.deep_view(), asst_id@, marker@)) by {
                        assert(is_stale_spec(fv[i as int], exts.deep_view(), asst_id@)
                            && !contains_seq(fv[i as int], marker@));
                    }
                }
                return Err(Error::SafetyViolation(name.clone()));
            }
            out.push(name.clone());
            proof {
                assert(pred(fv[i as int]));
                assert(out.deep_view() =~= fv.take(i as int).filter(pred).push(fv[i as int]));
            }
        } else {
            proof {
                assert(!pred(fv[i as int]));
            }
        }
        proof {
            assert(fv.take(i + 1) =~= fv.take(i as int).push(fv[i as int]));
            fv.take(i as int).lemma_filter_push(fv[i as int], pred);
            assert(out.deep_view() == fv.take(i + 1).filter(pred));
        }
        i = i + 1;
    }
    proof {
        assert(fv.take(fv.len() as int) =~= fv);
    }
    Ok(out)
}

/// What the planner decides for one configured bundle.
pub enum BundleAction {
    /// The bundle's source directory is absent or matched no files:
    /// no artifact is produced and no upload happens.
    Skip,
    /// Package the artifact; upload with the given force flag.
    Package(bool),
}

/// Decides whether a bundle must be packaged and whether its upload is
/// forced. The artifact is always rewritten when files are present, so
/// its content is fresh; the upload is forced when recreation was
/// requested or the artifact did not yet exist on disk.
pub fn plan_bundle(recreate: bool, src_dir_exists: bool, n_files: usize, artifact_exists: bool) -> (r:
    BundleAction)
    ensures
        (r is Skip <==> (!src_dir_exists || n_files == 0)),
        (r matches BundleAction::Package(force) ==> force == (recreate || !artifact_exists)),
{
    if !src_dir_exists || n_files == 0 {
        BundleAction::Skip
    } else {
        BundleAction::Package(recreate || !artifact_exists)
    }
}

/// Record of previously uploaded bundle artifacts: an append-only
/// journal of (local path, remote file identifier) associations. The
/// association in force for a path is the one recorded last.
pub struct UploadCache {
    pub entries: Vec<(String, FileId)>,
}

/// The associations a journal holds: later records override earlier ones.
pub open spec fn journal_map(entries: Seq<(String, FileId)>) -> Map<Seq<char>, Seq<char>>
    decreases entries.len(),
{
    if entries.len() == 0 {
        Map::empty()
    } else {
        journal_map(entries.drop_last()).insert(entries.last().0@, entries.last().1@)
    }
}

impl View for UploadCache {
    type V = Map<Seq<char>, Seq<char>>;

    open spec fn view(&self) -> Map<Seq<char>, Seq<char>> {
        journal_map(self.entries@)
    }
}

proof fn lemma_journal_contains(entries: Seq<(String, FileId)>, k: Seq<char>)
    ensures
        journal_map(entries).contains_key(k) <==> exists|i: int|
            0 <= i < entries.len() && entries[i].0@ == k,
    decreases entries.len(),
{
    if entries.len() > 0 {
        lemma_journal_contains(entries.drop_last(), k);
        if exists|i: int| 0 <= i < entries.len() && entries[i].0@ == k {
            let i = choose|i: int| 0 <= i < entries.len() && entries[i].0@ == k;
            if i < entries.len() - 1 {
                assert(entries.drop_last()[i].0@ == k);
            }
        }
    }
}

proof fn lemma_journal_get(entries: Seq<(String, FileId)>, k: Seq<char>, i: int)
    requires
        0 <= i < entries.len(),
        entries[i].0@ == k,
        forall|j: int| i < j < entries.len() ==> entries[j].0@ != k,
    ensures
        journal_map(entries).contains_key(k),
        journal_map(entries)[k] == entries[i].1@,
    decreases entries.len(),
{
    if i < entries.len() - 1 {
        lemma_journal_get(entries.drop_last(), k, i);
    }
}

impl UploadCache {
    /// An empty record: nothing was uploaded yet.
    pub fn new() -> (r: UploadCache)
        ensures
            r@ == Map::<Seq<char>, Seq<char>>::empty(),
    {
        UploadCache { entries: Vec::new() }
    }

    /// Looks up the remote file identifier recorded last for a path.
    pub fn get(&self, path: &str) -> (r: Option<&FileId>)
        ensures
            (r matches Some(f) ==> self@.contains_key(path@) && f@ == self@[path@]),
            (r is None ==> !self@.contains_key(path@)),
    {
        let mut i: usize = self.entries.len();
        while i > 0
            invariant
                i <= self.entries.len(),
                forall|j: int| i <= j < self.entries@.len() ==> self.entries@[j].0@ != path@,
            decreases i,
        {
            i = i - 1;
            if str_eq(self.entries[i].0.as_str(), path) {
                proof {
                    lemma_journal_get(self.entries@, path@, i as int);
                }
                return Some(&self.entries[i].1);
            }
        }
        proof {
            lemma_journal_contains(self.entries@, path@);
        }
        None
    }

    /// Records a successful upload of a path as a remote file identifier.
    pub fn record_upload(&mut self, path: &str, id: FileId)
        ensures
            final(self)@ == old(self)@.insert(path@, id@),
    {
        let key = String::from_str(path);
        self.entries.push((key, id));
        proof {
            assert(self.entries@.drop_last() =~= old(self).entries@);
        }
    }
}

/// The dedup decision for one artifact upload.
pub enum UploadPlan {
    /// A prior upload of this path is recorded and the remote file was
    /// confirmed to still exist: reuse the recorded identifier.
    UseCached(FileId),
    /// Upload the artifact (and record the identifier that comes back).
    Upload,
}

/// Decides whether an artifact must be uploaded or a recorded remote
/// file can be reused.
///
/// The upload is skipped exactly when it was not forced, a prior upload
/// of this path is recorded, and the remote existence check succeeded;
/// any ambiguity (a failed check, an unknown path) defaults to re-upload.
pub fn upload_if_needed(cache: &UploadCache, path: &str, force: bool, remote_check_ok: bool) -> (r:
    UploadPlan)
    ensures
        (r is UseCached <==> !force && remote_check_ok && cache@.contains_key(path@)),
        (r matches UploadPlan::UseCached(f) ==> f@ == cache@[path@]),
{
    if force || !remote_check_ok {
        return UploadPlan::Upload;
    }
    match cache.get(path) {
        Some(f) => UploadPlan::UseCached(f.clone()),
        None => UploadPlan::Upload,
    }
}

/// What the synchronizer establishes about one configured bundle before
/// deciding: whether its source directory exists, the matched source
/// files in order, and whether the artifact file already exists on disk.
pub struct BundleFacts {
    pub bundle_name: String,
    pub dst_ext: String,
    pub src_dir_exists: bool,
    pub files: Vec<BundleEntry>,
    pub artifact_exists: bool,
}

/// The synchronizer's decision for one bundle.
pub enum SyncStep {
    /// Source directory absent or no files matched: nothing to do.
    Skipped,
    /// Write `artifact_text` to the artifact named `artifact_name` in the
    /// private data directory, then upload with `force_reupload`.
    Packaged { artifact_name: String, artifact_text: String, force_reupload: bool },
}

/// Plans the synchronization of one configured bundle: computes the
/// deterministic artifact name, packages the matched files, and decides
/// whether the upload is forced.
pub fn sync_bundle_step(session: &str, asst_id: &AsstId, recreate: bool, facts: &BundleFacts) -> (r:
    SyncStep)
    ensures
        (r is Skipped <==> (!facts.src_dir_exists || facts.files@.len() == 0)),
        (r matches SyncStep::Packaged { artifact_name, artifact_text, force_reupload } ==> {
            &&& artifact_name@ == artifact_name_seq(
                session@,
                facts.bundle_name@,
                asst_id@,
                facts.dst_ext@,
            )
            &&& artifact_text@ == bundle_seq(facts.files@.map_values(|e: BundleEntry| e@))
            &&& force_reupload == (recreate || !facts.artifact_exists)
        }),
{
    match plan_bundle(recreate, facts.src_dir_exists, facts.files.len(), facts.artifact_exists) {
        BundleAction::Skip => SyncStep::Skipped,
        BundleAction::Package(force_reupload) => {
            let artifact_name = artifact_file_name(
                session,
                facts.bundle_name.as_str(),
                asst_id,
                facts.dst_ext.as_str(),
            );
            let artifact_text = bundle_text(&facts.files);
            SyncStep::Packaged { artifact_name, artifact_text, force_reupload }
        },
    }
}

/// The artifact of the currently active assistant identity embeds that
/// identity in its name, so the cleanup never classifies it stale.
pub proof fn lemma_current_artifact_not_stale(
    session: Seq<char>,
    bundle: Seq<char>,
    asst: Seq<char>,
    ext: Seq<char>,
    exts: Seq<Seq<char>>,
)
    ensures
        !is_stale_spec(artifact_name_seq(session, bundle, asst, ext), exts, asst),
{
    crate::bundle::lemma_artifact_name_contains_identity(session, bundle, asst, ext);
}

/// Once the active assistant identity changes from `a` to `b`, an
/// artifact built under `a` is never reused: its name is classified
/// stale for cleanup, and the artifact name computed under `b` differs
/// from it, so a record of the old upload never satisfies the dedup
/// lookup for the new name. The classification premise excludes the
/// degenerate case of `b` occurring verbatim inside the old name.
pub proof fn lemma_identity_change_invalidates(
    session: Seq<char>,
    bundle: Seq<char>,
    a: Seq<char>,
    b: Seq<char>,
    ext: Seq<char>,
    exts: Seq<Seq<char>>,
    records: Map<Seq<char>, Seq<char>>,
)
    requires
        a != b,
        matches_any_ext(artifact_name_seq(session, bundle, a, ext), exts),
        !contains_seq(artifact_name_seq(session, bundle, a, ext), b),
        forall|k: Seq<char>| records.contains_key(k) ==> k == artifact_name_seq(
            session,
            bundle,
            a,
            ext,
        ),
    ensures
        is_stale_spec(artifact_name_seq(session, bundle, a, ext), exts, b),
        !records.contains_key(artifact_name_seq(session, bundle, b, ext)),
{
    crate::bundle::lemma_identity_change_new_name(session, bundle, a, b, ext);
}

} // verus!
