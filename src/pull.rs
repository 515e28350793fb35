//! The pull of one manifest, as a state machine. The caller performs each
//! action that `next_action` names (a presence check, a download, a rename, a
//! removal, a write) and reports how it went with `advance`; the machine makes
//! every decision: what to skip, what to verify, when to commit and when the
//! manifest may be written.
use crate::digest::{render_digest, Blob};
use crate::hasher::digest_of;
use crate::manifest::Manifest;
use crate::store::{blob_file, blob_temp_file, manifest_file, Model, OllamaStore, Registry, Variant};
use vstd::prelude::*;
use vstd::string::*;

verus! {

/// What became of one artifact of a pull.
#[derive(Clone, Copy, Debug)]
pub enum DownloadResult {
    /// It was already in the store; nothing was downloaded.
    Skipped(Blob),
    /// It was downloaded, verified and committed.
    Success(Blob),
}

impl DownloadResult {
    /// The artifact's digest.
    pub open spec fn spec_blob(&self) -> Blob {
        match self {
            DownloadResult::Skipped(b) => *b,
            DownloadResult::Success(b) => *b,
        }
    }
}

/// Why a pull failed.
#[derive(Clone, Copy, Debug)]
pub enum DownloadError {
    /// A transfer failed; the partial file stays for a later resume.
    Http,
    /// The registry answered the manifest request with this status.
    ManifestError(u16),
    /// The manifest could not be written to the store.
    ManifestAddingFailed,
    /// A verified download could not be moved into place.
    BlobCommitFailed(Blob),
    /// A download did not hash to its digest: the expected digest, then the one found.
    InvalidBlobDownloaded(Blob, Blob),
}

/// Whether the registry's answer to a manifest request can be read: only
/// status 200 can.
pub fn manifest_response(status: u16) -> (r: Result<(), DownloadError>)
    ensures
        status == 200 ==> r is Ok,
        status != 200 ==> (r matches Err(DownloadError::ManifestError(code)) && code == status),
{
    if status == 200 {
        Ok(())
    } else {
        Err(DownloadError::ManifestError(status))
    }
}

/// Where a pull stands.
#[derive(Clone, Copy, Debug)]
pub enum PullPhase {
    /// Asking whether the current artifact is already stored.
    Checking,
    /// Downloading the current artifact into its temporary file.
    Fetching,
    /// Moving the verified temporary file into place.
    Committing,
    /// The download hashed to the given other digest; its temporary file is being removed.
    Rejecting(Blob),
    /// Every artifact is stored; the manifest is being written.
    Saving,
    /// The pull is complete.
    Done,
    /// The pull stopped; nothing more happens.
    Failed(DownloadError),
}

/// How the action last asked for went.
#[derive(Clone, Copy, Debug)]
pub enum PullEvent {
    /// Whether the current artifact's blob is present in the store.
    Present(bool),
    /// The download finished; the hasher gave this digest for the whole file.
    Fetched(Blob),
    /// The download failed.
    FetchFailed,
    /// The temporary file was moved into place.
    Committed,
    /// Moving the temporary file into place failed.
    CommitFailed,
    /// The temporary file of a rejected download was removed.
    Discarded,
    /// The manifest was written.
    ManifestSaved,
    /// Writing the manifest failed.
    ManifestSaveFailed,
}

/// What the caller is to do next.
pub enum PullAction {
    /// Report with `Present` whether the blob is in the store.
    CheckBlob(Blob),
    /// Download the blob, named `name` at the registry, into `temp`, resuming
    /// from what `temp` already holds, and report the digest of the whole file.
    Fetch { blob: Blob, name: String, temp: String },
    /// Move `temp` to `dest` and report `Committed` or `CommitFailed`.
    Commit { blob: Blob, temp: String, dest: String },
    /// Remove `temp` and report `Discarded`.
    Discard { temp: String },
    /// Write the manifest at `path` and report `ManifestSaved` or `ManifestSaveFailed`.
    SaveManifest { path: String },
    /// The pull is complete.
    Finished,
    /// The pull failed with this error.
    Fail(DownloadError),
}

/// The abstract state of a pull: its phase, how many artifacts are settled,
/// and what became of each, with its label.
pub ghost struct PullModel {
    pub phase: PullPhase,
    pub index: nat,
    pub results: Seq<(Seq<char>, DownloadResult)>,
}

/// The state after the current artifact settled with `outcome`.
pub open spec fn settle(m: PullModel, n: nat, label: Seq<char>, outcome: DownloadResult) -> PullModel {
    PullModel {
        phase: if m.index + 1 == n {
            PullPhase::Saving
        } else {
            PullPhase::Checking
        },
        index: m.index + 1,
        results: m.results.push((label, outcome)),
    }
}

/// The state with another phase.
pub open spec fn with_phase(m: PullModel, phase: PullPhase) -> PullModel {
    PullModel { phase, index: m.index, results: m.results }
}

/// How a pull of the artifacts `digests`, labelled `labels`, moves on `e`.
/// An event that does not answer the current action changes nothing.
pub open spec fn pull_step(
    digests: Seq<Blob>,
    labels: Seq<Seq<char>>,
    m: PullModel,
    e: PullEvent,
) -> PullModel {
    let d = digests[m.index as int];
    let label = labels[m.index as int];
    match m.phase {
        PullPhase::Checking => match e {
            PullEvent::Present(true) => settle(m, digests.len(), label, DownloadResult::Skipped(d)),
            PullEvent::Present(false) => with_phase(m, PullPhase::Fetching),
            _ => m,
        },
        PullPhase::Fetching => match e {
            PullEvent::Fetched(got) => if got.bytes() == d.bytes() {
                with_phase(m, PullPhase::Committing)
            } else {
                with_phase(m, PullPhase::Rejecting(got))
            },
            PullEvent::FetchFailed => with_phase(m, PullPhase::Failed(DownloadError::Http)),
            _ => m,
        },
        PullPhase::Committing => match e {
            PullEvent::Committed => settle(m, digests.len(), label, DownloadResult::Success(d)),
            PullEvent::CommitFailed => with_phase(
                m,
                PullPhase::Failed(DownloadError::BlobCommitFailed(d)),
            ),
            _ => m,
        },
        PullPhase::Rejecting(got) => match e {
            PullEvent::Discarded => with_phase(
                m,
                PullPhase::Failed(DownloadError::InvalidBlobDownloaded(d, got)),
            ),
            _ => m,
        },
        PullPhase::Saving => match e {
            PullEvent::ManifestSaved => with_phase(m, PullPhase::Done),
            PullEvent::ManifestSaveFailed => with_phase(
                m,
                PullPhase::Failed(DownloadError::ManifestAddingFailed),
            ),
            _ => m,
        },
        _ => m,
    }
}

/// Whether every artifact before `index` settled as skipped or committed,
/// with its own digest and label.
pub open spec fn settled_upto(
    digests: Seq<Blob>,
    labels: Seq<Seq<char>>,
    results: Seq<(Seq<char>, DownloadResult)>,
    index: nat,
) -> bool {
    &&& results.len() == index
    &&& forall|i: int|
        0 <= i < index ==> (#[trigger] results[i]).1.spec_blob() == digests[i] && results[i].0
            == labels[i]
}

/// The shape that every reachable state of a pull has.
pub open spec fn model_wf(digests: Seq<Blob>, labels: Seq<Seq<char>>, m: PullModel) -> bool {
    &&& digests.len() >= 1
    &&& labels.len() == digests.len()
    &&& m.index <= digests.len()
    &&& settled_upto(digests, labels, m.results, m.index)
    &&& match m.phase {
        PullPhase::Saving | PullPhase::Done => m.index == digests.len(),
        PullPhase::Failed(_) => true,
        _ => m.index < digests.len(),
    }
}

/// The labels of a manifest's artifacts: `manifest` for the config, then each
/// layer's media type.
pub open spec fn artifact_labels(manifest: &Manifest) -> Seq<Seq<char>> {
    seq!["manifest"@] + manifest.layers@.map_values(|l: crate::manifest::ManifestLayer| l.media_type@)
}

/// A pull in progress.
pub struct Pull {
    store: OllamaStore,
    digests: Vec<Blob>,
    labels: Vec<String>,
    manifest_path: String,
    phase: PullPhase,
    index: usize,
    results: Vec<(String, DownloadResult)>,
}

impl Pull {
    /// The digests of the artifacts, in the order they are pulled.
    pub closed spec fn digests(&self) -> Seq<Blob> {
        self.digests@
    }

    /// The labels of the artifacts, in the same order.
    pub closed spec fn labels(&self) -> Seq<Seq<char>> {
        self.labels@.map_values(|s: String| s@)
    }

    /// The store's root directory.
    pub closed spec fn root(&self) -> Seq<char> {
        self.store.root()
    }

    /// Where the manifest is written.
    pub closed spec fn manifest_path(&self) -> Seq<char> {
        self.manifest_path@
    }

    /// The abstract state.
    pub closed spec fn model(&self) -> PullModel {
        PullModel {
            phase: self.phase,
            index: self.index as nat,
            results: self.results@.map_values(|p: (String, DownloadResult)| (p.0@, p.1)),
        }
    }

    pub closed spec fn wf(&self) -> bool {
        &&& self.labels@.len() == self.digests@.len()
        &&& model_wf(self.digests(), self.labels(), self.model())
    }

    /// Starts the pull of `manifest`'s artifacts, the config's first, into
    /// `store`, to be recorded for `registry`, `model` and `variant`.
    pub fn new(
        store: &OllamaStore,
        manifest: &Manifest,
        registry: &Registry,
        model: &Model,
        variant: &Variant,
    ) -> (r: Pull)
        requires
            manifest.layers@.len() < usize::MAX,
        ensures
            r.wf(),
            r.digests() == manifest.artifact_digests(),
            r.labels() == artifact_labels(manifest),
            r.root() == store.root(),
            r.manifest_path() == manifest_file(store.root(), registry@, model@, variant@),
            r.model() == (PullModel { phase: PullPhase::Checking, index: 0, results: seq![] }),
    {
        let digests = manifest.all_digests();
        let mut labels: Vec<String> = Vec::new();
        labels.push(String::from_str("manifest"));
        proof {
            reveal_strlit("manifest");
        }
        let mut i: usize = 0;
        while i < manifest.layers.len()
            invariant
                i <= manifest.layers@.len(),
                labels@.len() == i + 1,
                labels@.map_values(|s: String| s@) == seq!["manifest"@]
                    + manifest.layers@.take(i as int).map_values(
                    |l: crate::manifest::ManifestLayer| l.media_type@,
                ),
            decreases manifest.layers@.len() - i,
        {
            let ghost before = labels@;
            labels.push(manifest.layers[i].media_type.clone());
            proof {
                assert(manifest.layers@.take(i + 1) =~= manifest.layers@.take(i as int).push(
                    manifest.layers@[i as int],
                ));
                assert(labels@ =~= before.push(labels@[i + 1]));
                assert(labels@[i + 1]@ == manifest.layers@[i as int].media_type@);
                let f = |l: crate::manifest::ManifestLayer| l.media_type@;
                let x = manifest.layers@[i as int].media_type@;
                assert(labels@.map_values(|s: String| s@) =~= before.map_values(|s: String| s@).push(
                    x,
                ));
                assert(manifest.layers@.take(i + 1).map_values(f) =~= manifest.layers@.take(
                    i as int,
                ).map_values(f).push(x));
                assert(seq!["manifest"@] + manifest.layers@.take(i as int).map_values(f).push(x)
                    =~= (seq!["manifest"@] + manifest.layers@.take(i as int).map_values(f)).push(
                    x,
                ));
                assert(labels@.map_values(|s: String| s@) =~= seq!["manifest"@]
                    + manifest.layers@.take(i + 1).map_values(
                    |l: crate::manifest::ManifestLayer| l.media_type@,
                ));
            }
            i = i + 1;
        }
        proof {
            assert(manifest.layers@.take(i as int) =~= manifest.layers@);
        }
        let store_copy = OllamaStore::new(String::from_str(store.root_path()));
        let manifest_path = store.manifest_registry_model_variant_path(registry, model, variant);
        let r = Pull {
            store: store_copy,
            digests,
            labels,
            manifest_path,
            phase: PullPhase::Checking,
            index: 0,
            results: Vec::new(),
        };
        proof {
            assert(r.model().results =~= seq![]);
        }
        r
    }

    /// The outcome of each settled artifact, with its label, in pull order.
    pub fn results(&self) -> (r: &Vec<(String, DownloadResult)>)
        ensures
            r@.map_values(|p: (String, DownloadResult)| (p.0@, p.1)) == self.model().results,
    {
        &self.results
    }

    /// What the caller is to do next.
    pub fn next_action(&self) -> (r: PullAction)
        requires
            self.wf(),
        ensures
            match self.model().phase {
                PullPhase::Checking => r == PullAction::CheckBlob(
                    self.digests()[self.model().index as int],
                ),
                PullPhase::Fetching => r matches PullAction::Fetch { blob, name, temp } && blob
                    == self.digests()[self.model().index as int] && name@ == render_digest(
                    blob.bytes(),
                    '-',
                ) && temp@ == blob_temp_file(self.root(), blob),
                PullPhase::Committing => r matches PullAction::Commit { blob, temp, dest } && blob
                    == self.digests()[self.model().index as int] && temp@ == blob_temp_file(
                    self.root(),
                    blob,
                ) && dest@ == blob_file(self.root(), blob),
                PullPhase::Rejecting(_) => r matches PullAction::Discard { temp } && temp@
                    == blob_temp_file(self.root(), self.digests()[self.model().index as int]),
                PullPhase::Saving => r matches PullAction::SaveManifest { path } && path@
                    == self.manifest_path(),
                PullPhase::Done => r is Finished,
                PullPhase::Failed(e) => r == PullAction::Fail(e),
            },
    {
        match self.phase {
            PullPhase::Checking => PullAction::CheckBlob(self.digests[self.index]),
            PullPhase::Fetching => {
                let blob = self.digests[self.index];
                PullAction::Fetch {
                    blob,
                    name: blob.as_path_name(),
                    temp: self.store.blob_path_tmp(&blob),
                }
            },
            PullPhase::Committing => {
                let blob = self.digests[self.index];
                PullAction::Commit {
                    blob,
                    temp: self.store.blob_path_tmp(&blob),
                    dest: self.store.blob_path(&blob),
                }
            },
            PullPhase::Rejecting(_) => {
                let blob = self.digests[self.index];
                PullAction::Discard { temp: self.store.blob_path_tmp(&blob) }
            },
            PullPhase::Saving => PullAction::SaveManifest { path: self.manifest_path.clone() },
            PullPhase::Done => PullAction::Finished,
            PullPhase::Failed(e) => PullAction::Fail(e),
        }
    }

    fn settle_current(&mut self, outcome: DownloadResult)
        requires
            old(self).wf(),
            old(self).model().index < old(self).digests().len(),
            outcome.spec_blob() == old(self).digests()[old(self).model().index as int],
        ensures
            final(self).wf(),
            final(self).digests() == old(self).digests(),
            final(self).labels() == old(self).labels(),
            final(self).root() == old(self).root(),
            final(self).manifest_path() == old(self).manifest_path(),
            final(self).model() == settle(
                old(self).model(),
                old(self).digests().len(),
                old(self).labels()[old(self).model().index as int],
                outcome,
            ),
    {
        let n = self.digests.len();
        let label = self.labels[self.index].clone();
        self.results.push((label, outcome));
        self.index = self.index + 1;
        if self.index == n {
            self.phase = PullPhase::Saving;
        } else {
            self.phase = PullPhase::Checking;
        }
        proof {
            let m = self.model();
            let o = old(self).model();
            assert(m.results =~= o.results.push((old(self).labels()[o.index as int], outcome)));
        }
    }

    /// Moves the pull on after the caller reports `event`.
    pub fn advance(&mut self, event: PullEvent)
        requires
            old(self).wf(),
        ensures
            final(self).wf(),
            final(self).digests() == old(self).digests(),
            final(self).labels() == old(self).labels(),
            final(self).root() == old(self).root(),
            final(self).manifest_path() == old(self).manifest_path(),
            final(self).model() == pull_step(
                old(self).digests(),
                old(self).labels(),
                old(self).model(),
                event,
            ),
    {
        match self.phase {
            PullPhase::Checking => match event {
                PullEvent::Present(true) => {
                    let d = self.digests[self.index];
                    self.settle_current(DownloadResult::Skipped(d));
                },
                PullEvent::Present(false) => {
                    self.phase = PullPhase::Fetching;
                },
                _ => {},
            },
            PullPhase::Fetching => match event {
                PullEvent::Fetched(got) => {
                    if got == self.digests[self.index] {
                        self.phase = PullPhase::Committing;
                    } else {
                        self.phase = PullPhase::Rejecting(got);
                    }
                },
                PullEvent::FetchFailed => {
                    self.phase = PullPhase::Failed(DownloadError::Http);
                },
                _ => {},
            },
            PullPhase::Committing => match event {
                PullEvent::Committed => {
                    let d = self.digests[self.index];
                    self.settle_current(DownloadResult::Success(d));
                },
                PullEvent::CommitFailed => {
                    let d = self.digests[self.index];
                    self.phase = PullPhase::Failed(DownloadError::BlobCommitFailed(d));
                },
                _ => {},
            },
            PullPhase::Rejecting(got) => match event {
                PullEvent::Discarded => {
                    let d = self.digests[self.index];
                    self.phase = PullPhase::Failed(DownloadError::InvalidBlobDownloaded(d, got));
                },
                _ => {},
            },
            PullPhase::Saving => match event {
                PullEvent::ManifestSaved => {
                    self.phase = PullPhase::Done;
                },
                PullEvent::ManifestSaveFailed => {
                    self.phase = PullPhase::Failed(DownloadError::ManifestAddingFailed);
                },
                _ => {},
            },
            _ => {},
        }
    }
}

/// The state after the events `events`, one after another.
pub open spec fn pull_run(
    digests: Seq<Blob>,
    labels: Seq<Seq<char>>,
    m: PullModel,
    events: Seq<PullEvent>,
) -> PullModel
    decreases events.len(),
{
    if events.len() == 0 {
        m
    } else {
        pull_run(digests, labels, pull_step(digests, labels, m, events[0]), events.drop_first())
    }
}

/// The state in which a pull starts.
pub open spec fn pull_start() -> PullModel {
    PullModel { phase: PullPhase::Checking, index: 0, results: seq![] }
}

/// Every step keeps a pull's shape.
pub proof fn lemma_step_wf(digests: Seq<Blob>, labels: Seq<Seq<char>>, m: PullModel, e: PullEvent)
    requires
        model_wf(digests, labels, m),
    ensures
        model_wf(digests, labels, pull_step(digests, labels, m, e)),
        pull_step(digests, labels, m, e).index >= m.index,
{
    let m2 = pull_step(digests, labels, m, e);
    if m2.index == m.index + 1 {
        assert forall|i: int| 0 <= i < m2.index implies (#[trigger] m2.results[i]).1.spec_blob()
            == digests[i] && m2.results[i].0 == labels[i] by {
            if i < m.index {
                assert(m2.results[i] == m.results[i]);
            }
        }
    }
}

/// Every run keeps a pull's shape, and never goes back to an earlier artifact.
pub proof fn lemma_run_wf(
    digests: Seq<Blob>,
    labels: Seq<Seq<char>>,
    m: PullModel,
    events: Seq<PullEvent>,
)
    requires
        model_wf(digests, labels, m),
    ensures
        model_wf(digests, labels, pull_run(digests, labels, m, events)),
        pull_run(digests, labels, m, events).index >= m.index,
    decreases events.len(),
{
    if events.len() > 0 {
        lemma_step_wf(digests, labels, m, events[0]);
        lemma_run_wf(
            digests,
            labels,
            pull_step(digests, labels, m, events[0]),
            events.drop_first(),
        );
    }
}

/// A failed pull stays failed, whatever is reported afterwards.
pub proof fn lemma_failure_is_final(
    digests: Seq<Blob>,
    labels: Seq<Seq<char>>,
    m: PullModel,
    events: Seq<PullEvent>,
)
    requires
        m.phase is Failed,
    ensures
        pull_run(digests, labels, m, events) == m,
    decreases events.len(),
{
    if events.len() > 0 {
        lemma_failure_is_final(digests, labels, m, events.drop_first());
    }
}

/// An artifact whose blob is already in the store is recorded as skipped, and
/// from then on, whatever happens, the pull never asks to download it.
pub proof fn lemma_present_blob_is_skipped(
    digests: Seq<Blob>,
    labels: Seq<Seq<char>>,
    m: PullModel,
    events: Seq<PullEvent>,
)
    requires
        model_wf(digests, labels, m),
        m.phase is Checking,
    ensures
        pull_step(digests, labels, m, PullEvent::Present(true)).results == m.results.push(
            (labels[m.index as int], DownloadResult::Skipped(digests[m.index as int])),
        ),
        pull_run(
            digests,
            labels,
            pull_step(digests, labels, m, PullEvent::Present(true)),
            events,
        ).index > m.index,
{
    let m2 = pull_step(digests, labels, m, PullEvent::Present(true));
    lemma_step_wf(digests, labels, m, PullEvent::Present(true));
    lemma_run_wf(digests, labels, m2, events);
}

/// A download that hashes to another digest than the expected one is never
/// committed: the next action removes its temporary file, and the pull then
/// fails with both digests, whatever is reported afterwards.
pub proof fn lemma_mismatch_is_rejected(
    digests: Seq<Blob>,
    labels: Seq<Seq<char>>,
    m: PullModel,
    got: Blob,
    events: Seq<PullEvent>,
)
    requires
        model_wf(digests, labels, m),
        m.phase is Fetching,
        got.bytes() != digests[m.index as int].bytes(),
    ensures
        pull_step(digests, labels, m, PullEvent::Fetched(got)).phase == PullPhase::Rejecting(got),
        ({
            let r = pull_run(
                digests,
                labels,
                pull_step(digests, labels, m, PullEvent::Fetched(got)),
                events,
            );
            r.phase == PullPhase::Rejecting(got) || r.phase == PullPhase::Failed(
                DownloadError::InvalidBlobDownloaded(digests[m.index as int], got),
            )
        }),
    decreases events.len(),
{
    let m2 = pull_step(digests, labels, m, PullEvent::Fetched(got));
    if events.len() > 0 {
        let m3 = pull_step(digests, labels, m2, events[0]);
        if events[0] is Discarded {
            lemma_failure_is_final(digests, labels, m3, events.drop_first());
        } else {
            assert(m3 == m2);
            lemma_mismatch_is_rejected(digests, labels, m, got, events.drop_first());
        }
    }
}

/// A pull comes to move a temporary file into place only right after the
/// download into it hashed to the artifact's own digest.
pub proof fn lemma_commit_follows_verification(
    digests: Seq<Blob>,
    labels: Seq<Seq<char>>,
    m: PullModel,
    e: PullEvent,
)
    requires
        model_wf(digests, labels, m),
        !(m.phase is Committing),
        pull_step(digests, labels, m, e).phase is Committing,
    ensures
        m.phase is Fetching,
        e matches PullEvent::Fetched(got) && got.bytes() == digests[m.index as int].bytes(),
        pull_step(digests, labels, m, e).index == m.index,
{
}

/// The manifest is written only once every artifact settled as skipped or
/// committed, each with its own digest, in manifest order; and once a pull
/// failed, on any artifact, it never comes to write the manifest.
pub proof fn lemma_manifest_saved_last(
    digests: Seq<Blob>,
    labels: Seq<Seq<char>>,
    events: Seq<PullEvent>,
    more: Seq<PullEvent>,
)
    requires
        digests.len() >= 1,
        labels.len() == digests.len(),
    ensures
        ({
            let r = pull_run(digests, labels, pull_start(), events);
            (r.phase is Saving || r.phase is Done) ==> settled_upto(
                digests,
                labels,
                r.results,
                digests.len(),
            )
        }),
        ({
            let r = pull_run(digests, labels, pull_start(), events);
            r.phase is Failed ==> !(pull_run(digests, labels, r, more).phase is Saving)
                && !(pull_run(digests, labels, r, more).phase is Done)
        }),
{
    let r = pull_run(digests, labels, pull_start(), events);
    lemma_run_wf(digests, labels, pull_start(), events);
    if r.phase is Failed {
        lemma_failure_is_final(digests, labels, r, more);
    }
}

} // verus!
