//! The update pipeline: one cycle of query, download, verification, and then
//! promotion or cleanup.
//!
//! The pipeline decides and the host acts. The host reports what happened as a
//! `PipelineEvent`; `UpdatePipeline::step` answers with the `PipelineAction`
//! to carry out next. An artifact is promoted only from the state `Verifying`,
//! and only when both of its checks have passed.

use vstd::prelude::*;
use crate::fault::Fault;
use crate::integrity::{md5_compute, md5_digest, verdict, verify_with_digest, IntegrityFault};
use crate::manifest::{
    announced_file_name, capture_filename_from_header, manifest_in, manifest_view, parse_manifest,
    ManifestView, UpdateManifest,
};
use crate::text::after_last;
use crate::version::{find_latest_version, latest_index, latest_name, latest_staged, trim_version};

verus! {

/// The seconds between two ticks of the update checker.
pub const UPDATE_PERIOD_SECONDS: u64 = 20;

/// The name under which a promoted artifact stands in the active directory.
pub const ACTIVE_NAME: &'static str = "plugin.wasm";

/// Where a cycle of the pipeline stands.
#[derive(Clone, Copy, Debug, PartialEq, Eq, Structural)]
pub enum PipelineState {
    /// Between cycles.
    Idle,
    /// The update service has been asked; its answer is awaited.
    Querying,
    /// An update was found; its download is awaited.
    Downloading,
    /// The download is being staged; the staged bytes are awaited.
    Verifying,
    /// The artifact passed; its copy into the active directory is awaited.
    Promoting,
    /// The artifact failed; the deletion of the staged file is awaited.
    CleaningUp,
}

/// How a cycle ended.
#[derive(Clone, Copy, Debug, PartialEq, Eq, Structural)]
pub enum CycleOutcome {
    /// The service offers no download.
    NoUpdate,
    /// The cycle was given up on a fault; nothing was promoted or deleted.
    Skipped(Fault),
    /// The artifact stands in the active directory.
    Promoted,
    /// The artifact failed a check and was not promoted.
    Discarded,
}

/// What the host reports to the pipeline.
pub enum PipelineEvent {
    /// The period is over. `staging` lists the file names in the staging
    /// directory.
    Tick { staging: Vec<String> },
    /// The update service answered the query with this body.
    QueryAnswered { body: String },
    /// The download arrived: the value of its `Content-Disposition` header and
    /// its body.
    Downloaded { disposition: String, bytes: Vec<u8> },
    /// The artifact was written into the staging directory. `bytes` is the
    /// staged file as read back, `staging` the names in the directory now.
    Staged { bytes: Vec<u8>, staging: Vec<String> },
    /// The promotion or the cleanup is over; `ok` tells whether it worked.
    Settled { ok: bool },
    /// The step that was asked for failed with this fault.
    Failed { fault: Fault },
}

/// What the pipeline asks the host to do next.
pub enum PipelineAction {
    /// Ask the update service whether there is something newer than
    /// `current_version`.
    Query { current_version: String },
    /// Download the artifact of `version`.
    Download { version: String },
    /// Write `bytes` into the staging directory as `file_name`, over a file of
    /// that name if there is one; then read the file back and list the
    /// directory.
    Stage { file_name: String, bytes: Vec<u8> },
    /// Put `bytes`, the verified content of the staged `file_name`, into the
    /// active directory as `target`, over the artifact that is there.
    Promote { file_name: String, target: String, bytes: Vec<u8> },
    /// Delete `file_name` from the staging directory. `fault` is the check
    /// that failed.
    Cleanup { file_name: String, fault: IntegrityFault },
    /// The cycle is over: wait for the next tick.
    Rest { outcome: CycleOutcome },
    /// The event does not fit the state; nothing changes.
    Ignore,
}

/// A `PipelineAction` as plain values.
pub enum ActionView {
    Query { current_version: Seq<char> },
    Download { version: Seq<char> },
    Stage { file_name: Seq<char>, bytes: Seq<u8> },
    Promote { file_name: Seq<char>, target: Seq<char>, bytes: Seq<u8> },
    Cleanup { file_name: Seq<char>, fault: IntegrityFault },
    Rest { outcome: CycleOutcome },
    Ignore,
}

impl View for PipelineAction {
    type V = ActionView;

    open spec fn view(&self) -> ActionView {
        match self {
            PipelineAction::Query { current_version } => ActionView::Query {
                current_version: current_version@,
            },
            PipelineAction::Download { version } => ActionView::Download { version: version@ },
            PipelineAction::Stage { file_name, bytes } => ActionView::Stage {
                file_name: file_name@,
                bytes: bytes@,
            },
            PipelineAction::Promote { file_name, target, bytes } => ActionView::Promote {
                file_name: file_name@,
                target: target@,
                bytes: bytes@,
            },
            PipelineAction::Cleanup { file_name, fault } => ActionView::Cleanup {
                file_name: file_name@,
                fault: *fault,
            },
            PipelineAction::Rest { outcome } => ActionView::Rest { outcome: *outcome },
            PipelineAction::Ignore => ActionView::Ignore,
        }
    }
}

/// The pipeline: its state, and what it keeps from one step to the next.
pub struct UpdatePipeline {
    state: PipelineState,
    checksum: String,
    staged_name: String,
}

/// An `UpdatePipeline` as plain values.
pub struct PipelineView {
    pub state: PipelineState,
    /// The checksum that the service announced for the artifact under way.
    pub checksum: Seq<char>,
    /// The name under which the artifact under way is staged.
    pub staged_name: Seq<char>,
}

impl View for UpdatePipeline {
    type V = PipelineView;

    closed spec fn view(&self) -> PipelineView {
        PipelineView { state: self.state, checksum: self.checksum@, staged_name: self.staged_name@ }
    }
}

/// The pipeline between cycles.
pub open spec fn resting() -> PipelineView {
    PipelineView { state: PipelineState::Idle, checksum: Seq::empty(), staged_name: Seq::empty() }
}

/// What is sent to the service as the current version, given the names in the
/// staging directory.
pub open spec fn current_version_text(staging: Seq<Seq<char>>) -> Seq<char> {
    after_last(latest_name(staging), '_')
}

/// A tick: from `Idle`, the service is asked.
pub open spec fn after_tick(pre: PipelineView, staging: Seq<Seq<char>>) -> (PipelineView, ActionView) {
    if pre.state == PipelineState::Idle {
        (
            PipelineView { state: PipelineState::Querying, ..pre },
            ActionView::Query { current_version: current_version_text(staging) },
        )
    } else {
        (pre, ActionView::Ignore)
    }
}

/// The service's answer: where it holds a manifest with a download locator,
/// the download begins; where the locator is empty, there is no update; where
/// there is no manifest, the cycle is given up.
pub open spec fn after_manifest(pre: PipelineView, manifest: Option<ManifestView>) -> (
    PipelineView,
    ActionView,
) {
    if pre.state == PipelineState::Querying {
        match manifest {
            Some(m) => if m.download_url.len() > 0 {
                (
                    PipelineView {
                        state: PipelineState::Downloading,
                        checksum: m.checksum,
                        staged_name: Seq::empty(),
                    },
                    ActionView::Download { version: m.latest_version },
                )
            } else {
                (resting(), ActionView::Rest { outcome: CycleOutcome::NoUpdate })
            },
            None => (resting(), ActionView::Rest { outcome: CycleOutcome::Skipped(Fault::Transport) }),
        }
    } else {
        (pre, ActionView::Ignore)
    }
}

/// The download: it is staged under the name that its header announces; with
/// no name, the cycle is given up.
pub open spec fn after_download(pre: PipelineView, disposition: Seq<char>, bytes: Seq<u8>) -> (
    PipelineView,
    ActionView,
) {
    if pre.state == PipelineState::Downloading {
        let file_name = announced_file_name(disposition);
        if file_name.len() > 0 {
            (
                PipelineView {
                    state: PipelineState::Verifying,
                    checksum: pre.checksum,
                    staged_name: file_name,
                },
                ActionView::Stage { file_name, bytes },
            )
        } else {
            (resting(), ActionView::Rest { outcome: CycleOutcome::Skipped(Fault::Transport) })
        }
    } else {
        (pre, ActionView::Ignore)
    }
}

/// The staged bytes, with their digest: where both checks pass, the bytes are
/// promoted under the canonical name; where one fails, the latest staged file
/// is deleted, if there is one.
pub open spec fn after_staged(
    pre: PipelineView,
    bytes: Seq<u8>,
    digest: Seq<u8>,
    staging: Seq<Seq<char>>,
) -> (PipelineView, ActionView) {
    if pre.state == PipelineState::Verifying {
        match verdict(pre.checksum, digest, bytes) {
            Ok(_) => (
                PipelineView { state: PipelineState::Promoting, ..pre },
                ActionView::Promote { file_name: pre.staged_name, target: ACTIVE_NAME@, bytes },
            ),
            Err(fault) => match latest_index(staging) {
                Some(i) => (
                    PipelineView { state: PipelineState::CleaningUp, ..pre },
                    ActionView::Cleanup { file_name: staging[i], fault },
                ),
                None => (resting(), ActionView::Rest { outcome: CycleOutcome::Discarded }),
            },
        }
    } else {
        (pre, ActionView::Ignore)
    }
}

/// The end of a promotion or of a cleanup.
pub open spec fn after_settled(pre: PipelineView, ok: bool) -> (PipelineView, ActionView) {
    match pre.state {
        PipelineState::Promoting => (
            resting(),
            ActionView::Rest {
                outcome: if ok {
                    CycleOutcome::Promoted
                } else {
                    CycleOutcome::Skipped(Fault::Filesystem)
                },
            },
        ),
        PipelineState::CleaningUp => (resting(), ActionView::Rest { outcome: CycleOutcome::Discarded }),
        _ => (pre, ActionView::Ignore),
    }
}

/// A fault in the step that was asked for: from every state but `Idle`, the
/// cycle is given up.
pub open spec fn after_failure(pre: PipelineView, fault: Fault) -> (PipelineView, ActionView) {
    if pre.state == PipelineState::Idle {
        (pre, ActionView::Ignore)
    } else {
        (resting(), ActionView::Rest { outcome: CycleOutcome::Skipped(fault) })
    }
}

/// What the pipeline does on an event.
pub open spec fn after_event(pre: PipelineView, event: PipelineEvent) -> (PipelineView, ActionView) {
    match event {
        PipelineEvent::Tick { staging } => after_tick(pre, staging.deep_view()),
        PipelineEvent::QueryAnswered { body } => after_manifest(pre, manifest_in(body@)),
        PipelineEvent::Downloaded { disposition, bytes } => after_download(pre, disposition@, bytes@),
        PipelineEvent::Staged { bytes, staging } => after_staged(
            pre,
            bytes@,
            md5_digest(bytes@),
            staging.deep_view(),
        ),
        PipelineEvent::Settled { ok } => after_settled(pre, ok),
        PipelineEvent::Failed { fault } => after_failure(pre, fault),
    }
}

impl UpdatePipeline {
    /// A pipeline between cycles.
    pub fn new() -> (pipeline: UpdatePipeline)
        ensures
            pipeline@ == resting(),
    {
        UpdatePipeline {
            state: PipelineState::Idle,
            checksum: String::new(),
            staged_name: String::new(),
        }
    }

    /// Where the cycle stands.
    pub fn state(&self) -> (state: PipelineState)
        ensures
            state == self@.state,
    {
        self.state
    }

    fn rest(&mut self, outcome: CycleOutcome) -> (action: PipelineAction)
        ensures
            final(self)@ == resting(),
            action@ == (ActionView::Rest { outcome }),
    {
        self.state = PipelineState::Idle;
        self.checksum = String::new();
        self.staged_name = String::new();
        PipelineAction::Rest { outcome }
    }

    /// The entry point of a cycle: on a tick the pipeline asks the service
    /// whether there is something newer than the latest staged version.
    pub fn check_update_available(&mut self, staging: &Vec<String>) -> (action: PipelineAction)
        ensures
            (final(self)@, action@) == after_tick(old(self)@, staging.deep_view()),
    {
        match self.state {
            PipelineState::Idle => {
                let latest = find_latest_version(staging);
                let current_version = trim_version(latest.as_str());
                self.state = PipelineState::Querying;
                PipelineAction::Query { current_version }
            },
            _ => PipelineAction::Ignore,
        }
    }

    /// Takes in what the service answered to the query, as a manifest or as
    /// none, and decides whether a download follows.
    pub fn fetch_parse_input(&mut self, manifest: Option<UpdateManifest>) -> (action: PipelineAction)
        ensures
            (final(self)@, action@) == after_manifest(old(self)@, manifest_view(manifest)),
    {
        match self.state {
            PipelineState::Querying => match manifest {
                Some(m) => {
                    if m.download_url.as_str().is_empty() {
                        self.rest(CycleOutcome::NoUpdate)
                    } else {
                        self.state = PipelineState::Downloading;
                        self.checksum = m.checksum;
                        self.staged_name = String::new();
                        PipelineAction::Download { version: m.latest_version }
                    }
                },
                None => self.rest(CycleOutcome::Skipped(Fault::Transport)),
            },
            _ => PipelineAction::Ignore,
        }
    }

    /// Takes in a download and decides under which name it is staged.
    pub fn download_file(&mut self, disposition: &str, bytes: Vec<u8>) -> (action: PipelineAction)
        ensures
            (final(self)@, action@) == after_download(old(self)@, disposition@, bytes@),
    {
        match self.state {
            PipelineState::Downloading => {
                let file_name = capture_filename_from_header(disposition);
                if file_name.as_str().is_empty() {
                    self.rest(CycleOutcome::Skipped(Fault::Transport))
                } else {
                    self.state = PipelineState::Verifying;
                    self.staged_name = file_name.clone();
                    PipelineAction::Stage { file_name, bytes }
                }
            },
            _ => PipelineAction::Ignore,
        }
    }

    /// Judges the staged bytes, whose digest is `digest`, and decides between
    /// promotion and cleanup.
    pub fn verify_staged(&mut self, bytes: Vec<u8>, digest: &[u8; 16], staging: &Vec<String>) -> (action:
        PipelineAction)
        ensures
            (final(self)@, action@) == after_staged(
                old(self)@,
                bytes@,
                digest@,
                staging.deep_view(),
            ),
    {
        match self.state {
            PipelineState::Verifying => {
                match verify_with_digest(bytes.as_slice(), digest, self.checksum.as_str()) {
                    Ok(_) => self.update_plugin(bytes),
                    Err(fault) => self.cleanup(staging, fault),
                }
            },
            _ => PipelineAction::Ignore,
        }
    }

    /// Promotes the verified bytes: they go into the active directory under
    /// the canonical name, over the artifact that is there.
    fn update_plugin(&mut self, bytes: Vec<u8>) -> (action: PipelineAction)
        requires
            old(self)@.state == PipelineState::Verifying,
        ensures
            final(self)@ == (PipelineView { state: PipelineState::Promoting, ..old(self)@ }),
            action@ == (ActionView::Promote {
                file_name: old(self)@.staged_name,
                target: ACTIVE_NAME@,
                bytes: bytes@,
            }),
    {
        self.state = PipelineState::Promoting;
        PipelineAction::Promote {
            file_name: self.staged_name.clone(),
            target: ACTIVE_NAME.to_owned(),
            bytes,
        }
    }

    /// Picks the staged file that is deleted after a failed check: the latest
    /// one, which need not be the one that was downloaded.
    fn cleanup(&mut self, staging: &Vec<String>, fault: IntegrityFault) -> (action: PipelineAction)
        requires
            old(self)@.state == PipelineState::Verifying,
        ensures
            (final(self)@, action@) == match latest_index(staging.deep_view()) {
                Some(i) => (
                    PipelineView { state: PipelineState::CleaningUp, ..old(self)@ },
                    ActionView::Cleanup { file_name: staging.deep_view()[i], fault },
                ),
                None => (resting(), ActionView::Rest { outcome: CycleOutcome::Discarded }),
            },
    {
        match latest_staged(staging) {
            Some(i) => {
                assert(staging.deep_view()[i as int] == staging@[i as int]@);
                self.state = PipelineState::CleaningUp;
                PipelineAction::Cleanup { file_name: staging[i].clone(), fault }
            },
            None => self.rest(CycleOutcome::Discarded),
        }
    }

    /// Takes in the end of a promotion or of a cleanup.
    pub fn settle(&mut self, ok: bool) -> (action: PipelineAction)
        ensures
            (final(self)@, action@) == after_settled(old(self)@, ok),
    {
        match self.state {
            PipelineState::Promoting => self.rest(
                if ok {
                    CycleOutcome::Promoted
                } else {
                    CycleOutcome::Skipped(Fault::Filesystem)
                },
            ),
            PipelineState::CleaningUp => self.rest(CycleOutcome::Discarded),
            _ => PipelineAction::Ignore,
        }
    }

    /// Takes in a fault of the step that was asked for.
    pub fn give_up(&mut self, fault: Fault) -> (action: PipelineAction)
        ensures
            (final(self)@, action@) == after_failure(old(self)@, fault),
    {
        match self.state {
            PipelineState::Idle => PipelineAction::Ignore,
            _ => self.rest(CycleOutcome::Skipped(fault)),
        }
    }

    /// One step of the pipeline: takes in what the host reports and answers
    /// with what the host does next.
    pub fn step(&mut self, event: PipelineEvent) -> (action: PipelineAction)
        ensures
            (final(self)@, action@) == after_event(old(self)@, event),
    {
        match event {
            PipelineEvent::Tick { staging } => self.check_update_available(&staging),
            PipelineEvent::QueryAnswered { body } => {
                let manifest = parse_manifest(body.as_str());
                self.fetch_parse_input(manifest)
            },
            PipelineEvent::Downloaded { disposition, bytes } => self.download_file(
                disposition.as_str(),
                bytes,
            ),
            PipelineEvent::Staged { bytes, staging } => {
                let digest = md5_compute(bytes.as_slice());
                self.verify_staged(bytes, &digest, &staging)
            },
            PipelineEvent::Settled { ok } => self.settle(ok),
            PipelineEvent::Failed { fault } => self.give_up(fault),
        }
    }
}

/// An artifact is promoted only out of `Verifying`, only on staged bytes that
/// pass both checks against the announced checksum, and then exactly these
/// bytes go under the canonical name. No other event promotes anything.
pub proof fn lemma_promotion_needs_both_checks(pre: PipelineView, event: PipelineEvent)
    ensures
        after_event(pre, event).1 is Promote ==> {
            &&& pre.state == PipelineState::Verifying
            &&& event is Staged
            &&& pre.checksum == crate::integrity::hex_lower(md5_digest(event->Staged_bytes@))
            &&& crate::integrity::has_wasm_magic(event->Staged_bytes@)
            &&& after_event(pre, event).1 == (ActionView::Promote {
                file_name: pre.staged_name,
                target: ACTIVE_NAME@,
                bytes: event->Staged_bytes@,
            })
            &&& after_event(pre, event).0.state == PipelineState::Promoting
        },
{
}

/// Staged bytes that fail a check are never promoted: the latest staged file
/// is deleted, or, where no staged file carries a version, the cycle ends with
/// the artifact discarded.
pub proof fn lemma_failed_check_leads_to_cleanup(
    pre: PipelineView,
    bytes: Seq<u8>,
    digest: Seq<u8>,
    staging: Seq<Seq<char>>,
)
    requires
        pre.state == PipelineState::Verifying,
        verdict(pre.checksum, digest, bytes) is Err,
    ensures
        match latest_index(staging) {
            Some(i) => after_staged(pre, bytes, digest, staging) == (
                PipelineView { state: PipelineState::CleaningUp, ..pre },
                ActionView::Cleanup {
                    file_name: staging[i],
                    fault: verdict(pre.checksum, digest, bytes)->Err_0,
                },
            ),
            None => after_staged(pre, bytes, digest, staging) == (
                resting(),
                ActionView::Rest { outcome: CycleOutcome::Discarded },
            ),
        },
{
}

/// Every cycle comes back to rest: an action `Rest` leaves the pipeline
/// between cycles, with nothing kept.
pub proof fn lemma_rest_is_idle(pre: PipelineView, event: PipelineEvent)
    ensures
        after_event(pre, event).1 is Rest ==> after_event(pre, event).0 == resting(),
        after_event(pre, event).1 is Ignore ==> after_event(pre, event).0 == pre,
{
}

} // verus!
