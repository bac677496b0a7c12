//! The sync-session state machine.
//!
//! A session drives one edit of a remote object end to end: download the
//! object into a working copy, watch the copy for changes, coalesce them
//! through the debouncer, upload on each flush, and shut the background
//! sync down cleanly once the editor exits. The machine here makes every
//! decision; the surrounding binary performs the I/O each decision calls
//! for and feeds the outcome back in as the next event.
//!
//! Uploads are serialized: at most one upload is in flight at any time,
//! and a flush that arrives while one is in flight is queued and starts
//! the next upload only when the first completes, so a later flush can
//! never be overwritten in the remote store by an earlier, stale one.
//!
//! Shutdown policy: a debounce window still pending when the editor exits
//! is turned into one final flush before the session terminates, so no
//! edit made before editor-exit is silently lost.

use vstd::prelude::*;

use crate::debounce::Debouncer;
use crate::debounce::TimerVerdict;
use crate::debounce::spec_fires;
use crate::debounce::spec_on_event;
use crate::debounce::spec_on_timer;
use vstd::string::StrSliceExecFns;

verus! {

/// A remote object-storage backend kind.
#[derive(Clone, Copy, Debug, PartialEq, Eq, Structural)]
pub enum Backend {
    S3,
    Gcs,
}

/// The name `s3`, selecting the S3-compatible backend.
pub open spec fn is_s3_name(s: Seq<char>) -> bool {
    s == seq!['s', '3']
}

/// The name `gcs`, selecting the GCS-compatible backend.
pub open spec fn is_gcs_name(s: Seq<char>) -> bool {
    s == seq!['g', 'c', 's']
}

impl Backend {
    /// Selects a backend from its configuration discriminator: `s3` or
    /// `gcs`; any other name is unsupported.
    pub fn from_name(name: &str) -> (b: Option<Backend>)
        ensures
            b == (if is_s3_name(name@) {
                Some(Backend::S3)
            } else if is_gcs_name(name@) {
                Some(Backend::Gcs)
            } else {
                Option::<Backend>::None
            }),
    {
        let n: usize = name.unicode_len();
        if n == 2 && name.get_char(0) == 's' && name.get_char(1) == '3' {
            proof {
                assert(name@ =~= seq!['s', '3']);
            }
            Some(Backend::S3)
        } else if n == 3 && name.get_char(0) == 'g' && name.get_char(1) == 'c' && name.get_char(2)
            == 's' {
            proof {
                assert(name@ =~= seq!['g', 'c', 's']);
            }
            Some(Backend::Gcs)
        } else {
            proof {
                if is_s3_name(name@) {
                    assert(name@.len() == 2 && name@[0] == 's' && name@[1] == '3');
                }
                if is_gcs_name(name@) {
                    assert(name@.len() == 3 && name@[0] == 'g' && name@[1] == 'c' && name@[2]
                        == 's');
                }
            }
            None
        }
    }
}

/// Identifies one remote object. Immutable once constructed.
#[derive(Clone, Debug)]
pub struct RemoteObjectRef {
    pub backend: Backend,
    pub bucket: String,
    pub key: String,
    pub region: Option<String>,
}

impl RemoteObjectRef {
    /// Builds a reference to a remote object.
    pub fn new(backend: Backend, bucket: String, key: String, region: Option<String>) -> (r:
        RemoteObjectRef)
        ensures
            r.backend == backend,
            r.bucket == bucket,
            r.key == key,
            r.region == region,
    {
        RemoteObjectRef { backend, bucket, key, region }
    }
}

/// The local file backing the edit session.
#[derive(Clone, Debug)]
pub struct WorkingCopy {
    /// Local filesystem path of the copy.
    pub path: String,
    /// The remote object the copy mirrors.
    pub origin: RemoteObjectRef,
    /// Whether the session allocated the path itself (and must delete the
    /// file afterwards) rather than a caller having supplied it.
    pub temporary: bool,
}

impl WorkingCopy {
    /// Resolves the working-copy path: a caller-supplied path is used as
    /// is and left untouched afterwards; otherwise the freshly allocated
    /// temporary path is used and the copy is deleted after the session.
    pub fn resolve(origin: RemoteObjectRef, caller_path: Option<String>, temp_path: String) -> (c:
        WorkingCopy)
        ensures
            c.origin == origin,
            match caller_path {
                Some(p) => c.path == p && !c.temporary,
                None => c.path == temp_path && c.temporary,
            },
    {
        match caller_path {
            Some(p) => WorkingCopy { path: p, origin, temporary: false },
            None => WorkingCopy { path: temp_path, origin, temporary: true },
        }
    }

    /// Whether the file must be removed once the session has terminated.
    pub fn should_remove_after(&self) -> (b: bool)
        ensures
            b == self.temporary,
    {
        self.temporary
    }
}

/// Why a download failed; every kind is fatal to the session.
#[derive(Clone, Copy, Debug, PartialEq, Eq, Structural)]
pub enum DownloadError {
    NotFound,
    AccessDenied,
    TransientIo,
    BackendError,
}

/// Why an upload failed; never fatal to the session.
#[derive(Clone, Copy, Debug, PartialEq, Eq, Structural)]
pub enum UploadError {
    AccessDenied,
    TransientIo,
    BackendError,
    PayloadTooLarge,
}

/// A fatal failure: each aborts the session before editing begins.
#[derive(Clone, Copy, Debug, PartialEq, Eq, Structural)]
pub enum SessionFailure {
    /// The initial download failed; no session is started.
    DownloadFailed(DownloadError),
    /// The filesystem watch could not be established; without it no sync
    /// can occur.
    WatchFailed,
}

/// The session lifecycle. Transitions are strictly forward.
#[derive(Clone, Copy, Debug, PartialEq, Eq, Structural)]
pub enum SessionPhase {
    Initializing,
    Downloading,
    Editing,
    Stopping,
    Terminated,
}

/// One edit session's state.
#[derive(Clone, Copy, Debug, PartialEq, Eq, Structural)]
pub struct Session {
    /// Lifecycle phase.
    pub phase: SessionPhase,
    /// The debounce window coalescing change events.
    pub debouncer: Debouncer,
    /// The initial download has completed successfully.
    pub downloaded: bool,
    /// The background sync task (watcher, debouncer, upload loop) is running.
    pub sync_running: bool,
    /// An upload is currently in flight.
    pub upload_in_flight: bool,
    /// A flush arrived while an upload was in flight; the next upload
    /// starts when the current one completes.
    pub flush_queued: bool,
    /// The editor process has been launched.
    pub editor_launched: bool,
    /// The editor exited with a non-zero status.
    pub editor_failed: bool,
    /// The fatal failure that aborted the session, if any.
    pub failure: Option<SessionFailure>,
}

impl Session {
    /// Well-formedness of a session state; established by `new` and
    /// preserved by every transition.
    pub open spec fn wf(self) -> bool {
        &&& self.debouncer.wf()
        &&& (self.phase is Initializing ==> !self.downloaded && self.failure is None)
        &&& (self.phase is Downloading ==> self.failure is None)
        &&& ((self.phase is Initializing || self.phase is Downloading) ==> !self.sync_running
            && !self.upload_in_flight && !self.flush_queued && !self.editor_launched
            && !self.editor_failed && !self.debouncer.pending)
        &&& (self.phase is Editing ==> self.downloaded && self.sync_running
            && self.editor_launched && self.failure is None && !self.editor_failed)
        &&& (self.phase is Stopping ==> self.downloaded && self.sync_running
            && self.editor_launched && self.failure is None && !self.debouncer.pending)
        &&& (self.phase is Terminated ==> !self.sync_running && !self.upload_in_flight
            && !self.flush_queued && !self.debouncer.pending)
        &&& (self.failure is Some ==> self.phase is Terminated && !self.editor_launched
            && !self.editor_failed)
        &&& (self.flush_queued ==> self.upload_in_flight)
        &&& (self.upload_in_flight ==> self.sync_running)
        &&& (self.debouncer.pending ==> self.phase is Editing)
        &&& (self.editor_failed ==> self.editor_launched)
    }

    /// The process exit code the session calls for: zero exactly when no
    /// fatal failure occurred and the editor exited cleanly; non-fatal
    /// upload failures during the session do not affect it.
    pub open spec fn spec_exit_code(self) -> i32 {
        if self.failure is Some || self.editor_failed {
            1
        } else {
            0
        }
    }

    /// A fresh session in its initial phase.
    pub fn new(debounce_duration: u64) -> (s: Session)
        ensures
            s.wf(),
            s.phase is Initializing,
            s.debouncer.duration == debounce_duration,
            !s.editor_launched,
            s.failure is None,
    {
        Session {
            phase: SessionPhase::Initializing,
            debouncer: Debouncer::new(debounce_duration),
            downloaded: false,
            sync_running: false,
            upload_in_flight: false,
            flush_queued: false,
            editor_launched: false,
            editor_failed: false,
            failure: None,
        }
    }

    /// The working copy's path is resolved; the initial download begins.
    pub fn begin_download(&mut self)
        requires
            old(self).wf(),
            old(self).phase is Initializing,
        ensures
            final(self).wf(),
            *final(self) == (Session { phase: SessionPhase::Downloading, ..*old(self) }),
    {
        self.phase = SessionPhase::Downloading;
    }

    /// Records the outcome of the initial download. On success the session
    /// may proceed; on failure the whole session fails fatally: no watcher
    /// is started and no editor is ever launched.
    pub fn download_finished(&mut self, outcome: Option<DownloadError>)
        requires
            old(self).wf(),
            old(self).phase is Downloading,
            !old(self).downloaded,
        ensures
            final(self).wf(),
            *final(self) == spec_download_finished(*old(self), outcome),
            outcome is None ==> final(self).phase is Downloading && final(self).downloaded,
            outcome matches Some(e) ==> final(self).phase is Terminated && final(self).failure
                == Some(SessionFailure::DownloadFailed(e)) && !final(self).editor_launched,
    {
        match outcome {
            None => {
                self.downloaded = true;
            },
            Some(e) => {
                self.phase = SessionPhase::Terminated;
                self.failure = Some(SessionFailure::DownloadFailed(e));
            },
        }
    }

    /// Records the outcome of starting the filesystem watch on the working
    /// copy. On success the session enters `Editing`: the background sync
    /// task runs and the editor is launched; on failure the session fails
    /// fatally and no editor is launched.
    pub fn watch_started(&mut self, ok: bool) -> (launch_editor: bool)
        requires
            old(self).wf(),
            old(self).phase is Downloading,
            old(self).downloaded,
        ensures
            final(self).wf(),
            *final(self) == spec_watch_started(*old(self), ok),
            launch_editor == ok,
            ok ==> final(self).phase is Editing && final(self).sync_running && final(self).editor_launched,
            !ok ==> final(self).phase is Terminated && final(self).failure == Some(
                SessionFailure::WatchFailed,
            ) && !final(self).editor_launched,
    {
        if ok {
            self.phase = SessionPhase::Editing;
            self.sync_running = true;
            self.editor_launched = true;
            true
        } else {
            self.phase = SessionPhase::Terminated;
            self.failure = Some(SessionFailure::WatchFailed);
            false
        }
    }

    /// Feeds one raw change event, observed at time `now`, into the
    /// debounce window. Returns the absolute due time of a timer the
    /// caller must arm, when none was armed yet.
    pub fn on_change(&mut self, now: u64) -> (arm: Option<u64>)
        requires
            old(self).wf(),
            old(self).phase is Editing,
            old(self).debouncer.pending ==> now >= old(self).debouncer.last_event_time,
            now + old(self).debouncer.duration <= u64::MAX,
        ensures
            final(self).wf(),
            *final(self) == spec_on_change(*old(self), now),
            final(self).debouncer == spec_on_event(old(self).debouncer, now),
            arm == (if old(self).debouncer.pending {
                Option::<u64>::None
            } else {
                Option::<u64>::Some((now + old(self).debouncer.duration) as u64)
            }),
    {
        self.debouncer.on_event(now)
    }

    /// Decides what a debounce timer firing at time `now` means. When the
    /// window has settled this is a flush: an upload starts at once if
    /// none is in flight, else the flush is queued behind the one in
    /// flight. When a newer event arrived meanwhile, the timer is re-armed.
    pub fn on_timer_fired(&mut self, now: u64) -> (d: SyncDecision)
        requires
            old(self).wf(),
            old(self).phase is Editing,
            old(self).debouncer.pending,
            now >= old(self).debouncer.last_event_time,
        ensures
            final(self).wf(),
            *final(self) == spec_on_timer_fired(*old(self), now),
            spec_fires(old(self).debouncer, now) ==> !final(self).debouncer.pending && (if old(self).upload_in_flight {
                d is FlushQueued && final(self).flush_queued
            } else {
                d is StartUpload && final(self).upload_in_flight
            }),
            !spec_fires(old(self).debouncer, now) ==> (d matches SyncDecision::Rearm { deadline }
                && deadline == old(self).debouncer.last_event_time + old(self).debouncer.duration),
    {
        let verdict = self.debouncer.on_timer_fire(now);
        match verdict {
            TimerVerdict::Flush => {
                if self.upload_in_flight {
                    self.flush_queued = true;
                    SyncDecision::FlushQueued
                } else {
                    self.upload_in_flight = true;
                    SyncDecision::StartUpload
                }
            },
            TimerVerdict::Rearm { deadline } => SyncDecision::Rearm { deadline },
        }
    }

    /// Records that the upload in flight completed, successfully or with
    /// the given error. An upload failure is diagnostic only, whatever its
    /// kind: the session continues unchanged and the next flush uploads
    /// again. Returns whether a queued flush must start the next upload now.
    pub fn upload_finished(&mut self, outcome: Option<UploadError>) -> (start_next: bool)
        requires
            old(self).wf(),
            old(self).upload_in_flight,
            old(self).phase is Editing || old(self).phase is Stopping,
        ensures
            final(self).wf(),
            *final(self) == spec_upload_finished(*old(self), outcome),
            start_next == old(self).flush_queued,
            start_next ==> final(self).upload_in_flight && !final(self).flush_queued,
            !start_next ==> !final(self).upload_in_flight,
            final(self).phase == old(self).phase,
    {
        if self.flush_queued {
            self.flush_queued = false;
            true
        } else {
            self.upload_in_flight = false;
            false
        }
    }

    /// The editor process exited; the session starts stopping. A debounce
    /// window still pending becomes one final flush — started at once if
    /// no upload is in flight, else queued — so no edit made before
    /// editor-exit is silently lost. Returns whether to start that final
    /// upload now.
    pub fn editor_exited(&mut self, exit_ok: bool) -> (start_upload: bool)
        requires
            old(self).wf(),
            old(self).phase is Editing,
        ensures
            final(self).wf(),
            *final(self) == spec_editor_exited(*old(self), exit_ok),
            final(self).phase is Stopping,
            final(self).editor_failed == !exit_ok,
            !final(self).debouncer.pending,
            old(self).debouncer.pending ==> final(self).upload_in_flight,
            start_upload == (old(self).debouncer.pending && !old(self).upload_in_flight),
    {
        self.phase = SessionPhase::Stopping;
        self.editor_failed = !exit_ok;
        let was_pending = self.debouncer.take_pending();
        if was_pending {
            if self.upload_in_flight {
                self.flush_queued = true;
                false
            } else {
                self.upload_in_flight = true;
                true
            }
        } else {
            false
        }
    }

    /// The background sync task has drained — no upload in flight, no
    /// flush queued — and acknowledges the stop signal: the session
    /// terminates. Nothing is left running afterwards.
    pub fn sync_drained(&mut self)
        requires
            old(self).wf(),
            old(self).phase is Stopping,
            !old(self).upload_in_flight,
            !old(self).flush_queued,
        ensures
            final(self).wf(),
            *final(self) == spec_sync_drained(*old(self)),
            final(self).phase is Terminated,
            !final(self).sync_running,
    {
        self.phase = SessionPhase::Terminated;
        self.sync_running = false;
    }

    /// The process exit code: zero exactly when no fatal failure occurred
    /// and the editor exited cleanly, whatever upload failures were seen
    /// mid-session.
    pub fn exit_code(&self) -> (c: i32)
        requires
            self.phase is Terminated,
        ensures
            c == self.spec_exit_code(),
            (c == 0) <==> (self.failure is None && !self.editor_failed),
    {
        if self.failure.is_some() || self.editor_failed {
            1
        } else {
            0
        }
    }
}

/// What the caller must do after a debounce timer fire.
#[derive(Clone, Copy, Debug, PartialEq, Eq, Structural)]
pub enum SyncDecision {
    /// The window settled and no upload was in flight: read the working
    /// copy and start an upload.
    StartUpload,
    /// The window settled but an upload is in flight: the flush is queued;
    /// the next upload starts when the current one completes.
    FlushQueued,
    /// A newer event arrived since the timer was armed: arm a timer due at
    /// the given absolute time.
    Rearm { deadline: u64 },
}

/// State after `download_finished`.
pub open spec fn spec_download_finished(s: Session, outcome: Option<DownloadError>) -> Session {
    match outcome {
        None => Session { downloaded: true, ..s },
        Some(e) => Session {
            phase: SessionPhase::Terminated,
            failure: Some(SessionFailure::DownloadFailed(e)),
            ..s
        },
    }
}

/// State after `watch_started`.
pub open spec fn spec_watch_started(s: Session, ok: bool) -> Session {
    if ok {
        Session {
            phase: SessionPhase::Editing,
            sync_running: true,
            editor_launched: true,
            ..s
        }
    } else {
        Session {
            phase: SessionPhase::Terminated,
            failure: Some(SessionFailure::WatchFailed),
            ..s
        }
    }
}

/// State after `on_change`.
pub open spec fn spec_on_change(s: Session, now: u64) -> Session {
    Session { debouncer: spec_on_event(s.debouncer, now), ..s }
}

/// State after `on_timer_fired`.
pub open spec fn spec_on_timer_fired(s: Session, now: u64) -> Session {
    let d = spec_on_timer(s.debouncer, now);
    if spec_fires(s.debouncer, now) {
        if s.upload_in_flight {
            Session { debouncer: d, flush_queued: true, ..s }
        } else {
            Session { debouncer: d, upload_in_flight: true, ..s }
        }
    } else {
        Session { debouncer: d, ..s }
    }
}

/// State after `upload_finished`: the same whatever the outcome was.
pub open spec fn spec_upload_finished(s: Session, outcome: Option<UploadError>) -> Session {
    if s.flush_queued {
        Session { flush_queued: false, ..s }
    } else {
        Session { upload_in_flight: false, ..s }
    }
}

/// State after `editor_exited`.
pub open spec fn spec_editor_exited(s: Session, exit_ok: bool) -> Session {
    let stopped = Session {
        phase: SessionPhase::Stopping,
        editor_failed: !exit_ok,
        debouncer: (Debouncer { pending: false, ..s.debouncer }),
        ..s
    };
    if s.debouncer.pending {
        if s.upload_in_flight {
            Session { flush_queued: true, ..stopped }
        } else {
            Session { upload_in_flight: true, ..stopped }
        }
    } else {
        stopped
    }
}

/// State after `sync_drained`.
pub open spec fn spec_sync_drained(s: Session) -> Session {
    Session { phase: SessionPhase::Terminated, sync_running: false, ..s }
}

/// One event fed into the session machine, as the surrounding event loops
/// produce them.
#[derive(Clone, Copy, Debug, PartialEq, Eq, Structural)]
pub enum SessionEvent {
    /// The working copy's path is resolved.
    BeginDownload,
    /// The initial download completed, successfully or not.
    DownloadFinished { outcome: Option<DownloadError> },
    /// Starting the filesystem watch succeeded or failed.
    WatchStarted { ok: bool },
    /// A raw change event was observed at the given time.
    Change { at: u64 },
    /// The armed debounce timer fired at the given time.
    TimerFired { at: u64 },
    /// The upload in flight completed, successfully or with an error.
    UploadFinished { outcome: Option<UploadError> },
    /// The editor process exited, cleanly or not.
    EditorExited { exit_ok: bool },
    /// The background sync task drained and acknowledged the stop signal.
    SyncDrained,
}

/// The guard of each transition: whether the event can occur against
/// state `s` in a real run.
pub open spec fn event_ok(s: Session, ev: SessionEvent) -> bool {
    match ev {
        SessionEvent::BeginDownload => s.phase is Initializing,
        SessionEvent::DownloadFinished { .. } => s.phase is Downloading && !s.downloaded,
        SessionEvent::WatchStarted { .. } => s.phase is Downloading && s.downloaded,
        SessionEvent::Change { at } => s.phase is Editing && (s.debouncer.pending ==> at
            >= s.debouncer.last_event_time) && at + s.debouncer.duration <= u64::MAX,
        SessionEvent::TimerFired { at } => s.phase is Editing && s.debouncer.pending && at
            >= s.debouncer.last_event_time,
        SessionEvent::UploadFinished { .. } => s.upload_in_flight && (s.phase is Editing
            || s.phase is Stopping),
        SessionEvent::EditorExited { .. } => s.phase is Editing,
        SessionEvent::SyncDrained => s.phase is Stopping && !s.upload_in_flight
            && !s.flush_queued,
    }
}

/// The state after one event; an event whose guard does not hold leaves
/// the state unchanged.
pub open spec fn spec_step(s: Session, ev: SessionEvent) -> Session {
    if event_ok(s, ev) {
        match ev {
            SessionEvent::BeginDownload => Session { phase: SessionPhase::Downloading, ..s },
            SessionEvent::DownloadFinished { outcome } => spec_download_finished(s, outcome),
            SessionEvent::WatchStarted { ok } => spec_watch_started(s, ok),
            SessionEvent::Change { at } => spec_on_change(s, at),
            SessionEvent::TimerFired { at } => spec_on_timer_fired(s, at),
            SessionEvent::UploadFinished { outcome } => spec_upload_finished(s, outcome),
            SessionEvent::EditorExited { exit_ok } => spec_editor_exited(s, exit_ok),
            SessionEvent::SyncDrained => spec_sync_drained(s),
        }
    } else {
        s
    }
}

/// The state after a whole run of events.
pub open spec fn spec_run(s: Session, evs: Seq<SessionEvent>) -> Session
    decreases evs.len(),
{
    if evs.len() == 0 {
        s
    } else {
        spec_run(spec_step(s, evs[0]), evs.drop_first())
    }
}

/// Whether the event makes an upload begin.
pub open spec fn starts_upload(s: Session, ev: SessionEvent) -> bool {
    event_ok(s, ev) && match ev {
        SessionEvent::TimerFired { at } => spec_fires(s.debouncer, at) && !s.upload_in_flight,
        SessionEvent::UploadFinished { .. } => s.flush_queued,
        SessionEvent::EditorExited { .. } => s.debouncer.pending && !s.upload_in_flight,
        _ => false,
    }
}

/// Every transition preserves well-formedness.
pub proof fn lemma_step_wf(s: Session, ev: SessionEvent)
    requires
        s.wf(),
    ensures
        spec_step(s, ev).wf(),
{
}

/// Well-formedness holds in every state a run reaches.
pub proof fn lemma_run_wf(s: Session, evs: Seq<SessionEvent>)
    requires
        s.wf(),
    ensures
        spec_run(s, evs).wf(),
    decreases evs.len(),
{
    if evs.len() != 0 {
        lemma_step_wf(s, evs[0]);
        lemma_run_wf(spec_step(s, evs[0]), evs.drop_first());
    }
}

/// A terminated session is absorbing: no later event changes it.
pub proof fn lemma_terminated_absorbing(s: Session, evs: Seq<SessionEvent>)
    requires
        s.wf(),
        s.phase is Terminated,
    ensures
        spec_run(s, evs) == s,
    decreases evs.len(),
{
    if evs.len() != 0 {
        assert(spec_step(s, evs[0]) == s);
        lemma_terminated_absorbing(s, evs.drop_first());
    }
}

/// Fatal before edit: when the initial download fails, the session
/// terminates at once with a non-zero exit code, no later event revives
/// it, and the editor is never launched.
pub proof fn lemma_fatal_download_never_edits(
    s: Session,
    e: DownloadError,
    evs: Seq<SessionEvent>,
)
    requires
        s.wf(),
        s.phase is Downloading,
        !s.downloaded,
    ensures
        ({
            let t = spec_run(spec_download_finished(s, Some(e)), evs);
            &&& t.phase is Terminated
            &&& !t.editor_launched
            &&& t.spec_exit_code() != 0
        }),
{
    let ev = SessionEvent::DownloadFinished { outcome: Some(e) };
    lemma_step_wf(s, ev);
    assert(spec_step(s, ev) == spec_download_finished(s, Some(e)));
    lemma_terminated_absorbing(spec_download_finished(s, Some(e)), evs);
}

/// Clean shutdown: once a run reaches `Terminated`, nothing of the
/// background sync is left behind — the sync task has stopped, no upload
/// is in flight, no flush is queued and no debounce window is pending.
/// Together with the final-flush policy of `editor_exited`, an edit still
/// pending at editor-exit has been uploaded, not dropped.
pub proof fn lemma_clean_shutdown(s: Session, evs: Seq<SessionEvent>)
    requires
        s.wf(),
    ensures
        ({
            let t = spec_run(s, evs);
            t.phase is Terminated ==> !t.sync_running && !t.upload_in_flight && !t.flush_queued
                && !t.debouncer.pending
        }),
{
    lemma_run_wf(s, evs);
}

/// The position of a phase in the lifecycle order.
pub open spec fn phase_index(p: SessionPhase) -> int {
    match p {
        SessionPhase::Initializing => 0,
        SessionPhase::Downloading => 1,
        SessionPhase::Editing => 2,
        SessionPhase::Stopping => 3,
        SessionPhase::Terminated => 4,
    }
}

/// Lifecycle transitions are strictly forward: no event ever moves the
/// session back to an earlier phase, and there is no resume or retry of
/// a whole session.
pub proof fn lemma_phases_forward(s: Session, ev: SessionEvent)
    requires
        s.wf(),
    ensures
        phase_index(spec_step(s, ev).phase) >= phase_index(s.phase),
{
}

/// Upload serialization: an upload begins only when no upload is in
/// flight — either none was, or the event that starts it is the very
/// completion of the previous one. Uploads of one session therefore never
/// overlap: for two flushes f1 before f2, the upload for f1 completes
/// before the upload for f2 begins, and the later upload carries the
/// working copy's content as read at its own, later, start.
pub proof fn lemma_uploads_serialized(s: Session, ev: SessionEvent)
    requires
        s.wf(),
        starts_upload(s, ev),
    ensures
        !s.upload_in_flight || ev is UploadFinished,
        spec_step(s, ev).upload_in_flight,
{
}

/// Upload serialization holds at every state a run reaches from a
/// well-formed session, not only at the start.
pub proof fn lemma_uploads_serialized_in_run(
    s: Session,
    evs: Seq<SessionEvent>,
    ev: SessionEvent,
)
    requires
        s.wf(),
        starts_upload(spec_run(s, evs), ev),
    ensures
        !spec_run(s, evs).upload_in_flight || ev is UploadFinished,
{
    lemma_run_wf(s, evs);
    lemma_uploads_serialized(spec_run(s, evs), ev);
}

} // verus!
