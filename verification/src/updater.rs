//! The update-check coordinator.
//!
//! An [`Updater`] owns the durable state for one workflow, decides when
//! a release check is due, hands a due check to a background worker
//! over a one-shot channel, merges whatever the check reports back into
//! the state, and answers "is a newer release ready" in blocking and
//! non-blocking form. The host process exits after every invocation, so
//! the state is persisted after every meaningful transition.

use vstd::prelude::*;

use crate::channel::{
    payload_channel, recv_payload, try_recv_payload, PollOutcome, ReleasePayload,
};
use crate::error::UpdaterError;
use crate::names::{download_file_name, sanitized, updater_state_file_name, STATUS_FILE_NAME};
use crate::releaser::Releaser;
use crate::state::{
    default_interval, due_spec, merge_spec, ready_spec, UpdateInfo, UpdaterState, UPDATE_INTERVAL,
};
use crate::store::StateStore;
use crate::version::{adopted_version, parse_semver_required, semver_lt, semver_triple, SemVer};

verus! {

/// The identity the environment gives a workflow. The unique identifier
/// is required for any persistence; a missing display name falls back
/// to a fixed placeholder; the version string, where present, must
/// follow the semantic-version grammar.
pub struct WorkflowEnv {
    pub uid: Option<String>,
    pub name: Option<String>,
    pub version: Option<String>,
}

/// The hand-off slot for one check cycle. It moves forward only:
/// a pending receiver resolves at most once, and a resolved slot is
/// never read from the channel again.
pub enum WorkerState {
    /// No check was started this invocation.
    NotStarted,
    /// A background check is outstanding; its one message is still in
    /// the channel.
    Pending(std::sync::mpsc::Receiver<ReleasePayload>),
    /// The check's payload is known (first run and cache reads resolve
    /// without a worker) but not merged into the state yet.
    Delivered(Option<UpdateInfo>),
    /// The payload has been merged; readiness is answered from the
    /// state alone.
    Resolved,
}

/// What a caller must do after [`Updater::init`] decided: nothing, or
/// run one release check and report its result through the sender.
pub enum InitAction {
    /// The check resolved locally; query readiness whenever convenient.
    AlreadyResolved,
    /// A check is due: perform it (see [`run_release_check`]) on a
    /// worker of the caller's choosing, sending exactly one message.
    RunCheck(std::sync::mpsc::Sender<ReleasePayload>),
}

/// Checks for and reports the latest release of a workflow from a
/// remote server reached through a [`Releaser`], persisting through a
/// [`StateStore`].
pub struct Updater<T: Releaser, S: StateStore> {
    pub state: UpdaterState,
    pub releaser: T,
    pub store: S,
    pub uid: String,
    pub name: String,
    pub state_file: String,
    pub worker: WorkerState,
}

impl<T: Releaser, S: StateStore> Updater<T, S> {
    /// Loads the persisted updater state, or creates and immediately
    /// persists a fresh one when none can be read, so a missing or
    /// corrupt file heals itself. An environment-supplied version must
    /// parse and then replaces the persisted one only when strictly
    /// newer.
    pub fn load_or_new(releaser: T, store: S, env: WorkflowEnv) -> (r: Result<
        Updater<T, S>,
        UpdaterError,
    >)
        ensures
            env.uid is None ==> (r matches Err(e) && e is MissingUid),
            (env.uid is Some && (env.version matches Some(vs) && semver_triple(vs@) is None))
                ==> (r matches Err(e) && e is InvalidVersion),
            r matches Ok(u) ==> {
                &&& u.worker is NotStarted
                &&& u.state.update_interval == UPDATE_INTERVAL
                &&& env.uid == Some(u.uid)
                &&& (match env.name {
                    Some(n) => u.name == n,
                    None => u.name@ == "YouForgotTo/NameYourOwnWorkflow"@,
                })
                &&& u.state_file@ == u.uid@ + "-"@ + sanitized(u.name@) + "-updater.json"@
                &&& (env.version matches Some(vs) ==> semver_triple(vs@) matches Some(t) && {
                    let ev = SemVer { major: t.0, minor: t.1, patch: t.2 };
                    u.state.current_version == ev || !semver_lt(u.state.current_version, ev)
                })
            },
    {
        let uid = match env.uid {
            Some(u) => u,
            None => {
                return Err(UpdaterError::MissingUid);
            },
        };
        let name = match env.name {
            Some(n) => n,
            None => "YouForgotTo/NameYourOwnWorkflow".to_owned(),
        };
        let env_ver: Option<SemVer> = match &env.version {
            Some(vs) => Some(parse_semver_required(vs.as_str())?),
            None => None,
        };
        let state_file = updater_state_file_name(uid.as_str(), name.as_str());
        match store.load_state(state_file.as_str()) {
            Some(mut st) => {
                // The interval is session-scoped: always the default,
                // never what an older invocation left on disk.
                st.update_interval = default_interval();
                if let Some(v) = env_ver {
                    st.adopt_version(v);
                }
                Ok(
                    Updater {
                        state: st,
                        releaser,
                        store,
                        uid,
                        name,
                        state_file,
                        worker: WorkerState::NotStarted,
                    },
                )
            },
            None => {
                let current = match env_ver {
                    Some(v) => v,
                    None => SemVer::zero(),
                };
                let u = Updater {
                    state: UpdaterState::fresh(current),
                    releaser,
                    store,
                    uid,
                    name,
                    state_file,
                    worker: WorkerState::NotStarted,
                };
                u.save()?;
                Ok(u)
            },
        }
    }

    /// An updater talking to the release source that identifies itself
    /// as `repo_name`; otherwise exactly [`Updater::load_or_new`].
    pub fn new(repo_name: String, store: S, env: WorkflowEnv) -> (r: Result<
        Updater<T, S>,
        UpdaterError,
    >)
        ensures
            env.uid is None ==> (r matches Err(e) && e is MissingUid),
            (env.uid is Some && (env.version matches Some(vs) && semver_triple(vs@) is None))
                ==> (r matches Err(e) && e is InvalidVersion),
            r matches Ok(u) ==> u.worker is NotStarted && u.state.update_interval
                == UPDATE_INTERVAL,
    {
        let releaser = T::new(repo_name);
        Self::load_or_new(releaser, store, env)
    }

    /// Persists the updater's durable state.
    fn save(&self) -> Result<(), UpdaterError> {
        self.store.save_state(self.state_file.as_str(), &self.state)
    }

    /// The workflow's current version.
    pub fn current_version(&self) -> (r: &SemVer)
        ensures
            *r == self.state.current_version,
    {
        &self.state.current_version
    }

    /// When the last release check happened, in seconds since the Unix
    /// epoch; `None` on a workflow that never checked.
    pub fn last_check(&self) -> (r: Option<i64>)
        ensures
            r == self.state.last_check,
    {
        self.state.last_check
    }

    /// Sets the workflow's version; the string must follow the
    /// semantic-version grammar, else nothing changes and the parse
    /// error is returned.
    pub fn set_version(&mut self, version: &str) -> (r: Result<(), UpdaterError>)
        ensures
            match r {
                Ok(_) => semver_triple(version@) matches Some(t) && final(self).state == (
                UpdaterState {
                    current_version: SemVer { major: t.0, minor: t.1, patch: t.2 },
                    ..old(self).state
                }),
                Err(e) => e is InvalidVersion && semver_triple(version@) is None && final(self).state == old(self).state,
            },
            final(self).worker == old(self).worker,
    {
        let v = parse_semver_required(version)?;
        self.state.set_version(v);
        Ok(())
    }

    /// Sets the interval between release checks, in seconds.
    pub fn set_interval(&mut self, tick: i64)
        ensures
            final(self).state == (UpdaterState { update_interval: tick, ..old(self).state }),
            final(self).worker == old(self).worker,
    {
        self.state.update_interval = tick;
    }

    /// Whether it is time to ask the remote server for the latest
    /// release: always on a workflow that never checked, otherwise once
    /// more than the interval has elapsed since the last check.
    pub fn due_to_check(&self) -> (r: bool)
        ensures
            self.state.last_check is None ==> r,
    {
        let now = crate::clock::now_epoch();
        self.due_to_check_at(now)
    }

    /// [`Updater::due_to_check`] at the given time.
    pub fn due_to_check_at(&self, now: i64) -> (r: bool)
        ensures
            r == due_spec(self.state, now),
    {
        self.state.due_at(now)
    }

    /// Starts one check cycle: the very first check resolves locally as
    /// "no update" (a user who just installed is never prompted), a due
    /// check is handed to the caller to run on a worker, and an undue
    /// one resolves from the cached status of the last check — no
    /// network is involved in either local branch.
    pub fn init(&mut self) -> (r: Result<InitAction, UpdaterError>)
        ensures
            old(self).state.last_check is None ==> final(self).state == (UpdaterState {
                last_check: final(self).state.last_check,
                ..old(self).state
            }) && final(self).state.last_check is Some,
            old(self).state.last_check is None && r is Ok ==> (final(self).worker matches WorkerState::Delivered(p) && p is None),
            old(self).state.last_check is Some ==> final(self).state == old(self).state,
            old(self).state.last_check is Some ==> (final(self).worker matches WorkerState::Delivered(p) ==> (p matches Some(info) ==> semver_lt(
                old(self).state.current_version,
                info.version,
            ))),
            old(self).state.last_check is Some ==> (r matches Ok(a) ==> (a is RunCheck <==> final(self).worker is Pending)),
    {
        let now = crate::clock::now_epoch();
        self.init_at(now)
    }

    /// [`Updater::init`] at the given time.
    pub fn init_at(&mut self, now: i64) -> (r: Result<InitAction, UpdaterError>)
        ensures
            old(self).state.last_check is None ==> {
                &&& final(self).state == (UpdaterState {
                    last_check: Some(now),
                    ..old(self).state
                })
                &&& (match r {
                    Ok(a) => a is AlreadyResolved && (final(self).worker matches WorkerState::Delivered(p) && p is None),
                    Err(_) => final(self).worker == old(self).worker,
                })
            },
            old(self).state.last_check is Some && due_spec(old(self).state, now) ==> {
                &&& final(self).state == old(self).state
                &&& r matches Ok(a) && a is RunCheck
                &&& final(self).worker is Pending
            },
            old(self).state.last_check is Some && !due_spec(old(self).state, now) ==> {
                &&& final(self).state == old(self).state
                &&& r matches Ok(a) && a is AlreadyResolved
                &&& final(self).worker matches WorkerState::Delivered(p) && (p matches Some(info)
                    ==> semver_lt(old(self).state.current_version, info.version))
            },
    {
        if self.state.last_check.is_none() {
            self.state.last_check = Some(now);
            self.save()?;
            self.worker = WorkerState::Delivered(None);
            Ok(InitAction::AlreadyResolved)
        } else if self.state.due_at(now) {
            let (tx, rx) = payload_channel();
            self.worker = WorkerState::Pending(rx);
            Ok(InitAction::RunCheck(tx))
        } else {
            let cached = self.store.load_status(STATUS_FILE_NAME);
            let payload = filter_cached(&self.state.current_version, cached);
            self.worker = WorkerState::Delivered(payload);
            Ok(InitAction::AlreadyResolved)
        }
    }

    /// Whether a newer release is available, waiting for an outstanding
    /// background check to deliver its result (blocking).
    pub fn update_ready(&mut self) -> (r: Result<bool, UpdaterError>)
        ensures
            old(self).worker is Resolved ==> final(self).state == old(self).state && final(self).worker is Resolved && r is Ok && (r matches Ok(b) ==> b == ready_spec(
                old(self).state,
            )),
            old(self).worker matches WorkerState::Delivered(p) ==> final(self).state == merge_spec(
                old(self).state,
                p,
            ) && final(self).worker is Resolved && (r matches Ok(b) ==> b == ready_spec(
                final(self).state,
            )),
            old(self).worker is Pending ==> (match r {
                Ok(b) => final(self).worker is Resolved && final(self).state == merge_spec(
                    old(self).state,
                    final(self).state.avail_release,
                ) && b == ready_spec(final(self).state),
                Err(_) => (final(self).worker is Pending && final(self).state == old(self).state)
                    || (final(self).worker is Resolved && final(self).state == merge_spec(
                    old(self).state,
                    final(self).state.avail_release,
                )),
            }),
            old(self).worker is NotStarted ==> final(self).worker is NotStarted,
            old(self).worker is NotStarted && old(self).state.last_check is None ==> (r matches Ok(
                b,
            ) ==> b == false && final(self).state.last_check is Some),
    {
        let now = crate::clock::now_epoch();
        self.update_ready_at(true, now)
    }

    /// Whether a newer release is available, without waiting: a
    /// background check that has not delivered yet is a
    /// [`UpdaterError::NotReady`] error (non-blocking).
    pub fn try_update_ready(&mut self) -> (r: Result<bool, UpdaterError>)
        ensures
            old(self).worker is Resolved ==> final(self).state == old(self).state && final(self).worker is Resolved && r is Ok && (r matches Ok(b) ==> b == ready_spec(
                old(self).state,
            )),
            old(self).worker matches WorkerState::Delivered(p) ==> final(self).state == merge_spec(
                old(self).state,
                p,
            ) && final(self).worker is Resolved && (r matches Ok(b) ==> b == ready_spec(
                final(self).state,
            )),
            old(self).worker is Pending ==> (match r {
                Ok(b) => final(self).worker is Resolved && final(self).state == merge_spec(
                    old(self).state,
                    final(self).state.avail_release,
                ) && b == ready_spec(final(self).state),
                Err(_) => (final(self).worker is Pending && final(self).state == old(self).state)
                    || (final(self).worker is Resolved && final(self).state == merge_spec(
                    old(self).state,
                    final(self).state.avail_release,
                )),
            }),
            old(self).worker is NotStarted ==> final(self).worker is NotStarted,
            old(self).worker is NotStarted && old(self).state.last_check is None ==> (r matches Ok(
                b,
            ) ==> b == false && final(self).state.last_check is Some),
    {
        let now = crate::clock::now_epoch();
        self.update_ready_at(false, now)
    }

    /// One readiness query at the given time. The slot decides the
    /// path: a resolved slot answers from the state alone; a delivered
    /// payload is merged now, exactly once; a pending worker is read
    /// (waiting only when `blocking`); and a never-initialised updater
    /// runs the whole policy inline, synchronously.
    pub fn update_ready_at(&mut self, blocking: bool, now: i64) -> (r: Result<bool, UpdaterError>)
        ensures
            old(self).worker is Resolved ==> final(self).state == old(self).state && final(self).worker is Resolved && r is Ok && (r matches Ok(b) ==> b == ready_spec(
                old(self).state,
            )),
            old(self).worker matches WorkerState::Delivered(p) ==> {
                &&& final(self).state == merge_spec(old(self).state, p)
                &&& final(self).worker is Resolved
                &&& (r matches Ok(b) ==> b == ready_spec(final(self).state))
            },
            old(self).worker is Pending ==> (match r {
                Ok(b) => final(self).worker is Resolved && final(self).state == merge_spec(
                    old(self).state,
                    final(self).state.avail_release,
                ) && b == ready_spec(final(self).state),
                Err(_) => (final(self).worker is Pending && final(self).state == old(self).state)
                    || (final(self).worker is Resolved && final(self).state == merge_spec(
                    old(self).state,
                    final(self).state.avail_release,
                )),
            }),
            old(self).worker is NotStarted ==> final(self).worker is NotStarted,
            old(self).worker is NotStarted && old(self).state.last_check is None ==> {
                &&& final(self).state == (UpdaterState {
                    last_check: Some(now),
                    ..old(self).state
                })
                &&& (r matches Ok(b) ==> b == false)
            },
            old(self).worker is NotStarted && old(self).state.last_check is Some && due_spec(
                old(self).state,
                now,
            ) ==> (r matches Ok(b) ==> {
                &&& final(self).state.avail_release matches Some(info) && info.fetched_at == Some(
                    now,
                )
                &&& final(self).state.last_check == Some(now)
                &&& final(self).state.current_version == old(self).state.current_version
                &&& final(self).state.update_interval == old(self).state.update_interval
                &&& b == ready_spec(final(self).state)
            }),
            old(self).worker is NotStarted && old(self).state.last_check is Some && !due_spec(
                old(self).state,
                now,
            ) ==> final(self).state == old(self).state && r is Ok,
    {
        let prev = self.take_worker();
        match prev {
            WorkerState::NotStarted => {
                self.worker = WorkerState::NotStarted;
                self.update_ready_sync(now)
            },
            WorkerState::Pending(rx) => {
                let msg: ReleasePayload = if blocking {
                    match recv_payload(&rx) {
                        Some(m) => m,
                        None => {
                            self.worker = WorkerState::Pending(rx);
                            return Err(UpdaterError::WorkerCommunication);
                        },
                    }
                } else {
                    match try_recv_payload(&rx) {
                        PollOutcome::Delivered(m) => m,
                        PollOutcome::NothingYet => {
                            self.worker = WorkerState::Pending(rx);
                            return Err(UpdaterError::NotReady);
                        },
                        PollOutcome::Closed => {
                            self.worker = WorkerState::Pending(rx);
                            return Err(UpdaterError::WorkerCommunication);
                        },
                    }
                };
                match msg {
                    Ok(payload) => {
                        self.state.merge_payload(payload);
                        self.save()?;
                        Ok(self.state.ready())
                    },
                    Err(e) => {
                        // The payload error wins; persisting is only a
                        // best effort here, and the drained channel will
                        // never deliver again, so the slot stays pending
                        // until the caller starts a new cycle.
                        self.worker = WorkerState::Pending(rx);
                        let _ = self.save();
                        Err(e)
                    },
                }
            },
            WorkerState::Delivered(payload) => {
                self.state.merge_payload(payload);
                self.save()?;
                Ok(self.state.ready())
            },
            WorkerState::Resolved => Ok(self.state.ready()),
        }
    }

    /// Moves the slot out, leaving it resolved; the caller restores any
    /// slot that must survive.
    fn take_worker(&mut self) -> (w: WorkerState)
        ensures
            w == old(self).worker,
            final(self).worker is Resolved,
            final(self).state == old(self).state,
    {
        let mut w = WorkerState::Resolved;
        core::mem::swap(&mut self.worker, &mut w);
        w
    }

    /// The whole policy in one synchronous pass, for callers that never
    /// initialised a check cycle: the first check records the time and
    /// reports no update; a due check asks the release source inline,
    /// caches and merges the answer; an undue one answers from the
    /// cached status of the last check.
    fn update_ready_sync(&mut self, now: i64) -> (r: Result<bool, UpdaterError>)
        ensures
            final(self).worker == old(self).worker,
            old(self).state.last_check is None ==> {
                &&& final(self).state == (UpdaterState {
                    last_check: Some(now),
                    ..old(self).state
                })
                &&& (r matches Ok(b) ==> b == false)
            },
            old(self).state.last_check is Some && due_spec(old(self).state, now) ==> (r matches Ok(
                b,
            ) ==> {
                &&& final(self).state.avail_release matches Some(info) && info.fetched_at == Some(
                    now,
                )
                &&& final(self).state.last_check == Some(now)
                &&& final(self).state.current_version == old(self).state.current_version
                &&& final(self).state.update_interval == old(self).state.update_interval
                &&& b == ready_spec(final(self).state)
            }),
            old(self).state.last_check is Some && !due_spec(old(self).state, now) ==> final(self).state == old(self).state && r is Ok,
    {
        if self.state.last_check.is_none() {
            self.state.last_check = Some(now);
            self.save()?;
            Ok(false)
        } else if self.state.due_at(now) {
            let fetched = self.releaser.latest_release()?;
            let update_avail = self.state.current_version.lt(&fetched.0);
            let mut info = UpdateInfo::new(fetched.0, fetched.1);
            info.set_fetched_at(now);
            let payload = Some(info);
            self.state.last_check = Some(now);
            self.store.save_status(STATUS_FILE_NAME, &payload)?;
            self.state.avail_release = payload;
            self.save()?;
            Ok(update_avail)
        } else {
            let cached = self.store.load_status(STATUS_FILE_NAME);
            Ok(cached_newer(&self.state.current_version, cached))
        }
    }

    /// The address and file name for downloading the newest known
    /// release: a hard error until a release check has made one known
    /// (check readiness before downloading), else the release's address
    /// and the fixed name `latest_release_<sanitized name>.alfredworkflow`.
    pub fn download_target(&self) -> (r: Result<(String, String), UpdaterError>)
        ensures
            self.state.avail_release is None <==> (r matches Err(e) && e is NoReleaseInfo),
            match r {
                Ok(target) => self.state.avail_release matches Some(info) && target.0@
                    == info.downloadable_url@ && target.1@ == "latest_release_"@ + sanitized(
                    self.name@,
                ) + ".alfredworkflow"@,
                Err(e) => e is NoReleaseInfo,
            },
    {
        match &self.state.avail_release {
            None => Err(UpdaterError::NoReleaseInfo),
            Some(info) => {
                let url = info.downloadable_url.clone();
                let file = download_file_name(self.name.as_str());
                Ok((url, file))
            },
        }
    }
}

/// The payload an undue check resolves with, from the cached status of
/// the last check: the cached release only where it is strictly newer
/// than the current version; a missing or stale cache resolves to
/// nothing, never to an error.
pub fn filter_cached(current: &SemVer, cached: Option<Option<UpdateInfo>>) -> (r: Option<
    UpdateInfo,
>)
    ensures
        r == (match cached {
            Some(inner) => match inner {
                Some(info) => if semver_lt(*current, info.version) {
                    Some(info)
                } else {
                    None
                },
                None => None::<UpdateInfo>,
            },
            None => None::<UpdateInfo>,
        }),
{
    match cached {
        Some(Some(info)) => {
            if current.lt(&info.version) {
                Some(info)
            } else {
                None
            }
        },
        _ => None,
    }
}

/// Whether the cached status of the last check shows a release strictly
/// newer than the current version; a missing or unreadable cache means
/// "no", never an error.
pub fn cached_newer(current: &SemVer, cached: Option<Option<UpdateInfo>>) -> (r: bool)
    ensures
        r == (match cached {
            Some(inner) => match inner {
                Some(info) => semver_lt(*current, info.version),
                None => false,
            },
            None => false,
        }),
{
    match cached {
        Some(Some(info)) => current.lt(&info.version),
        _ => false,
    }
}

/// One release check, as a worker runs it: ask the release source,
/// stamp the answer with the fetch time, cache it for undue checks of
/// later invocations, and send exactly one message — the stamped
/// release or the error — through the hand-off channel. Returns whether
/// the receiving side was still there to take the message.
pub fn run_release_check<T: Releaser, S: StateStore>(
    releaser: &T,
    store: &S,
    tx: &std::sync::mpsc::Sender<ReleasePayload>,
    now: i64,
) -> bool {
    match releaser.latest_release() {
        Ok(fetched) => {
            let mut info = UpdateInfo::new(fetched.0, fetched.1);
            info.set_fetched_at(now);
            let payload = Some(info);
            match store.save_status(STATUS_FILE_NAME, &payload) {
                Ok(_) => crate::channel::send_payload(tx, Ok(payload)),
                Err(e) => crate::channel::send_payload(tx, Err(e)),
            }
        },
        Err(e) => crate::channel::send_payload(tx, Err(e)),
    }
}

/// Law: on a fresh install (a state that never checked) the first
/// readiness resolution reports no update — whatever the remote source
/// would have said — and the state records the time of this first
/// check.
pub proof fn lemma_first_run_never_ready(st: UpdaterState, now: i64)
    requires
        st.last_check is None,
    ensures
        ({
            let after_init = UpdaterState { last_check: Some(now), ..st };
            let resolved = merge_spec(after_init, None);
            &&& !ready_spec(resolved)
            &&& resolved.last_check == Some(now)
        }),
{
}

/// Law: after a check's payload is merged, the updater is ready exactly
/// when the reported release is strictly newer than the current
/// version, and the merged record holds exactly the reported release.
pub proof fn lemma_merged_release_readiness(st: UpdaterState, info: UpdateInfo)
    ensures
        ({
            let merged = merge_spec(st, Some(info));
            &&& ready_spec(merged) == semver_lt(st.current_version, info.version)
            &&& merged.avail_release == Some(info)
            &&& merged.current_version == st.current_version
        }),
{
}

/// Law: an environment-supplied version replaces the persisted one
/// exactly when strictly newer, and the adopted version is never older
/// than the persisted one.
pub proof fn lemma_env_version_newer_wins(persisted: SemVer, env: SemVer)
    ensures
        semver_lt(persisted, env) ==> adopted_version(persisted, env) == env,
        !semver_lt(persisted, env) ==> adopted_version(persisted, env) == persisted,
        !semver_lt(adopted_version(persisted, env), persisted),
{
}

} // verus!
