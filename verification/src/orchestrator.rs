//! The fleet lifecycle orchestrator: a state machine that validates the run,
//! reserves a user-number block, provisions and spawns instances with
//! staggering, waits out the run, then kills every tracked handle and sweeps
//! by process name.
//!
//! The machine only decides. Its caller performs each returned [`Action`]
//! against the real world — network, file system, processes, the clock — and
//! feeds the outcome back in as the next call. Every fatal failure moves the
//! machine to its terminal failed phase at once; kill failures during
//! teardown are collected and never abort it.

use vstd::prelude::*;
use crate::config::{RunConfig, RemoteEndpoints, spec_executable_path, clone_string_vec};
use crate::counter::{
    UserBlock,
    counter_after,
    assigned_number,
    plan_reservation,
    lemma_assigned_numbers_distinct,
};
use crate::provision::{
    spec_username,
    spec_auth_file_path,
    spec_credential_json,
    synthetic_username,
    auth_file_path,
    credential_json,
};
use crate::supervisor::{ProcessInfo, KillOutcome, sweep_targets, spec_sweep_targets, clone_pid_vec};

verus! {

/// Why a run ended in failure. Every variant but the collected kill
/// failures is fatal and ends the run at once, with no retry anywhere.
#[derive(Clone, Copy, PartialEq, Eq, Structural, Debug)]
pub enum RunError {
    /// Bad run parameters or a missing executable; raised during validation,
    /// before any remote or process call.
    ConfigError,
    /// The counter reservation failed: a counter read or write errored, or
    /// the counter value could not take the block.
    RemoteUnavailable,
    /// Provisioning failed: the login request errored, returned no token, or
    /// the credential could not be persisted.
    AuthError,
    /// An instance could not be launched.
    SpawnError,
}

/// Where the provisioning and spawning of the current ordinal stands.
#[derive(Clone, Copy, PartialEq, Eq, Structural, Debug)]
pub enum SpawnStage {
    /// The login request for this ordinal's user is outstanding.
    RequestingToken,
    /// The credential file write is outstanding.
    PersistingCredential,
    /// The launch of this ordinal's instance is outstanding.
    Launching,
    /// The stagger pause after this ordinal's launch is outstanding.
    Staggering,
}

/// The orchestrator's place in the run. The failed phase and the done phase
/// are both terminal.
#[derive(Clone, Copy, PartialEq, Eq, Structural, Debug)]
pub enum Phase {
    /// Nothing has happened yet.
    Idle,
    /// The executable existence check is outstanding.
    Validating,
    /// The block reservation is in flight: first the counter read, then,
    /// once `wrote` is set, the write of the advanced counter.
    ReservingBlock { wrote: bool },
    /// Instances are being provisioned and launched, one ordinal at a time,
    /// counted from 1.
    Spawning { ordinal: i32, stage: SpawnStage },
    /// All instances are up; the run-duration sleep is outstanding.
    Running,
    /// Tracked handles are being killed one at a time; `next` indexes the
    /// handle whose kill is outstanding.
    Terminating { next: usize },
    /// The best-effort sweep: first the process enumeration, then, once
    /// `killing` is set, the kill of every matching pid.
    SweepingByName { killing: bool },
    /// The run finished; the report is ready.
    Done,
    /// The run ended early with a fatal error.
    Failed { error: RunError },
}

/// One step of real-world work the caller must perform next.
#[derive(Debug)]
pub enum Action {
    /// Check whether the target executable exists at this path.
    CheckExecutable { path: String },
    /// Read the shared user-number counter from the remote store.
    ReadCounter,
    /// Write this value back to the shared user-number counter.
    WriteCounter { value: i32 },
    /// Send the login form for this user and hand back the token, if any.
    RequestToken { url: String, username: String, password: String },
    /// Write the credential file contents at this path, replacing any file
    /// already there.
    PersistCredential { path: String, contents: String },
    /// Launch the executable at this path with these arguments, with no
    /// shell in between, and hand back a handle.
    Launch { path: String, args: Vec<String> },
    /// Block the orchestrator for this many seconds.
    Sleep { seconds: u64 },
    /// Send a forced termination signal to this tracked handle.
    Kill { handle: u64 },
    /// Enumerate all currently running OS processes.
    ListProcesses,
    /// Send a forced termination signal to each of these pids and hand back
    /// the ones that failed.
    KillPids { pids: Vec<u64> },
    /// The machine is in a terminal phase; there is nothing left to do.
    Halt,
}

/// What a finished run reports.
pub struct RunReport {
    /// How many instances were spawned, one per requested ordinal.
    pub spawned: i32,
    /// The outcome of the forced kill on each tracked handle, in spawn
    /// order. Failures here never aborted the teardown.
    pub kill_outcomes: Vec<KillOutcome>,
    /// Every pid the name sweep matched and targeted, in enumeration order.
    pub sweep_matches: Vec<u64>,
    /// The pids the name sweep targeted but failed to kill.
    pub sweep_failures: Vec<u64>,
}

/// The orchestrator's whole state: the immutable run inputs, the current
/// phase, and the bookkeeping the report is built from.
pub struct Orchestrator {
    /// Parameters of this run; never mutated.
    pub config: RunConfig,
    /// Remote collaborators of this run; never mutated.
    pub endpoints: RemoteEndpoints,
    /// Where the run stands.
    pub phase: Phase,
    /// The block reserved for this run, once the counter has been read.
    pub block: Option<UserBlock>,
    /// The user number assigned to each ordinal so far, in ordinal order.
    pub assigned: Vec<i32>,
    /// The handle of each launched instance, in spawn order.
    pub handles: Vec<u64>,
    /// How many launches have been handed out.
    pub launch_attempts: i32,
    /// The outcome of the kill on each tracked handle, in spawn order.
    pub kill_outcomes: Vec<KillOutcome>,
    /// Every pid the name sweep matched and targeted.
    pub swept: Vec<u64>,
    /// The pids the name sweep failed to kill.
    pub sweep_failures: Vec<u64>,
    /// Whether any remote or process action has been handed out yet. Stays
    /// false through validation, so a validation failure provably had no
    /// side effects.
    pub side_effects_issued: bool,
}

impl Orchestrator {
    /// The requested instance count, as an integer.
    pub open spec fn count(self) -> int {
        self.config.instance_count as int
    }

    /// The reserved block's first user number; meaningful once a block is
    /// held.
    pub open spec fn block_start(self) -> int {
        match self.block {
            Option::Some(b) => b.start_number as int,
            Option::None => 0,
        }
    }

    /// The reserved block matches the run: one number per instance, and the
    /// whole block representable.
    pub open spec fn block_ok(self) -> bool {
        match self.block {
            Option::Some(b) => {
                &&& b.count == self.config.instance_count
                &&& b.start_number + b.count <= i32::MAX
            },
            Option::None => false,
        }
    }

    /// The first `upto` ordinals have been assigned their user numbers: the
    /// block's start plus 1, 2, … in order.
    pub open spec fn assigned_ok(self, upto: int) -> bool {
        &&& self.assigned@.len() == upto
        &&& forall|i: int|
            0 <= i < upto ==> #[trigger] self.assigned@[i] == assigned_number(
                self.block_start(),
                i + 1,
            )
    }

    /// Nothing has been reserved, provisioned, launched or killed.
    pub open spec fn untouched(self) -> bool {
        &&& self.block is None
        &&& self.assigned@.len() == 0
        &&& self.handles@.len() == 0
        &&& self.launch_attempts == 0
        &&& self.kill_outcomes@.len() == 0
        &&& self.swept@.len() == 0
        &&& self.sweep_failures@.len() == 0
        &&& !self.side_effects_issued
    }

    /// The machine's invariant: what must hold of the bookkeeping in each
    /// phase. Established by the constructor and preserved by every
    /// transition.
    pub open spec fn wf(self) -> bool {
        match self.phase {
            Phase::Idle => self.untouched(),
            Phase::Validating => 0 < self.count() && self.untouched(),
            Phase::ReservingBlock { wrote } => {
                &&& 0 < self.count()
                &&& self.assigned@.len() == 0
                &&& self.handles@.len() == 0
                &&& self.launch_attempts == 0
                &&& self.kill_outcomes@.len() == 0
                &&& self.sweep_failures@.len() == 0
                &&& if wrote {
                    self.block_ok()
                } else {
                    self.block is None
                }
            },
            Phase::Spawning { ordinal, stage } => {
                &&& 0 < self.count()
                &&& self.block_ok()
                &&& 1 <= ordinal <= self.count()
                &&& (stage is Staggering ==> ordinal < self.count())
                &&& self.assigned_ok(ordinal as int)
                &&& self.handles@.len() == if stage is Staggering {
                    ordinal as int
                } else {
                    ordinal - 1
                }
                &&& self.launch_attempts == if stage is Staggering || stage is Launching {
                    ordinal as int
                } else {
                    ordinal - 1
                }
                &&& self.kill_outcomes@.len() == 0
                &&& self.sweep_failures@.len() == 0
            },
            Phase::Running => {
                &&& 0 < self.count()
                &&& self.block_ok()
                &&& self.assigned_ok(self.count())
                &&& self.handles@.len() == self.count()
                &&& self.launch_attempts == self.count()
                &&& self.kill_outcomes@.len() == 0
                &&& self.sweep_failures@.len() == 0
            },
            Phase::Terminating { next } => {
                &&& 0 < self.count()
                &&& self.block_ok()
                &&& self.assigned_ok(self.count())
                &&& self.handles@.len() == self.count()
                &&& self.launch_attempts == self.count()
                &&& next < self.handles@.len()
                &&& self.kill_outcomes@.len() == next as int
                &&& self.sweep_failures@.len() == 0
            },
            Phase::SweepingByName { killing: _ } => {
                &&& 0 < self.count()
                &&& self.block_ok()
                &&& self.assigned_ok(self.count())
                &&& self.handles@.len() == self.count()
                &&& self.launch_attempts == self.count()
                &&& self.kill_outcomes@.len() == self.count()
                &&& self.sweep_failures@.len() == 0
            },
            Phase::Done => {
                &&& 0 < self.count()
                &&& self.block_ok()
                &&& self.assigned_ok(self.count())
                &&& self.handles@.len() == self.count()
                &&& self.launch_attempts == self.count()
                &&& self.kill_outcomes@.len() == self.count()
            },
            Phase::Failed { error } => error is ConfigError ==> self.untouched(),
        }
    }

    /// A fresh orchestrator for one run, idle and untouched.
    pub fn new(config: RunConfig, endpoints: RemoteEndpoints) -> (m: Orchestrator)
        ensures
            m.wf(),
            m.phase is Idle,
            m.config == config,
            m.endpoints == endpoints,
    {
        Orchestrator {
            config,
            endpoints,
            phase: Phase::Idle,
            block: None,
            assigned: Vec::new(),
            handles: Vec::new(),
            launch_attempts: 0,
            kill_outcomes: Vec::new(),
            swept: Vec::new(),
            sweep_failures: Vec::new(),
            side_effects_issued: false,
        }
    }

    /// Where the run stands.
    pub fn phase(&self) -> (p: Phase)
        ensures
            p == self.phase,
    {
        self.phase
    }

    /// Builds the login request for one assigned user number: the login URL,
    /// the synthetic username, and the shared test password.
    fn request_token_action(&self, user_number: i32) -> (a: Action)
        ensures
            (a matches Action::RequestToken { url, username, password } && {
                &&& url@ == self.endpoints.login_url@
                &&& username@ == spec_username(
                    self.endpoints.username_prefix@,
                    user_number as int,
                )
                &&& password@ == self.endpoints.shared_test_password@
            }),
    {
        Action::RequestToken {
            url: self.endpoints.login_url.clone(),
            username: synthetic_username(self.endpoints.username_prefix.as_str(), user_number),
            password: self.endpoints.shared_test_password.clone(),
        }
    }

    /// Begins the run. A non-positive instance count fails validation on the
    /// spot, before anything is called; otherwise the executable existence
    /// check goes out.
    pub fn start(&mut self) -> (a: Action)
        requires
            old(self).phase is Idle,
            old(self).wf(),
        ensures
            final(self).wf(),
            final(self).config == old(self).config,
            final(self).endpoints == old(self).endpoints,
            old(self).count() <= 0 ==> final(self).phase == (Phase::Failed {
                error: RunError::ConfigError,
            }) && a is Halt,
            0 < old(self).count() ==> final(self).phase is Validating && (
            a matches Action::CheckExecutable { path } && path@ == spec_executable_path(
                old(self).config.executable_name@,
            )),
    {
        if self.config.count_valid() {
            self.phase = Phase::Validating;
            Action::CheckExecutable { path: self.config.executable_path() }
        } else {
            self.phase = Phase::Failed { error: RunError::ConfigError };
            Action::Halt
        }
    }

    /// Takes the result of the executable existence check. A missing
    /// executable fails validation with nothing called yet; otherwise the
    /// counter read goes out and the reservation begins.
    pub fn executable_checked(&mut self, exists: bool) -> (a: Action)
        requires
            old(self).phase is Validating,
            old(self).wf(),
        ensures
            final(self).wf(),
            final(self).config == old(self).config,
            final(self).endpoints == old(self).endpoints,
            !exists ==> final(self).phase == (Phase::Failed { error: RunError::ConfigError })
                && a is Halt && !final(self).side_effects_issued,
            exists ==> final(self).phase == (Phase::ReservingBlock { wrote: false })
                && a is ReadCounter,
    {
        if exists {
            self.phase = Phase::ReservingBlock { wrote: false };
            self.side_effects_issued = true;
            Action::ReadCounter
        } else {
            self.phase = Phase::Failed { error: RunError::ConfigError };
            Action::Halt
        }
    }

    /// Takes the counter value read from the remote store, or no value if
    /// the read failed. On success the block is reserved at the observed
    /// value and the advanced counter goes out to be written back; a failed
    /// read, or a counter the block cannot follow, is a remote failure and
    /// fatal.
    pub fn counter_read(&mut self, value: Option<i32>) -> (a: Action)
        requires
            old(self).phase == (Phase::ReservingBlock { wrote: false }),
            old(self).wf(),
        ensures
            final(self).wf(),
            final(self).config == old(self).config,
            final(self).endpoints == old(self).endpoints,
            value is None ==> final(self).phase == (Phase::Failed {
                error: RunError::RemoteUnavailable,
            }) && a is Halt,
            value is Some && value->0 + old(self).count() <= i32::MAX ==> final(self).phase == (
            Phase::ReservingBlock { wrote: true }) && final(self).block == Some(
                UserBlock { start_number: value->0, count: old(self).config.instance_count },
            ) && (a matches Action::WriteCounter { value: w } && w == counter_after(
                value->0 as int,
                old(self).count(),
            )),
            value is Some && value->0 + old(self).count() > i32::MAX ==> final(self).phase == (
            Phase::Failed { error: RunError::RemoteUnavailable }) && a is Halt,
    {
        match value {
            Some(v) => {
                if v <= i32::MAX - self.config.instance_count {
                    let (block, next_value) = plan_reservation(v, self.config.instance_count);
                    self.block = Some(block);
                    self.phase = Phase::ReservingBlock { wrote: true };
                    Action::WriteCounter { value: next_value }
                } else {
                    self.phase = Phase::Failed { error: RunError::RemoteUnavailable };
                    Action::Halt
                }
            },
            None => {
                self.phase = Phase::Failed { error: RunError::RemoteUnavailable };
                Action::Halt
            },
        }
    }

    /// Takes the acknowledgement of the counter write. On success the first
    /// ordinal's login request goes out; a failed write is a remote failure
    /// and fatal.
    pub fn counter_written(&mut self, ok: bool) -> (a: Action)
        requires
            old(self).phase == (Phase::ReservingBlock { wrote: true }),
            old(self).wf(),
        ensures
            final(self).wf(),
            final(self).config == old(self).config,
            final(self).endpoints == old(self).endpoints,
            final(self).block == old(self).block,
            !ok ==> final(self).phase == (Phase::Failed { error: RunError::RemoteUnavailable })
                && a is Halt,
            ok ==> {
                &&& final(self).phase == (Phase::Spawning {
                    ordinal: 1,
                    stage: SpawnStage::RequestingToken,
                })
                &&& final(self).assigned@ == old(self).assigned@.push(
                    (assigned_number(old(self).block_start(), 1)) as i32,
                )
                &&& (a matches Action::RequestToken { url, username, password } && {
                    &&& url@ == old(self).endpoints.login_url@
                    &&& username@ == spec_username(
                        old(self).endpoints.username_prefix@,
                        assigned_number(old(self).block_start(), 1),
                    )
                    &&& password@ == old(self).endpoints.shared_test_password@
                })
            },
    {
        if ok {
            let block = self.block.unwrap();
            let n = block.assigned_user_number(1);
            self.assigned.push(n);
            self.phase = Phase::Spawning { ordinal: 1, stage: SpawnStage::RequestingToken };
            self.request_token_action(n)
        } else {
            self.phase = Phase::Failed { error: RunError::RemoteUnavailable };
            Action::Halt
        }
    }

    /// Takes the login response for the current ordinal: the token, or no
    /// token if the request errored, was refused, or had no parsable token.
    /// On success the credential file write goes out; otherwise the run
    /// aborts with an authentication failure, and every instance spawned so
    /// far is left running untouched.
    pub fn token_received(&mut self, token: Option<String>) -> (a: Action)
        requires
            old(self).phase matches Phase::Spawning {
                ordinal: _,
                stage: SpawnStage::RequestingToken,
            },
            old(self).wf(),
        ensures
            final(self).wf(),
            final(self).config == old(self).config,
            final(self).endpoints == old(self).endpoints,
            final(self).handles == old(self).handles,
            final(self).block == old(self).block,
            final(self).assigned == old(self).assigned,
            final(self).launch_attempts == old(self).launch_attempts,
            token is None ==> final(self).phase == (Phase::Failed { error: RunError::AuthError })
                && a is Halt,
            token is Some ==> final(self).phase == (Phase::Spawning {
                ordinal: old(self).phase->ordinal,
                stage: SpawnStage::PersistingCredential,
            }) && (a matches Action::PersistCredential { path, contents } && path@
                == spec_auth_file_path(old(self).endpoints.credential_output_dir@) && contents@
                == spec_credential_json(token->0@)),
    {
        let ordinal = match self.phase {
            Phase::Spawning { ordinal, stage: _ } => ordinal,
            _ => 0,
        };
        match token {
            Some(t) => {
                self.phase = Phase::Spawning {
                    ordinal,
                    stage: SpawnStage::PersistingCredential,
                };
                Action::PersistCredential {
                    path: auth_file_path(self.endpoints.credential_output_dir.as_str()),
                    contents: credential_json(t.as_str()),
                }
            },
            None => {
                self.phase = Phase::Failed { error: RunError::AuthError };
                Action::Halt
            },
        }
    }

    /// Takes the acknowledgement of the credential file write. On success
    /// the launch of the current ordinal's instance goes out; a failed write
    /// aborts provisioning and the run.
    pub fn credential_saved(&mut self, ok: bool) -> (a: Action)
        requires
            old(self).phase matches Phase::Spawning {
                ordinal: _,
                stage: SpawnStage::PersistingCredential,
            },
            old(self).wf(),
        ensures
            final(self).wf(),
            final(self).config == old(self).config,
            final(self).endpoints == old(self).endpoints,
            final(self).handles == old(self).handles,
            final(self).block == old(self).block,
            final(self).assigned == old(self).assigned,
            !ok ==> final(self).phase == (Phase::Failed { error: RunError::AuthError })
                && a is Halt,
            ok ==> final(self).phase == (Phase::Spawning {
                ordinal: old(self).phase->ordinal,
                stage: SpawnStage::Launching,
            }) && final(self).launch_attempts == old(self).launch_attempts + 1 && (
            a matches Action::Launch { path, args } && path@ == spec_executable_path(
                old(self).config.executable_name@,
            ) && args.deep_view() == old(self).config.extra_args.deep_view()),
    {
        let ordinal = match self.phase {
            Phase::Spawning { ordinal, stage: _ } => ordinal,
            _ => 0,
        };
        if ok {
            self.phase = Phase::Spawning { ordinal, stage: SpawnStage::Launching };
            self.launch_attempts = self.launch_attempts + 1;
            Action::Launch {
                path: self.config.executable_path(),
                args: clone_string_vec(&self.config.extra_args),
            }
        } else {
            self.phase = Phase::Failed { error: RunError::AuthError };
            Action::Halt
        }
    }

    /// Takes the launch result for the current ordinal: a handle, or none if
    /// the launch failed, which is fatal. On success the handle is tracked;
    /// then either the stagger pause goes out, the next ordinal's login
    /// request goes out, or — after the last ordinal — the run-duration
    /// sleep begins.
    pub fn spawn_finished(&mut self, handle: Option<u64>) -> (a: Action)
        requires
            old(self).phase matches Phase::Spawning { ordinal: _, stage: SpawnStage::Launching },
            old(self).wf(),
        ensures
            final(self).wf(),
            final(self).config == old(self).config,
            final(self).endpoints == old(self).endpoints,
            final(self).block == old(self).block,
            handle is None ==> final(self).phase == (Phase::Failed { error: RunError::SpawnError })
                && a is Halt && final(self).handles == old(self).handles,
            handle is Some ==> final(self).handles@ == old(self).handles@.push(handle->0),
            handle is Some && old(self).phase->ordinal < old(self).count()
                && old(self).config.stagger_delay_secs is Some ==> final(self).phase == (
            Phase::Spawning {
                ordinal: old(self).phase->ordinal,
                stage: SpawnStage::Staggering,
            }) && a == (Action::Sleep { seconds: old(self).config.stagger_delay_secs->0 }),
            handle is Some && old(self).phase->ordinal < old(self).count()
                && old(self).config.stagger_delay_secs is None ==> final(self).phase == (
            Phase::Spawning {
                ordinal: (old(self).phase->ordinal + 1) as i32,
                stage: SpawnStage::RequestingToken,
            }) && final(self).assigned@ == old(self).assigned@.push(
                (assigned_number(old(self).block_start(), old(self).phase->ordinal + 1)) as i32,
            ) && (a matches Action::RequestToken { url, username, password } && url@ == old(
                self,
            ).endpoints.login_url@ && username@ == spec_username(
                old(self).endpoints.username_prefix@,
                assigned_number(old(self).block_start(), old(self).phase->ordinal + 1),
            ) && password@ == old(self).endpoints.shared_test_password@),
            handle is Some && old(self).phase->ordinal == old(self).count() ==> final(self).phase
                is Running && a == (Action::Sleep { seconds: old(self).config.run_duration_secs }),
    {
        let ordinal = match self.phase {
            Phase::Spawning { ordinal, stage: _ } => ordinal,
            _ => 0,
        };
        match handle {
            Some(h) => {
                self.handles.push(h);
                if ordinal < self.config.instance_count {
                    match self.config.stagger_delay_secs {
                        Some(d) => {
                            self.phase = Phase::Spawning {
                                ordinal,
                                stage: SpawnStage::Staggering,
                            };
                            Action::Sleep { seconds: d }
                        },
                        None => {
                            let block = self.block.unwrap();
                            let n = block.assigned_user_number(ordinal + 1);
                            self.assigned.push(n);
                            self.phase = Phase::Spawning {
                                ordinal: ordinal + 1,
                                stage: SpawnStage::RequestingToken,
                            };
                            self.request_token_action(n)
                        },
                    }
                } else {
                    self.phase = Phase::Running;
                    Action::Sleep { seconds: self.config.run_duration_secs }
                }
            },
            None => {
                self.phase = Phase::Failed { error: RunError::SpawnError };
                Action::Halt
            },
        }
    }

    /// Takes the end of a sleep. After a stagger pause the next ordinal's
    /// login request goes out; after the run-duration sleep the teardown
    /// begins with the kill of the first tracked handle.
    pub fn slept(&mut self) -> (a: Action)
        requires
            old(self).phase matches Phase::Spawning { ordinal: _, stage: SpawnStage::Staggering }
                || old(self).phase is Running,
            old(self).wf(),
        ensures
            final(self).wf(),
            final(self).config == old(self).config,
            final(self).endpoints == old(self).endpoints,
            final(self).handles == old(self).handles,
            final(self).block == old(self).block,
            old(self).phase is Running ==> final(self).assigned == old(self).assigned,
            old(self).phase is Spawning ==> final(self).phase == (Phase::Spawning {
                ordinal: (old(self).phase->ordinal + 1) as i32,
                stage: SpawnStage::RequestingToken,
            }) && final(self).assigned@ == old(self).assigned@.push(
                (assigned_number(old(self).block_start(), old(self).phase->ordinal + 1)) as i32,
            ) && (a matches Action::RequestToken { url, username, password } && url@ == old(
                self,
            ).endpoints.login_url@ && username@ == spec_username(
                old(self).endpoints.username_prefix@,
                assigned_number(old(self).block_start(), old(self).phase->ordinal + 1),
            ) && password@ == old(self).endpoints.shared_test_password@),
            old(self).phase is Running ==> final(self).phase == (Phase::Terminating { next: 0 })
                && (a matches Action::Kill { handle } && handle == old(self).handles@[0]),
    {
        match self.phase {
            Phase::Spawning { ordinal, stage: _ } => {
                let block = self.block.unwrap();
                let n = block.assigned_user_number(ordinal + 1);
                self.assigned.push(n);
                self.phase = Phase::Spawning {
                    ordinal: ordinal + 1,
                    stage: SpawnStage::RequestingToken,
                };
                self.request_token_action(n)
            },
            _ => {
                self.phase = Phase::Terminating { next: 0 };
                let handle = self.handles[0];
                Action::Kill { handle }
            },
        }
    }

    /// Takes the outcome of the kill on the handle currently being torn
    /// down. The outcome is recorded — a failure too, it never aborts the
    /// teardown — and either the next handle's kill goes out, or, after the
    /// last handle, the process enumeration for the name sweep.
    pub fn kill_finished(&mut self, outcome: KillOutcome) -> (a: Action)
        requires
            old(self).phase matches Phase::Terminating { next: _ },
            old(self).wf(),
        ensures
            final(self).wf(),
            final(self).config == old(self).config,
            final(self).endpoints == old(self).endpoints,
            final(self).handles == old(self).handles,
            final(self).block == old(self).block,
            final(self).assigned == old(self).assigned,
            final(self).kill_outcomes@ == old(self).kill_outcomes@.push(outcome),
            old(self).phase->next + 1 < old(self).handles@.len() ==> final(self).phase == (
            Phase::Terminating { next: (old(self).phase->next + 1) as usize }) && (
            a matches Action::Kill { handle } && handle == old(self).handles@[old(
                self,
            ).phase->next + 1]),
            old(self).phase->next + 1 == old(self).handles@.len() ==> final(self).phase == (
            Phase::SweepingByName { killing: false }) && a is ListProcesses,
    {
        let next = match self.phase {
            Phase::Terminating { next } => next,
            _ => 0,
        };
        self.kill_outcomes.push(outcome);
        if next + 1 < self.handles.len() {
            self.phase = Phase::Terminating { next: next + 1 };
            let handle = self.handles[next + 1];
            Action::Kill { handle }
        } else {
            self.phase = Phase::SweepingByName { killing: false };
            Action::ListProcesses
        }
    }

    /// Takes the process enumeration and sends out the sweep: a forced kill
    /// of every enumerated process whose name matches the target executable
    /// exactly, whether or not this run spawned it.
    pub fn processes_listed(&mut self, processes: Vec<ProcessInfo>) -> (a: Action)
        requires
            old(self).phase == (Phase::SweepingByName { killing: false }),
            old(self).wf(),
        ensures
            final(self).wf(),
            final(self).config == old(self).config,
            final(self).endpoints == old(self).endpoints,
            final(self).handles == old(self).handles,
            final(self).block == old(self).block,
            final(self).assigned == old(self).assigned,
            final(self).kill_outcomes == old(self).kill_outcomes,
            final(self).phase == (Phase::SweepingByName { killing: true }),
            final(self).swept@ == spec_sweep_targets(processes@, old(self).config.executable_name@),
            (a matches Action::KillPids { pids } && pids@ == spec_sweep_targets(
                processes@,
                old(self).config.executable_name@,
            )),
    {
        let pids = sweep_targets(&processes, &self.config.executable_name);
        self.swept = clone_pid_vec(&pids);
        self.phase = Phase::SweepingByName { killing: true };
        Action::KillPids { pids }
    }

    /// Takes the sweep's failures and finishes the run.
    pub fn sweep_finished(&mut self, failed: Vec<u64>) -> (a: Action)
        requires
            old(self).phase == (Phase::SweepingByName { killing: true }),
            old(self).wf(),
        ensures
            final(self).wf(),
            final(self).config == old(self).config,
            final(self).endpoints == old(self).endpoints,
            final(self).handles == old(self).handles,
            final(self).block == old(self).block,
            final(self).assigned == old(self).assigned,
            final(self).kill_outcomes == old(self).kill_outcomes,
            final(self).swept == old(self).swept,
            final(self).sweep_failures == failed,
            final(self).phase is Done,
            a is Halt,
    {
        self.sweep_failures = failed;
        self.phase = Phase::Done;
        Action::Halt
    }

    /// The finished run's report: one instance spawned per requested
    /// ordinal, the kill outcome of each, and the sweep's failures.
    pub fn into_report(self) -> (r: RunReport)
        requires
            self.phase is Done,
            self.wf(),
        ensures
            r.spawned == self.config.instance_count,
            r.kill_outcomes == self.kill_outcomes,
            r.sweep_matches == self.swept,
            r.sweep_failures == self.sweep_failures,
    {
        RunReport {
            spawned: self.config.instance_count,
            kill_outcomes: self.kill_outcomes,
            sweep_matches: self.swept,
            sweep_failures: self.sweep_failures,
        }
    }
}

/// A run that has finished spawning — it is running, tearing down, sweeping
/// or done — attempted exactly one launch per requested instance, tracked
/// exactly one handle per instance, and assigned the ordinals the user
/// numbers start + 1 through start + count, pairwise distinct.
pub proof fn lemma_spawns_cover_block(m: Orchestrator)
    requires
        m.wf(),
        m.phase is Running || m.phase matches Phase::Terminating { .. } || m.phase matches
            Phase::SweepingByName { .. } || m.phase is Done,
    ensures
        m.launch_attempts == m.config.instance_count,
        m.handles@.len() == m.count(),
        m.assigned@.len() == m.count(),
        forall|i: int|
            0 <= i < m.assigned@.len() ==> #[trigger] m.assigned@[i] == assigned_number(
                m.block_start(),
                i + 1,
            ),
        forall|i: int, j: int|
            0 <= i < j < m.assigned@.len() ==> m.assigned@[i] != m.assigned@[j],
{
    assert forall|i: int, j: int|
        0 <= i < j < m.assigned@.len() implies m.assigned@[i] != m.assigned@[j] by {
        assert(m.assigned@[i] == assigned_number(m.block_start(), i + 1));
        assert(m.assigned@[j] == assigned_number(m.block_start(), j + 1));
        lemma_assigned_numbers_distinct(m.block_start(), i + 1, j + 1);
    }
}

/// A run that failed validation — zero instances requested, or the target
/// executable missing — did so before anything was touched: no remote or
/// process action was ever handed out, no block was reserved, nothing was
/// provisioned, launched or killed.
pub proof fn lemma_validation_failure_has_no_side_effects(m: Orchestrator)
    requires
        m.wf(),
        m.phase == (Phase::Failed { error: RunError::ConfigError }),
    ensures
        !m.side_effects_issued,
        m.block is None,
        m.assigned@.len() == 0,
        m.handles@.len() == 0,
        m.launch_attempts == 0,
        m.kill_outcomes@.len() == 0,
{
}

} // verus!
