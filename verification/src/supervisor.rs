//! The supervisor's bookkeeping: at most one live backend handle.
//!
//! A [`BackendProcess`] starts empty, is populated when a spawn succeeds and
//! emptied when the backend is stopped. The operating-system effects — the
//! spawn itself, the kill, the wait, the grace-period sleep between a stop
//! and the next start — run outside the library; each operation here either
//! consumes what the system reported (the pid a spawn returned) or hands
//! back what the system must now do (the pid to kill).
//!
//! Each transition has a spec-level twin (`stop_transition`,
//! `start_transition`, `restart_transition`) that the executable contracts
//! refer to. A second, richer model (`WorldState`) also accounts for the
//! processes brought into being; over it the laws at the end of the module
//! are proved: stop is idempotent and does not change what a later start
//! does, a disciplined sequence of requests leaves at most one backend
//! process live, and teardown leaves none.

use vstd::prelude::*;
use vstd::string::*;

use crate::errors::BackendError;
use crate::launch::{plan_start, resolved_path, FsView, LaunchCommand};

verus! {

/// A process identifier, the library's stand-in for a live child handle.
/// The caller keeps the operating-system handle itself and keys it by this.
pub type Pid = u32;

/// The supervisor: owns at most one live backend handle at a time.
pub struct BackendProcess {
    child: Option<Pid>,
}

/// What stop does to a handle: the new handle (none), and the kill order
/// (whatever handle was held).
pub open spec fn stop_transition(h: Option<Pid>) -> (Option<Pid>, Option<Pid>) {
    (None, h)
}

/// What recording a spawn outcome does to a handle: a successful spawn
/// replaces it, a failed spawn leaves it as it was.
pub open spec fn start_transition(h: Option<Pid>, outcome: Result<Pid, Seq<char>>) -> Option<Pid> {
    match outcome {
        Ok(pid) => Some(pid),
        Err(_) => h,
    }
}

impl BackendProcess {
    /// The handle the supervisor believes is running, if any.
    pub closed spec fn handle(&self) -> Option<Pid> {
        self.child
    }

    /// A fresh supervisor holds no handle.
    pub fn new() -> (s: Self)
        ensures
            s.handle() is None,
    {
        BackendProcess { child: None }
    }

    /// Reports whether a backend is believed running. This trusts the
    /// bookkeeping: a child that crashed since its launch is still reported
    /// as running, by design.
    pub fn is_running(&self) -> (r: bool)
        ensures
            r == self.handle() is Some,
    {
        self.child.is_some()
    }

    /// Releases the held handle, if any, and returns it as the kill order:
    /// the caller must terminate that process and wait for it to exit.
    /// Unconditional and idempotent; never fails.
    pub fn stop(&mut self) -> (to_kill: Option<Pid>)
        ensures
            final(self).handle() == stop_transition(old(self).handle()).0,
            to_kill == stop_transition(old(self).handle()).1,
    {
        self.child.take()
    }

    /// Records what the spawn of a planned start returned: stores the new
    /// handle on success, or turns the spawn failure into a launch error and
    /// leaves the held handle untouched.
    pub fn start(&mut self, outcome: Result<Pid, String>) -> (r: Result<(), BackendError>)
        ensures
            final(self).handle() == start_transition(
                old(self).handle(),
                spawn_outcome_view(outcome),
            ),
            r is Ok <==> outcome is Ok,
            r is Err ==> (r->Err_0 is Launch && (r->Err_0)->Launch_reason@ == outcome->Err_0@),
    {
        match outcome {
            Ok(pid) => {
                self.child = Some(pid);
                Ok(())
            },
            Err(reason) => Err(BackendError::Launch { reason }),
        }
    }
}

/// The spec-level value of a spawn outcome.
pub open spec fn spawn_outcome_view(outcome: Result<Pid, String>) -> Result<Pid, Seq<char>> {
    match outcome {
        Ok(pid) => Ok(pid),
        Err(reason) => Err(reason@),
    }
}

/// How long the caller must wait, in milliseconds, between the kill ordered
/// by a restart and the spawn of its replacement, so that the old process's
/// listening socket is released before the new one binds it.
pub const RESTART_GRACE_MILLIS: u64 = 1000;

/// What a restart does to a handle, before its spawn outcome is recorded:
/// the held handle is released whether or not a new launch could be planned.
pub open spec fn restart_transition(h: Option<Pid>) -> Option<Pid> {
    stop_transition(h).0
}

/// Decides a restart: releases the held handle and plans the replacement
/// launch in one exclusive step.
///
/// The caller must, in this order, kill and reap the returned handle, wait
/// [`RESTART_GRACE_MILLIS`], spawn the returned command, and record the
/// spawn outcome with [`BackendProcess::start`]. Taking the supervisor by
/// exclusive reference keeps two restarts from interleaving their stop and
/// start phases on one supervisor.
///
/// A failure to plan the launch is reported exactly as [`plan_start`]
/// reports it; the stop half has still happened, so the supervisor is left
/// holding no handle either way.
pub fn restart_backend(p: &mut BackendProcess, port: u16, fs: &FsView) -> (r: (
    Option<Pid>,
    Result<LaunchCommand, BackendError>,
))
    ensures
        final(p).handle() == restart_transition(old(p).handle()),
        r.0 == stop_transition(old(p).handle()).1,
        r.1 is Ok <==> (fs.exe_dir is Ok && (fs.sibling_exists || fs.resources_exists)),
        fs.exe_dir is Ok && (fs.sibling_exists || fs.resources_exists) ==> (
        r.1->Ok_0).is_launch_of(
            resolved_path(fs.exe_dir->Ok_0@, fs.sibling_exists, fs.resources_exists)->0,
            port,
        ),
        fs.exe_dir is Err ==> ({
            &&& r.1->Err_0 is PathResolution
            &&& (r.1->Err_0)->PathResolution_reason@ == fs.exe_dir->Err_0@
        }),
        fs.exe_dir is Ok && !fs.sibling_exists && !fs.resources_exists ==> (
        r.1->Err_0 is BackendNotFound),
{
    let to_kill = p.stop();
    let plan = plan_start(port, fs);
    (to_kill, plan)
}

/// The status word for a supervisor that holds a handle.
pub open spec fn status_running() -> Seq<char> {
    "running"@
}

/// The status word for a supervisor that holds none.
pub open spec fn status_stopped() -> Seq<char> {
    "stopped"@
}

/// Reports the supervisor's status as a word: `running` when a handle is
/// held, `stopped` otherwise. Like [`BackendProcess::is_running`] this
/// trusts the bookkeeping and is not a liveness probe of the child.
pub fn get_backend_status(p: &BackendProcess) -> (r: String)
    ensures
        p.handle() is Some ==> r@ == status_running(),
        p.handle() is None ==> r@ == status_stopped(),
{
    if p.is_running() {
        String::from_str("running")
    } else {
        String::from_str("stopped")
    }
}

/// A model of the supervisor together with the processes it has brought
/// into being: `held` is the handle the supervisor tracks, `live` the set
/// of backend processes that exist. The executable supervisor only stores
/// `held`; `live` is what the laws below account for.
pub struct WorldState {
    pub held: Option<Pid>,
    pub live: Set<Pid>,
}

impl WorldState {
    /// The supervisor's bookkeeping matches the world: the held handle is
    /// exactly the live process, and nothing lives untracked.
    pub open spec fn inv(&self) -> bool {
        match self.held {
            Some(pid) => self.live == set![pid],
            None => self.live == Set::<Pid>::empty(),
        }
    }
}

/// What stop does to the world: the held process, if any, is killed and
/// reaped, and the handle is released.
pub open spec fn world_stop(w: WorldState) -> WorldState {
    match w.held {
        Some(pid) => WorldState { held: None, live: w.live.remove(pid) },
        None => WorldState { held: None, live: w.live },
    }
}

/// What recording a spawn outcome does to the world: a successful spawn
/// brings a new process into being and stores its handle; a failed one
/// changes nothing.
pub open spec fn world_start(w: WorldState, outcome: Result<Pid, Seq<char>>) -> WorldState {
    match outcome {
        Ok(pid) => WorldState { held: Some(pid), live: w.live.insert(pid) },
        Err(_) => w,
    }
}

/// One request made of the supervisor through its public operations, with
/// the spawn outcome the system answered where one was asked for.
pub enum SupervisorOp {
    Stop,
    Start(Result<Pid, Seq<char>>),
    Restart(Result<Pid, Seq<char>>),
}

/// What one request does to the world. A restart is a stop followed by a
/// start, as `restart_backend` orders it.
pub open spec fn world_apply(w: WorldState, op: SupervisorOp) -> WorldState {
    match op {
        SupervisorOp::Stop => world_stop(w),
        SupervisorOp::Start(outcome) => world_start(w, outcome),
        SupervisorOp::Restart(outcome) => world_start(world_stop(w), outcome),
    }
}

/// The world after a whole sequence of requests, applied in order.
pub open spec fn world_apply_all(w: WorldState, ops: Seq<SupervisorOp>) -> WorldState
    decreases ops.len(),
{
    if ops.len() == 0 {
        w
    } else {
        world_apply(world_apply_all(w, ops.drop_last()), ops.last())
    }
}

/// The stop-before-start discipline: a bare start request is only made of a
/// supervisor holding no handle. Restarts need no such clause — they stop
/// first by construction — and this is why they exist.
pub open spec fn disciplined(w: WorldState, ops: Seq<SupervisorOp>) -> bool
    decreases ops.len(),
{
    if ops.len() == 0 {
        true
    } else {
        disciplined(w, ops.drop_last()) && (ops.last() is Start ==> world_apply_all(
            w,
            ops.drop_last(),
        ).held is None)
    }
}

/// The world model agrees with the executable transitions on the handle the
/// supervisor stores.
pub proof fn lemma_world_matches_transitions(w: WorldState, outcome: Result<Pid, Seq<char>>)
    ensures
        world_stop(w).held == stop_transition(w.held).0,
        world_start(w, outcome).held == start_transition(w.held, outcome),
        world_start(world_stop(w), outcome).held == start_transition(restart_transition(w.held), outcome),
{
}

/// Each single request preserves the world invariant, a bare start only
/// under the stop-before-start discipline.
pub proof fn lemma_world_apply_preserves_inv(w: WorldState, op: SupervisorOp)
    requires
        w.inv(),
        op is Start ==> w.held is None,
    ensures
        world_apply(w, op).inv(),
{
    if w.held is Some {
        let pid = w.held->0;
        assert(w.live.remove(pid) =~= Set::<Pid>::empty());
    }
    match op {
        SupervisorOp::Stop => {
        },
        SupervisorOp::Start(outcome) => {
            if outcome is Ok {
                assert(w.live.insert(outcome->Ok_0) =~= set![outcome->Ok_0]);
            }
        },
        SupervisorOp::Restart(outcome) => {
            if outcome is Ok {
                assert(world_stop(w).live.insert(outcome->Ok_0) =~= set![outcome->Ok_0]);
            }
        },
    }
}

/// After any disciplined sequence of stop, start and restart requests, at
/// most one backend process is live, and it is exactly the one whose handle
/// the supervisor holds.
pub proof fn lemma_at_most_one_live_process(w: WorldState, ops: Seq<SupervisorOp>)
    requires
        w.inv(),
        disciplined(w, ops),
    ensures
        world_apply_all(w, ops).inv(),
        world_apply_all(w, ops).live.len() <= 1,
    decreases ops.len(),
{
    if ops.len() == 0 {
    } else {
        lemma_at_most_one_live_process(w, ops.drop_last());
        lemma_world_apply_preserves_inv(world_apply_all(w, ops.drop_last()), ops.last());
    }
    let after = world_apply_all(w, ops);
    if after.held is Some {
        assert(after.live.len() == 1);
    } else {
        assert(after.live.len() == 0);
    }
}

/// Teardown leaves nothing behind: stopping a supervisor whose bookkeeping
/// matches the world — in particular one holding a live handle — kills
/// every live process. Destruction of the supervisor performs exactly this
/// stop.
pub proof fn lemma_teardown_kills_all(w: WorldState)
    requires
        w.inv(),
    ensures
        world_stop(w).live == Set::<Pid>::empty(),
        world_stop(w).held is None,
{
    if w.held is Some {
        assert(w.live.remove(w.held->0) =~= Set::<Pid>::empty());
    }
}

/// Stop is idempotent: a stop on an idle supervisor changes nothing and
/// orders no kill, stopping twice leaves the same state as stopping once,
/// and a stop inserted before a start does not change what that start does,
/// because a successful start overwrites the handle and a failed one
/// preserves it.
pub proof fn lemma_stop_idempotent(h: Option<Pid>, outcome: Result<Pid, Seq<char>>)
    ensures
        h is None ==> stop_transition(h).0 == h && stop_transition(h).1 is None,
        stop_transition(stop_transition(h).0).0 == stop_transition(h).0,
        stop_transition(stop_transition(h).0).1 is None,
        start_transition(stop_transition(h).0, outcome) == start_transition(
            stop_transition(stop_transition(h).0).0,
            outcome,
        ),
        h is None ==> start_transition(stop_transition(h).0, outcome) == start_transition(
            h,
            outcome,
        ),
{
}

} // verus!
