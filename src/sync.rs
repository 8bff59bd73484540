//! The control plane of the background syncers.
//!
//! Every syncer thread reads one shared `SyncConfig` at each tick and decides
//! from it whether to exit, run a sync pass, or idle until its next tick.
//! Control commands change the config; they never touch a thread directly.

use vstd::prelude::*;

verus! {

/// The mathematical content of a `SyncConfig`.
pub struct SyncState {
    pub enabled: bool,
    pub quit: bool,
    pub paused: Seq<bool>,
}

/// Shared sync settings: `enabled` arms the sync system, `paused[w]` pauses
/// worker `w` only, and `quit` asks every worker to exit.
#[derive(Debug)]
pub struct SyncConfig {
    enabled: bool,
    quit: bool,
    paused: Vec<bool>,
}

impl View for SyncConfig {
    type V = SyncState;

    closed spec fn view(&self) -> SyncState {
        SyncState { enabled: self.enabled, quit: self.quit, paused: self.paused@ }
    }
}

/// What a worker does at one tick.
#[derive(Debug, PartialEq, Eq, Structural, Clone, Copy)]
pub enum TickAction {
    /// `quit` is set: leave the loop for good.
    Exit,
    /// Run one sync pass, then sleep.
    Run,
    /// Only sleep.
    Idle,
}

/// The action of worker `w` on config `s`.
pub open spec fn tick_of(s: SyncState, w: int) -> TickAction {
    if s.quit {
        TickAction::Exit
    } else if s.enabled && 0 <= w < s.paused.len() && !s.paused[w] {
        TickAction::Run
    } else {
        TickAction::Idle
    }
}

/// `s` with every worker's pause flag set to `p`.
pub open spec fn all_paused(s: SyncState, p: bool) -> SyncState {
    SyncState { paused: Seq::new(s.paused.len(), |i: int| p), ..s }
}

/// While paused no worker runs a pass; once resumed, with the system armed and
/// not quitting, every worker runs one again at its next tick.
pub proof fn pause_then_resume(s: SyncState, w: int)
    requires
        0 <= w < s.paused.len(),
    ensures
        tick_of(all_paused(s, true), w) != TickAction::Run,
        s.enabled && !s.quit ==> tick_of(all_paused(all_paused(s, true), false), w)
            == TickAction::Run,
        all_paused(all_paused(s, true), false) == all_paused(s, false),
{
    assert(all_paused(all_paused(s, true), false).paused =~= all_paused(s, false).paused);
}

/// Once `quit` is set every worker exits at its next tick, whatever else holds.
pub proof fn quit_stops_all(s: SyncState, w: int)
    requires
        s.quit,
    ensures
        tick_of(s, w) == TickAction::Exit,
{
}

impl SyncConfig {
    /// A config for `workers` workers: not armed, none paused, not quitting.
    pub fn new(workers: usize) -> (c: SyncConfig)
        ensures
            !c@.enabled,
            !c@.quit,
            c@.paused == Seq::new(workers as nat, |i: int| false),
    {
        let mut paused: Vec<bool> = Vec::new();
        let mut i: usize = 0;
        while i < workers
            invariant
                i <= workers,
                paused@ == Seq::new(i as nat, |k: int| false),
            decreases workers - i,
        {
            paused.push(false);
            i = i + 1;
        }
        SyncConfig { enabled: false, quit: false, paused }
    }

    pub fn is_enabled(&self) -> (r: bool)
        ensures
            r == self@.enabled,
    {
        self.enabled
    }

    pub fn is_quit(&self) -> (r: bool)
        ensures
            r == self@.quit,
    {
        self.quit
    }

    /// Whether worker `w` is paused; a worker the config does not know is not.
    pub fn is_paused(&self, w: usize) -> (r: bool)
        ensures
            r == (w < self@.paused.len() && self@.paused[w as int]),
    {
        w < self.paused.len() && self.paused[w]
    }

    /// Arms the sync system.
    pub fn arm(&mut self)
        ensures
            final(self)@ == (SyncState { enabled: true, ..old(self)@ }),
    {
        self.enabled = true;
    }

    /// Sets `quit`: every worker exits at its next tick.
    pub fn shutdown(&mut self)
        ensures
            final(self)@ == (SyncState { quit: true, ..old(self)@ }),
    {
        self.quit = true;
    }

    /// Sets the pause flag of every worker to `p`.
    fn set_all_paused(&mut self, p: bool)
        ensures
            final(self)@ == all_paused(old(self)@, p),
    {
        let n: usize = self.paused.len();
        let mut i: usize = 0;
        while i < n
            invariant
                n == self.paused@.len(),
                n == old(self).paused@.len(),
                i <= n,
                self.enabled == old(self).enabled,
                self.quit == old(self).quit,
                forall|k: int| 0 <= k < i ==> self.paused@[k] == p,
            decreases n - i,
        {
            self.paused.set(i, p);
            i = i + 1;
        }
        assert(self.paused@ =~= Seq::new(n as nat, |k: int| p));
    }

    /// Pauses every worker without stopping its thread.
    pub fn pause_all(&mut self)
        ensures
            final(self)@ == all_paused(old(self)@, true),
    {
        self.set_all_paused(true);
    }

    /// Lets every paused worker run again.
    pub fn resume_all(&mut self)
        ensures
            final(self)@ == all_paused(old(self)@, false),
    {
        self.set_all_paused(false);
    }

    /// Pauses worker `w` alone; a worker the config does not know is ignored.
    pub fn pause(&mut self, w: usize)
        ensures
            final(self)@ == (if w < old(self)@.paused.len() {
                SyncState { paused: old(self)@.paused.update(w as int, true), ..old(self)@ }
            } else {
                old(self)@
            }),
    {
        if w < self.paused.len() {
            self.paused.set(w, true);
        }
    }

    /// Resumes worker `w` alone; a worker the config does not know is ignored.
    pub fn resume(&mut self, w: usize)
        ensures
            final(self)@ == (if w < old(self)@.paused.len() {
                SyncState { paused: old(self)@.paused.update(w as int, false), ..old(self)@ }
            } else {
                old(self)@
            }),
    {
        if w < self.paused.len() {
            self.paused.set(w, false);
        }
    }

    /// What worker `w` does at this tick.
    pub fn tick(&self, w: usize) -> (a: TickAction)
        ensures
            a == tick_of(self@, w as int),
    {
        if self.quit {
            TickAction::Exit
        } else if self.enabled && w < self.paused.len() && !self.paused[w] {
            TickAction::Run
        } else {
            TickAction::Idle
        }
    }
}

/// A background worker: its name, its place in the shared config, and the
/// milliseconds it sleeps between two ticks.
pub trait Syncer {
    /// The worker's name, which is its identity.
    spec fn spec_name(&self) -> Seq<char>;

    /// The worker's place in the shared config.
    spec fn spec_slot(&self) -> usize;

    /// The milliseconds between two ticks of the worker.
    spec fn spec_delay(&self) -> u64;

    fn get_name(&self) -> (r: &'static str)
        ensures
            r@ == self.spec_name(),
    ;

    fn get_slot(&self) -> (r: usize)
        ensures
            r == self.spec_slot(),
    ;

    fn get_delay(&self) -> (r: u64)
        ensures
            r == self.spec_delay(),
    ;
}

/// The place of the outgoing worker in the shared config.
pub const OUTGOING_SLOT: usize = 0;

/// The outgoing worker pushes local changes to the remote service.
#[derive(Debug)]
pub struct SyncOutgoing {
    name: &'static str,
    delay: u64,
}

impl SyncOutgoing {
    /// The outgoing worker, named "outgoing" and ticking once a second.
    pub fn new() -> (s: SyncOutgoing)
        ensures
            s.spec_name() == "outgoing"@,
            s.spec_slot() == OUTGOING_SLOT,
            s.spec_delay() == 1000,
    {
        SyncOutgoing { name: "outgoing", delay: 1000 }
    }
}

impl Syncer for SyncOutgoing {
    closed spec fn spec_name(&self) -> Seq<char> {
        self.name@
    }

    closed spec fn spec_slot(&self) -> usize {
        OUTGOING_SLOT
    }

    closed spec fn spec_delay(&self) -> u64 {
        self.delay
    }

    fn get_name(&self) -> &'static str {
        self.name
    }

    fn get_slot(&self) -> usize {
        OUTGOING_SLOT
    }

    fn get_delay(&self) -> u64 {
        self.delay
    }
}

} // verus!
