//! The terminal session controller: the decisions that take a device from
//! idle through opening, ownership, permissions and greeting to the handoff
//! to the login program. The caller performs each action it is given and
//! reports whether it succeeded.
use vstd::prelude::*;
use crate::banner::{device_path, device_path_spec};

verus! {

/// Permission bits of a provisioned terminal: owner and group may read and
/// write, nobody else has access.
pub const TTY_MODE: u32 = 0o620;

/// How control passes to the login program.
#[derive(Debug, Clone, Copy, PartialEq, Eq, Structural)]
pub enum Strategy {
    /// Redirect this process's standard streams to the device and replace
    /// the program image: the loop ends with this process.
    InProcess,
    /// Spawn the login program on the device, wait for it, and start over.
    Supervised,
}

/// Where the controller stands. Each phase but `Idle` and `Failed` waits for
/// the outcome of the action that led into it.
#[derive(Debug, Clone, Copy, PartialEq, Eq, Structural)]
pub enum Phase {
    Idle,
    Opening,
    DeviceOpen,
    Owned,
    Provisioned,
    HandedOff,
    Failed,
}

/// What the caller is asked to do next, without its arguments.
#[derive(Debug, Clone, Copy, PartialEq, Eq, Structural)]
pub enum Step {
    OpenDevice,
    ChangeOwner,
    ChangeMode,
    Greet,
    RedirectAndExec,
    SpawnLogin,
    Done,
    Halt,
}

/// What the caller is asked to do next.
#[derive(Debug)]
pub enum Action {
    /// Open the device at this path for reading and writing.
    OpenDevice(String),
    /// Give the open device this owner and group.
    ChangeOwner(String, String),
    /// Give the open device these permission bits.
    ChangeMode(u32),
    /// Clear the screen (first flag) and write the banner (second flag).
    Greet(bool, bool),
    /// Redirect the three standard streams to the device, then replace the
    /// program image with the login program.
    RedirectAndExec,
    /// Spawn the login program on the device and wait for it to exit.
    SpawnLogin,
    /// The session is over; the controller is idle again.
    Done,
    /// A step failed: stop, the terminal must not be offered.
    Halt,
}

impl Action {
    pub open spec fn step(&self) -> Step {
        match self {
            Action::OpenDevice(_) => Step::OpenDevice,
            Action::ChangeOwner(_, _) => Step::ChangeOwner,
            Action::ChangeMode(_) => Step::ChangeMode,
            Action::Greet(_, _) => Step::Greet,
            Action::RedirectAndExec => Step::RedirectAndExec,
            Action::SpawnLogin => Step::SpawnLogin,
            Action::Done => Step::Done,
            Action::Halt => Step::Halt,
        }
    }
}

/// The account that owns a provisioned terminal.
pub open spec fn superuser_spec() -> Seq<char> {
    seq!['r', 'o', 'o', 't']
}

/// The group that owns a provisioned terminal.
pub open spec fn tty_group_spec() -> Seq<char> {
    seq!['t', 't', 'y']
}

/// The next phase and step from phase `p`, given whether the action that led
/// into `p` succeeded (not consulted in `Idle` and `Failed`).
pub open spec fn next_spec(p: Phase, s: Strategy, ok: bool) -> (Phase, Step) {
    match p {
        Phase::Idle => (Phase::Opening, Step::OpenDevice),
        Phase::Opening => if ok {
            (Phase::DeviceOpen, Step::ChangeOwner)
        } else {
            (Phase::Failed, Step::Halt)
        },
        Phase::DeviceOpen => if ok {
            (Phase::Owned, Step::ChangeMode)
        } else {
            (Phase::Failed, Step::Halt)
        },
        Phase::Owned => if ok {
            (Phase::Provisioned, Step::Greet)
        } else {
            (Phase::Failed, Step::Halt)
        },
        Phase::Provisioned => if !ok {
            (Phase::Failed, Step::Halt)
        } else if s == Strategy::InProcess {
            (Phase::HandedOff, Step::RedirectAndExec)
        } else {
            (Phase::HandedOff, Step::SpawnLogin)
        },
        Phase::HandedOff => if ok && s == Strategy::Supervised {
            (Phase::Idle, Step::Done)
        } else {
            (Phase::Failed, Step::Halt)
        },
        Phase::Failed => (Phase::Failed, Step::Halt),
    }
}

/// The steps asked for when the outcomes `outcomes` are reported one by one
/// from phase `p`.
pub open spec fn run(p: Phase, s: Strategy, outcomes: Seq<bool>) -> Seq<Step>
    decreases outcomes.len(),
{
    if outcomes.len() == 0 {
        Seq::empty()
    } else {
        let (q, a) = next_spec(p, s, outcomes[0]);
        seq![a] + run(q, s, outcomes.skip(1))
    }
}

/// The step hands the device to the login program.
pub open spec fn is_handoff(a: Step) -> bool {
    a == Step::RedirectAndExec || a == Step::SpawnLogin
}

/// The controller of one terminal device.
#[derive(Debug)]
pub struct Controller {
    /// The device's name under `/dev/`.
    pub device: String,
    pub strategy: Strategy,
    pub clear_screen: bool,
    pub banner: bool,
    pub phase: Phase,
}

impl Controller {
    /// An idle controller of the device named `device`.
    pub fn new(device: String, strategy: Strategy, clear_screen: bool, banner: bool) -> (r: Controller)
        ensures
            r.device@ == device@,
            r.strategy == strategy,
            r.clear_screen == clear_screen,
            r.banner == banner,
            r.phase == Phase::Idle,
    {
        Controller { device, strategy, clear_screen, banner, phase: Phase::Idle }
    }

    /// Takes the outcome of the last action (ignored when idle or failed) and
    /// returns the next one.
    pub fn step(&mut self, ok: bool) -> (r: Action)
        ensures
            (final(self).phase, r.step()) == next_spec(old(self).phase, old(self).strategy, ok),
            final(self).device@ == old(self).device@,
            final(self).strategy == old(self).strategy,
            final(self).clear_screen == old(self).clear_screen,
            final(self).banner == old(self).banner,
            r matches Action::OpenDevice(path) ==> path@ == device_path_spec(old(self).device@),
            r matches Action::ChangeOwner(user, group) ==> user@ == superuser_spec() && group@
                == tty_group_spec(),
            r matches Action::ChangeMode(mode) ==> mode == TTY_MODE,
            r matches Action::Greet(clear, banner) ==> clear == old(self).clear_screen && banner
                == old(self).banner,
    {
        let (next, action) = match self.phase {
            Phase::Idle => (Phase::Opening, Action::OpenDevice(device_path(self.device.as_str()))),
            Phase::Opening => if ok {
                let user: &str = "root";
                let group: &str = "tty";
                proof {
                    reveal_strlit("root");
                    reveal_strlit("tty");
                }
                let user = String::from_str(user);
                let group = String::from_str(group);
                assert(user@ =~= superuser_spec());
                assert(group@ =~= tty_group_spec());
                (Phase::DeviceOpen, Action::ChangeOwner(user, group))
            } else {
                (Phase::Failed, Action::Halt)
            },
            Phase::DeviceOpen => if ok {
                (Phase::Owned, Action::ChangeMode(TTY_MODE))
            } else {
                (Phase::Failed, Action::Halt)
            },
            Phase::Owned => if ok {
                (Phase::Provisioned, Action::Greet(self.clear_screen, self.banner))
            } else {
                (Phase::Failed, Action::Halt)
            },
            Phase::Provisioned => if !ok {
                (Phase::Failed, Action::Halt)
            } else {
                match self.strategy {
                    Strategy::InProcess => (Phase::HandedOff, Action::RedirectAndExec),
                    Strategy::Supervised => (Phase::HandedOff, Action::SpawnLogin),
                }
            },
            Phase::HandedOff => if ok && self.strategy == Strategy::Supervised {
                (Phase::Idle, Action::Done)
            } else {
                (Phase::Failed, Action::Halt)
            },
            Phase::Failed => (Phase::Failed, Action::Halt),
        };
        self.phase = next;
        action
    }
}

/// One step is asked for per reported outcome.
pub proof fn lemma_run_len(p: Phase, s: Strategy, outcomes: Seq<bool>)
    ensures
        run(p, s, outcomes).len() == outcomes.len(),
    decreases outcomes.len(),
{
    if outcomes.len() > 0 {
        lemma_run_len(next_spec(p, s, outcomes[0]).0, s, outcomes.skip(1));
    }
}

/// Once failed, the controller only ever asks to halt.
pub proof fn lemma_failed_halts(s: Strategy, outcomes: Seq<bool>)
    ensures
        forall|i: int| 0 <= i < outcomes.len() ==> run(Phase::Failed, s, outcomes)[i] == Step::Halt,
    decreases outcomes.len(),
{
    if outcomes.len() > 0 {
        lemma_failed_halts(s, outcomes.skip(1));
        lemma_run_len(Phase::Failed, s, outcomes.skip(1));
        let r = run(Phase::Failed, s, outcomes);
        assert forall|i: int| 0 <= i < outcomes.len() implies r[i] == Step::Halt by {
            if i > 0 {
                assert(r[i] == run(Phase::Failed, s, outcomes.skip(1))[i - 1]);
            }
        }
    }
}

/// Where changing the owner or the permission bits of the device fails, the
/// device is never handed off: every later step is a halt.
pub proof fn lemma_provisioning_failure_halts(p: Phase, s: Strategy, outcomes: Seq<bool>)
    requires
        p == Phase::DeviceOpen || p == Phase::Owned,
        outcomes.len() > 0,
        !outcomes[0],
    ensures
        forall|i: int| 0 <= i < outcomes.len() ==> !is_handoff(#[trigger] run(p, s, outcomes)[i]),
        forall|i: int| 0 <= i < outcomes.len() ==> run(p, s, outcomes)[i] == Step::Halt,
{
    lemma_failed_halts(s, outcomes.skip(1));
    lemma_run_len(Phase::Failed, s, outcomes.skip(1));
    let r = run(p, s, outcomes);
    assert forall|i: int| 0 <= i < outcomes.len() implies r[i] == Step::Halt by {
        if i > 0 {
            assert(r[i] == run(Phase::Failed, s, outcomes.skip(1))[i - 1]);
        }
    }
}

/// A handoff is asked for only after the device was opened, given its owner
/// and its permission bits, and greeted, each with success.
pub proof fn lemma_handoff_needs_provisioning(p: Phase, s: Strategy, ok: bool)
    ensures
        is_handoff(next_spec(p, s, ok).1) ==> p == Phase::Provisioned && ok,
        next_spec(p, s, ok).0 == Phase::Provisioned ==> p == Phase::Owned && ok,
        next_spec(p, s, ok).0 == Phase::Owned ==> p == Phase::DeviceOpen && ok,
        next_spec(p, s, ok).0 == Phase::DeviceOpen ==> p == Phase::Opening && ok,
{
}

} // verus!
