//! The execution loop: in which order the artifacts of the active directory
//! run, and when the host ends.
//!
//! The loop decides and the host acts. The host reports what happened as a
//! `LoopEvent`; `ExecutionLoop::step` answers with the `LoopAction` to carry
//! out next.

use vstd::prelude::*;
use crate::directory::{get_plugins_from_path, running_order};
use crate::fault::{is_fatal, recovery_of, Activity, Fault, Recovery};

verus! {

/// Where the loop stands.
#[derive(Clone, Copy, Debug, PartialEq, Eq, Structural)]
pub enum LoopState {
    /// The listing of the active directory is awaited.
    Scanning,
    /// The GPIO chip is being opened for this pass.
    Opening,
    /// An artifact runs.
    Running,
    /// The host has ended, or is to end.
    Finished,
}

/// What the host reports to the loop.
pub enum LoopEvent {
    /// The active directory was read: the names of its entries.
    Listed { entries: Vec<String> },
    /// The GPIO chip is open.
    ChipOpened,
    /// The artifact that was to run has run.
    RunCompleted,
    /// The step that was asked for failed with this fault.
    Failed { fault: Fault },
}

/// What the loop asks the host to do next.
pub enum LoopAction {
    /// Read the names of the entries of the active directory.
    Scan,
    /// Open the GPIO chip for this pass.
    OpenChip,
    /// Run the artifact of this name once: load it, give it a fresh table with
    /// the id `run`, instantiate it and invoke its entry operation.
    Run { artifact: String, run: u64 },
    /// End the host in good order: there is nothing to run.
    Exit,
    /// End the host on this fault.
    Abort { fault: Fault },
    /// The event does not fit the state; nothing changes.
    Ignore,
}

/// A `LoopAction` as plain values.
pub enum LoopActionView {
    Scan,
    OpenChip,
    Run { artifact: Seq<char>, run: u64 },
    Exit,
    Abort { fault: Fault },
    Ignore,
}

impl View for LoopAction {
    type V = LoopActionView;

    open spec fn view(&self) -> LoopActionView {
        match self {
            LoopAction::Scan => LoopActionView::Scan,
            LoopAction::OpenChip => LoopActionView::OpenChip,
            LoopAction::Run { artifact, run } => LoopActionView::Run { artifact: artifact@, run: *run },
            LoopAction::Exit => LoopActionView::Exit,
            LoopAction::Abort { fault } => LoopActionView::Abort { fault: *fault },
            LoopAction::Ignore => LoopActionView::Ignore,
        }
    }
}

/// The loop: its state, the artifacts of this pass in running order, how many
/// of them have run, and how many runs there were in all.
pub struct ExecutionLoop {
    state: LoopState,
    queue: Vec<String>,
    done: usize,
    runs: u64,
}

/// An `ExecutionLoop` as plain values.
pub struct LoopView {
    pub state: LoopState,
    /// The artifacts of this pass, in running order.
    pub queue: Seq<Seq<char>>,
    /// How many artifacts of this pass have run.
    pub done: nat,
    /// How many runs were started since the loop was made; a run's table has
    /// this number as its id.
    pub runs: u64,
}

impl View for ExecutionLoop {
    type V = LoopView;

    closed spec fn view(&self) -> LoopView {
        LoopView {
            state: self.state,
            queue: self.queue.deep_view(),
            done: self.done as nat,
            runs: self.runs,
        }
    }
}

/// Whether a fault that comes up while plugins run ends the host: it does
/// where the rule of recovery ends the instantiation or the host.
pub open spec fn ends_run(fault: Fault) -> bool {
    recovery_of(fault, Activity::Execution) == Recovery::EndHost || recovery_of(
        fault,
        Activity::Execution,
    ) == Recovery::EndInstantiation
}

/// The number after `runs`; it wraps around after 2^64 runs.
pub open spec fn next_run(runs: u64) -> u64 {
    if runs == u64::MAX {
        0
    } else {
        (runs + 1) as u64
    }
}

/// The action that runs artifact `index` of the pass, and the state with it.
pub open spec fn run_next(pre: LoopView, queue: Seq<Seq<char>>, index: nat) -> (
    LoopView,
    LoopActionView,
) {
    (
        LoopView { state: LoopState::Running, queue, done: index, runs: next_run(pre.runs) },
        LoopActionView::Run { artifact: queue[index as int], run: pre.runs },
    )
}

/// What the loop does on an event.
pub open spec fn after_loop_event(pre: LoopView, event: LoopEvent) -> (LoopView, LoopActionView) {
    match event {
        LoopEvent::Listed { entries } => if pre.state == LoopState::Scanning {
            let order = running_order(entries.deep_view());
            if order.len() == 0 {
                (LoopView { state: LoopState::Finished, queue: order, done: 0, ..pre }, LoopActionView::Exit)
            } else {
                (
                    LoopView { state: LoopState::Opening, queue: order, done: 0, ..pre },
                    LoopActionView::OpenChip,
                )
            }
        } else {
            (pre, LoopActionView::Ignore)
        },
        LoopEvent::ChipOpened => if pre.state == LoopState::Opening && pre.queue.len() > 0 {
            run_next(pre, pre.queue, 0)
        } else {
            (pre, LoopActionView::Ignore)
        },
        LoopEvent::RunCompleted => if pre.state == LoopState::Running {
            if pre.done + 1 < pre.queue.len() {
                run_next(pre, pre.queue, pre.done + 1)
            } else {
                (
                    LoopView { state: LoopState::Scanning, queue: Seq::empty(), done: 0, ..pre },
                    LoopActionView::Scan,
                )
            }
        } else {
            (pre, LoopActionView::Ignore)
        },
        LoopEvent::Failed { fault } => if pre.state != LoopState::Finished && ends_run(fault) {
            (LoopView { state: LoopState::Finished, ..pre }, LoopActionView::Abort { fault })
        } else {
            (pre, LoopActionView::Ignore)
        },
    }
}

impl ExecutionLoop {
    /// A loop that awaits its first listing. The host begins with a scan.
    pub fn new() -> (r: ExecutionLoop)
        ensures
            r@ == (LoopView { state: LoopState::Scanning, queue: Seq::empty(), done: 0, runs: 0 }),
    {
        let r = ExecutionLoop { state: LoopState::Scanning, queue: Vec::new(), done: 0, runs: 0 };
        assert(r.queue.deep_view() =~= Seq::<Seq<char>>::empty());
        r
    }

    /// Where the loop stands.
    pub fn state(&self) -> (state: LoopState)
        ensures
            state == self@.state,
    {
        self.state
    }

    fn run(&mut self, index: usize) -> (action: LoopAction)
        requires
            index < old(self).queue.len(),
        ensures
            (final(self)@, action@) == run_next(old(self)@, old(self)@.queue, index as nat),
    {
        let run = self.runs;
        assert(self.queue.deep_view()[index as int] == self.queue@[index as int]@);
        self.state = LoopState::Running;
        self.done = index;
        self.runs = if run == u64::MAX {
            0
        } else {
            run + 1
        };
        LoopAction::Run { artifact: self.queue[index].clone(), run }
    }

    /// One step of the loop: takes in what the host reports and answers with
    /// what the host does next. The artifacts of a listing run in
    /// lexicographic order of their names, each once; a listing without
    /// artifacts ends the host; so does a fault of the sandbox, of a handle or
    /// of the file system.
    pub fn step(&mut self, event: LoopEvent) -> (action: LoopAction)
        ensures
            (final(self)@, action@) == after_loop_event(old(self)@, event),
    {
        match event {
            LoopEvent::Listed { entries } => match self.state {
                LoopState::Scanning => {
                    self.queue = get_plugins_from_path(&entries);
                    self.done = 0;
                    if self.queue.len() == 0 {
                        self.state = LoopState::Finished;
                        LoopAction::Exit
                    } else {
                        self.state = LoopState::Opening;
                        LoopAction::OpenChip
                    }
                },
                _ => LoopAction::Ignore,
            },
            LoopEvent::ChipOpened => match self.state {
                LoopState::Opening => if self.queue.len() > 0 {
                    self.run(0)
                } else {
                    LoopAction::Ignore
                },
                _ => LoopAction::Ignore,
            },
            LoopEvent::RunCompleted => match self.state {
                LoopState::Running => {
                    if self.done < self.queue.len() && self.done + 1 < self.queue.len() {
                        let index: usize = self.done + 1;
                        self.run(index)
                    } else {
                        self.state = LoopState::Scanning;
                        self.queue = Vec::new();
                        self.done = 0;
                        assert(self.queue.deep_view() =~= Seq::<Seq<char>>::empty());
                        LoopAction::Scan
                    }
                },
                _ => LoopAction::Ignore,
            },
            LoopEvent::Failed { fault } => match self.state {
                LoopState::Finished => LoopAction::Ignore,
                _ => if is_fatal(fault, Activity::Execution) {
                    self.state = LoopState::Finished;
                    LoopAction::Abort { fault }
                } else {
                    LoopAction::Ignore
                },
            },
        }
    }
}

/// Within a pass the artifacts run in the order of the listing: after artifact
/// `k` has run, artifact `k + 1` is next, and after the last one the directory
/// is scanned again.
pub proof fn lemma_runs_follow_the_order(pre: LoopView)
    requires
        pre.state == LoopState::Running,
    ensures
        pre.done + 1 < pre.queue.len() ==> after_loop_event(pre, LoopEvent::RunCompleted).1 == (
            LoopActionView::Run { artifact: pre.queue[pre.done as int + 1], run: pre.runs }
        ),
        pre.done + 1 >= pre.queue.len() ==> after_loop_event(pre, LoopEvent::RunCompleted).1
            == LoopActionView::Scan,
{
}

} // verus!
