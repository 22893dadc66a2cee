//! The process scheduler: process control blocks and a round-robin
//! selection policy over the ready queue.

use vstd::prelude::*;

verus! {

/// Lifecycle state of a process.
#[derive(Debug, Clone, Copy, PartialEq, Eq, Structural)]
pub enum ProcessState {
    Ready,
    Running,
    Blocked,
    Terminated,
}

/// A saved execution context: where the process resumes.
#[derive(Debug, Clone, Copy, PartialEq, Eq, Structural)]
pub struct Context {
    pub entry_point: usize,
}

impl Context {
    pub fn new(entry_point: usize) -> (c: Context)
        ensures
            c.entry_point == entry_point,
    {
        Context { entry_point }
    }
}

/// Static description of a task, as handed to the admission layer.
#[derive(Debug, Clone, Copy)]
pub struct TaskInfo {
    pub id: usize,
    pub name: &'static str,
    pub priority: u8,
    pub stack_size: usize,
}

/// A process control block.
pub struct ProcessControlBlock {
    pub pid: usize,
    pub state: ProcessState,
    pub priority: u8,
    pub context: Context,
}

/// The round-robin scheduler: processes are visited in creation order, the
/// successor of the current process being next.
pub struct Scheduler {
    processes: Vec<ProcessControlBlock>,
    current_pid: Option<usize>,
    next_pid: usize,
}

impl Scheduler {
    /// The process identifiers, in creation order.
    pub closed spec fn pids(&self) -> Seq<usize> {
        self.processes@.map_values(|p: ProcessControlBlock| p.pid)
    }

    /// The identifier of the currently selected process, if any.
    pub closed spec fn current(&self) -> Option<usize> {
        self.current_pid
    }

    /// The identifier the next created process receives.
    pub closed spec fn spec_next_pid(&self) -> usize {
        self.next_pid
    }

    /// Identifiers start at 1 and grow by one per process, so they are
    /// unique and every identifier is below `next_pid`.
    pub open spec fn wf(&self) -> bool {
        &&& self.spec_next_pid() >= 1
        &&& forall|i: int|
            0 <= i < self.pids().len() ==> 1 <= #[trigger] self.pids()[i]
                < self.spec_next_pid()
        &&& forall|i: int, j: int|
            0 <= i < j < self.pids().len() ==> #[trigger] self.pids()[i] != #[trigger] self.pids()[
                j
            ]
    }

    /// An empty scheduler with nothing selected.
    pub fn new() -> (s: Scheduler)
        ensures
            s.wf(),
            s.pids().len() == 0,
            s.current() is None,
    {
        Scheduler { processes: Vec::new(), current_pid: None, next_pid: 1 }
    }

    /// Admits a process with the given entry point: it receives the next
    /// free identifier, a default priority and a `Ready` state, and joins
    /// the end of the queue.
    pub fn add_process(&mut self, entry_point: usize) -> (pid: usize)
        requires
            old(self).wf(),
            old(self).spec_next_pid() < usize::MAX,
        ensures
            final(self).wf(),
            pid == old(self).spec_next_pid(),
            final(self).pids() == old(self).pids().push(pid),
            final(self).spec_next_pid() == old(self).spec_next_pid() + 1,
            final(self).current() == old(self).current(),
    {
        let pid = self.next_pid;
        self.next_pid = self.next_pid + 1;
        let pcb = ProcessControlBlock {
            pid,
            state: ProcessState::Ready,
            priority: 1,
            context: Context::new(entry_point),
        };
        self.processes.push(pcb);
        proof {
            assert(self.pids() =~= old(self).pids().push(pid));
        }
        pid
    }

    /// The queue position of the process with identifier `pid`, if present.
    fn position_of(&self, pid: usize) -> (r: Option<usize>)
        ensures
            match r {
                Some(i) => i < self.pids().len() && self.pids()[i as int] == pid,
                None => forall|j: int|
                    0 <= j < self.pids().len() ==> #[trigger] self.pids()[j] != pid,
            },
    {
        let mut i: usize = 0;
        while i < self.processes.len()
            invariant
                0 <= i <= self.pids().len(),
                forall|j: int| 0 <= j < i ==> #[trigger] self.pids()[j] != pid,
            decreases self.pids().len() - i,
        {
            if self.processes[i].pid == pid {
                return Some(i);
            }
            i = i + 1;
        }
        None
    }

    /// Selects the next process, round-robin: the successor (cyclically) of
    /// the current process's queue position, or the head of the queue when
    /// nothing was selected or the current process has gone. Returns the
    /// selected identifier, or nothing when the queue is empty.
    pub fn schedule(&mut self) -> (r: Option<usize>)
        requires
            old(self).wf(),
        ensures
            final(self).wf(),
            final(self).pids() == old(self).pids(),
            final(self).spec_next_pid() == old(self).spec_next_pid(),
            old(self).pids().len() == 0 ==> r is None && final(self).current() == old(
                self,
            ).current(),
            old(self).pids().len() > 0 && old(self).current() is None ==> r == Some(
                old(self).pids()[0],
            ),
            old(self).pids().len() > 0 ==> {
                &&& (r matches Some(pid) && old(self).pids().contains(pid))
                &&& final(self).current() == r
            },
    {
        if self.processes.len() == 0 {
            return None;
        }
        let next_index: usize = match self.current_pid {
            Some(current) => {
                let here = self.position_of(current);
                match here {
                    Some(i) => {
                        if i + 1 < self.processes.len() {
                            i + 1
                        } else {
                            0
                        }
                    },
                    None => 0,
                }
            },
            None => 0,
        };
        let pid = self.processes[next_index].pid;
        self.current_pid = Some(pid);
        proof {
            assert(self.pids()[next_index as int] == pid);
            assert(self.pids().contains(pid));
        }
        Some(pid)
    }

    /// The currently selected process's queue position, if it is present.
    pub fn current_process(&self) -> (r: Option<usize>)
        ensures
            match r {
                Some(i) => i < self.pids().len() && self.current() == Some(
                    self.pids()[i as int],
                ),
                None => true,
            },
    {
        match self.current_pid {
            Some(pid) => self.position_of(pid),
            None => None,
        }
    }

    /// Reads the state of the process at a queue position.
    pub fn process_state(&self, index: usize) -> (r: Option<ProcessState>)
        ensures
            (r is Some) == (index < self.pids().len()),
    {
        if index < self.processes.len() {
            Some(self.processes[index].state)
        } else {
            None
        }
    }
}

} // verus!
