//! CPU core lifecycle management and the heterogeneous task scheduler for a
//! big.LITTLE SoC with four performance cores and four efficiency cores.

use vstd::prelude::*;
use crate::errors::KernelError;

verus! {

/// Description of a task handed to the scheduler for placement.
#[derive(Debug, Clone)]
pub struct TaskInfo {
    pub is_compute_intensive: bool,
    pub is_latency_sensitive: bool,
    /// Estimated runtime in milliseconds.
    pub estimated_runtime: u64,
    /// Memory footprint in kilobytes.
    pub memory_usage: u32,
    /// Priority, 0 to 100.
    pub priority: u8,
}

impl TaskInfo {
    pub fn new(
        compute_intensive: bool,
        latency_sensitive: bool,
        runtime: u64,
        memory: u32,
        priority: u8,
    ) -> (t: TaskInfo)
        ensures
            t.is_compute_intensive == compute_intensive,
            t.is_latency_sensitive == latency_sensitive,
            t.estimated_runtime == runtime,
            t.memory_usage == memory,
            t.priority == priority,
    {
        TaskInfo {
            is_compute_intensive: compute_intensive,
            is_latency_sensitive: latency_sensitive,
            estimated_runtime: runtime,
            memory_usage: memory,
            priority,
        }
    }
}

/// Identifier of one of the eight physical cores: four Cortex-A76
/// performance cores and four Cortex-A55 efficiency cores.
#[derive(Debug, Clone, Copy, PartialEq, Eq, Structural)]
pub enum CoreId {
    A76_0,
    A76_1,
    A76_2,
    A76_3,
    A55_0,
    A55_1,
    A55_2,
    A55_3,
}

/// The position of a core in the per-core telemetry and state arrays:
/// performance cores occupy slots 0 to 3, efficiency cores slots 4 to 7.
pub open spec fn core_index(c: CoreId) -> int {
    match c {
        CoreId::A76_0 => 0,
        CoreId::A76_1 => 1,
        CoreId::A76_2 => 2,
        CoreId::A76_3 => 3,
        CoreId::A55_0 => 4,
        CoreId::A55_1 => 5,
        CoreId::A55_2 => 6,
        CoreId::A55_3 => 7,
    }
}

/// The core whose array slot is `i`; inverse of `core_index`.
pub open spec fn core_of_index(i: int) -> CoreId {
    if i == 0 {
        CoreId::A76_0
    } else if i == 1 {
        CoreId::A76_1
    } else if i == 2 {
        CoreId::A76_2
    } else if i == 3 {
        CoreId::A76_3
    } else if i == 4 {
        CoreId::A55_0
    } else if i == 5 {
        CoreId::A55_1
    } else if i == 6 {
        CoreId::A55_2
    } else {
        CoreId::A55_3
    }
}

impl CoreId {
    /// The array slot of this core.
    pub fn index(&self) -> (i: usize)
        ensures
            i == core_index(*self),
            i < 8,
    {
        match *self {
            CoreId::A76_0 => 0,
            CoreId::A76_1 => 1,
            CoreId::A76_2 => 2,
            CoreId::A76_3 => 3,
            CoreId::A55_0 => 4,
            CoreId::A55_1 => 5,
            CoreId::A55_2 => 6,
            CoreId::A55_3 => 7,
        }
    }

    /// Whether this is a high-performance (Cortex-A76) core.
    pub fn is_performance_core(&self) -> (r: bool)
        ensures
            r == (core_index(*self) < 4),
    {
        matches!(*self, CoreId::A76_0 | CoreId::A76_1 | CoreId::A76_2 | CoreId::A76_3)
    }

    /// Whether this is a low-power (Cortex-A55) core.
    pub fn is_efficiency_core(&self) -> (r: bool)
        ensures
            r == (core_index(*self) >= 4),
    {
        matches!(*self, CoreId::A55_0 | CoreId::A55_1 | CoreId::A55_2 | CoreId::A55_3)
    }
}

/// Lifecycle state of one core.
#[derive(Debug, Clone, Copy, PartialEq, Eq, Structural)]
pub enum CoreState {
    Off,
    Idle,
    Running,
    Suspended,
}

/// Tracks the lifecycle state and current task of each of the eight cores.
///
/// Cores are created `Off` at boot and transition only through `start_core`
/// and `stop_core`.
pub struct CpuManager {
    core_states: [CoreState; 8],
    current_task: [u32; 8],
}

/// The outcome of `start_core` on a state vector: the updated vector and
/// whether the transition was accepted.
pub open spec fn start_core_outcome(states: Seq<CoreState>, core_id: CoreId) -> (Seq<
    CoreState,
>, bool) {
    if states[core_index(core_id)] == CoreState::Off {
        (states.update(core_index(core_id), CoreState::Running), true)
    } else {
        (states, false)
    }
}

/// The outcome of `stop_core` on a state vector.
pub open spec fn stop_core_outcome(states: Seq<CoreState>, core_id: CoreId) -> (Seq<
    CoreState,
>, bool) {
    if states[core_index(core_id)] != CoreState::Off {
        (states.update(core_index(core_id), CoreState::Off), true)
    } else {
        (states, false)
    }
}

impl CpuManager {
    /// The lifecycle states of all eight cores, indexed by `core_index`.
    pub closed spec fn states(&self) -> Seq<CoreState> {
        self.core_states@
    }

    /// The task identifiers installed on the eight cores.
    pub closed spec fn tasks(&self) -> Seq<u32> {
        self.current_task@
    }

    /// The manager always tracks exactly the eight cores.
    pub open spec fn wf(&self) -> bool {
        self.states().len() == 8 && self.tasks().len() == 8
    }

    /// A fresh manager: every core `Off`, no task installed anywhere.
    pub fn new() -> (m: CpuManager)
        ensures
            m.wf(),
            forall|i: int| 0 <= i < 8 ==> m.states()[i] == CoreState::Off,
            forall|i: int| 0 <= i < 8 ==> m.tasks()[i] == 0,
    {
        CpuManager {
            core_states: [
                CoreState::Off,
                CoreState::Off,
                CoreState::Off,
                CoreState::Off,
                CoreState::Off,
                CoreState::Off,
                CoreState::Off,
                CoreState::Off,
            ],
            current_task: [0, 0, 0, 0, 0, 0, 0, 0],
        }
    }

    /// Starts a core: the transition `Off` to `Running`. Fails with
    /// `AlreadyInState`, leaving the manager unchanged, when the core is not
    /// `Off`.
    pub fn start_core(&mut self, core_id: CoreId) -> (r: Result<(), KernelError>)
        ensures
            final(self).wf() == old(self).wf(),
            (final(self).states(), r is Ok) == start_core_outcome(old(self).states(), core_id),
            r is Err ==> r == Result::<(), KernelError>::Err(KernelError::AlreadyInState),
            final(self).tasks() == old(self).tasks(),
    {
        let idx = core_id.index();
        if matches!(self.core_states[idx], CoreState::Off) {
            self.core_states[idx] = CoreState::Running;
            Ok(())
        } else {
            Err(KernelError::AlreadyInState)
        }
    }

    /// Stops a core: the transition back to `Off`. Fails with
    /// `AlreadyInState`, leaving the manager unchanged, when the core is
    /// already `Off`.
    pub fn stop_core(&mut self, core_id: CoreId) -> (r: Result<(), KernelError>)
        ensures
            final(self).wf() == old(self).wf(),
            (final(self).states(), r is Ok) == stop_core_outcome(old(self).states(), core_id),
            r is Err ==> r == Result::<(), KernelError>::Err(KernelError::AlreadyInState),
            final(self).tasks() == old(self).tasks(),
    {
        let idx = core_id.index();
        if matches!(self.core_states[idx], CoreState::Off) {
            Err(KernelError::AlreadyInState)
        } else {
            self.core_states[idx] = CoreState::Off;
            Ok(())
        }
    }

    /// Reads the lifecycle state of one core.
    pub fn get_core_state(&self, core_id: CoreId) -> (s: CoreState)
        ensures
            s == self.states()[core_index(core_id)],
    {
        self.core_states[core_id.index()]
    }

    /// Installs a task identifier on a core.
    pub fn set_core_task(&mut self, core_id: CoreId, task_id: u32)
        ensures
            final(self).wf() == old(self).wf(),
            final(self).tasks() == old(self).tasks().update(core_index(core_id), task_id),
            final(self).states() == old(self).states(),
    {
        let idx = core_id.index();
        self.current_task[idx] = task_id;
    }

    /// Reads the task identifier installed on a core.
    pub fn get_core_task(&self, core_id: CoreId) -> (t: u32)
        ensures
            t == self.tasks()[core_index(core_id)],
    {
        self.current_task[core_id.index()]
    }
}

/// Starting a core twice in a row from `Off` is accepted exactly once: the
/// first transition succeeds and leaves the core `Running`, the second is
/// refused and changes nothing, so the state is never corrupted.
pub proof fn lemma_start_core_twice(states: Seq<CoreState>, core_id: CoreId)
    requires
        states.len() == 8,
        states[core_index(core_id)] == CoreState::Off,
    ensures
        start_core_outcome(states, core_id).1,
        start_core_outcome(states, core_id).0[core_index(core_id)] == CoreState::Running,
        !start_core_outcome(start_core_outcome(states, core_id).0, core_id).1,
        start_core_outcome(start_core_outcome(states, core_id).0, core_id).0
            == start_core_outcome(states, core_id).0,
{
}

/// Boot-time CPU initialisation: a fresh manager with the primary core
/// (the first performance core) started and every other core left `Off`.
pub fn init() -> (m: CpuManager)
    ensures
        m.wf(),
        m.states()[core_index(CoreId::A76_0)] == CoreState::Running,
        forall|i: int| 1 <= i < 8 ==> m.states()[i] == CoreState::Off,
        forall|i: int| 0 <= i < 8 ==> m.tasks()[i] == 0,
{
    let mut manager = CpuManager::new();
    let _started = manager.start_core(CoreId::A76_0);
    manager
}


/// Boot frequency and class ceiling of a performance core, in MHz.
pub const PERFORMANCE_MAX_FREQUENCY: u32 = 2400;

/// Boot frequency and class ceiling of an efficiency core, in MHz.
pub const EFFICIENCY_MAX_FREQUENCY: u32 = 1800;

/// Frequency floor that the governor never crosses downwards, in MHz.
pub const MIN_FREQUENCY: u32 = 600;

/// Logical time that must pass between two rebalancing passes, in timer ticks.
pub const BALANCE_INTERVAL_TICKS: u64 = 100_000_000;

/// The slot, among slots `lo <= i < hi`, holding the smallest load; on ties
/// the lowest slot. Mirrors a left-to-right scan that replaces the champion
/// only on a strictly smaller load.
pub open spec fn least_loaded_in(loads: Seq<u32>, lo: int, hi: int) -> int
    decreases hi - lo,
{
    if hi <= lo + 1 {
        lo
    } else {
        let prev = least_loaded_in(loads, lo, hi - 1);
        if loads[hi - 1] < loads[prev] {
            hi - 1
        } else {
            prev
        }
    }
}

/// `least_loaded_in` picks a slot in range with a minimal load, and no
/// earlier slot in range carries so small a load: the tie-break is
/// deterministic towards the lowest index.
pub proof fn lemma_least_loaded_props(loads: Seq<u32>, lo: int, hi: int)
    requires
        0 <= lo < hi <= loads.len(),
    ensures
        lo <= least_loaded_in(loads, lo, hi) < hi,
        forall|j: int|
            lo <= j < hi ==> loads[least_loaded_in(loads, lo, hi)] <= #[trigger] loads[j],
        forall|j: int|
            lo <= j < least_loaded_in(loads, lo, hi) ==> #[trigger] loads[j] > loads[
                least_loaded_in(loads, lo, hi)],
    decreases hi - lo,
{
    if hi > lo + 1 {
        lemma_least_loaded_props(loads, lo, hi - 1);
    }
}

/// The ceiling frequency of the core in slot `i`: the performance-core
/// ceiling for slots 0 to 3, the efficiency-core ceiling for slots 4 to 7.
pub open spec fn class_ceiling(i: int) -> u32 {
    if i < 4 {
        PERFORMANCE_MAX_FREQUENCY
    } else {
        EFFICIENCY_MAX_FREQUENCY
    }
}

/// Sum of the loads in slots `0 <= i < n`.
pub open spec fn load_sum(loads: Seq<u32>, n: int) -> int
    decreases n,
{
    if n <= 0 {
        0
    } else {
        load_sum(loads, n - 1) + loads[n - 1]
    }
}

/// The thermal governor's effect on one core's frequency: any core above
/// 80 degrees Celsius has its frequency reduced by a fixed 200 MHz step
/// (never below zero).
pub open spec fn thermal_frequency(temp: u32, freq: u32) -> u32 {
    if temp > 80 {
        if freq >= 200 {
            (freq - 200) as u32
        } else {
            0
        }
    } else {
        freq
    }
}

/// The thermal governor applied to all eight cores.
pub open spec fn thermal_frequencies(temps: Seq<u32>, freqs: Seq<u32>) -> Seq<u32> {
    Seq::new(8, |i: int| thermal_frequency(temps[i], freqs[i]))
}

/// The frequency governor's effect on the core in slot `i`: with aggregate
/// load under 200 every frequency steps 100 MHz down towards the floor, with
/// aggregate load over 600 every frequency steps 100 MHz up towards its
/// class ceiling, and otherwise frequencies are left alone.
pub open spec fn governed_frequency(total_load: int, i: int, freq: u32) -> u32 {
    if total_load < 200 {
        if freq > MIN_FREQUENCY {
            (freq - 100) as u32
        } else {
            freq
        }
    } else if total_load > 600 {
        if freq < class_ceiling(i) {
            (freq + 100) as u32
        } else {
            freq
        }
    } else {
        freq
    }
}

/// The frequency governor applied to all eight cores.
pub open spec fn governed_frequencies(total_load: int, freqs: Seq<u32>) -> Seq<u32> {
    Seq::new(8, |i: int| governed_frequency(total_load, i, freqs[i]))
}

/// All eight frequencies after a full rebalancing pass: the thermal step
/// followed by the frequency-governor step on the aggregate load.
pub open spec fn rebalanced_frequencies(
    loads: Seq<u32>,
    temps: Seq<u32>,
    freqs: Seq<u32>,
) -> Seq<u32> {
    governed_frequencies(load_sum(loads, 8), thermal_frequencies(temps, freqs))
}

/// Whether the load-balancing scan flags the core in slot `i`: its load
/// exceeds the mean load by more than 20.
pub open spec fn overloaded(loads: Seq<u32>, i: int) -> bool {
    loads[i] > load_sum(loads, 8) / 8 + 20
}

/// Migration flags after the load-balancing scan.
pub open spec fn flags_after_scan(loads: Seq<u32>, flags: Seq<bool>) -> Seq<bool> {
    Seq::new(8, |i: int| flags[i] || overloaded(loads, i))
}

/// Migration flags after the thermal governor: every core above 80 degrees
/// Celsius is flagged as well.
pub open spec fn flags_after_thermal(temps: Seq<u32>, flags: Seq<bool>) -> Seq<bool> {
    Seq::new(8, |i: int| flags[i] || temps[i] > 80)
}

/// Migration flags after a full rebalancing pass: a core is newly flagged
/// exactly when its load exceeds the mean by more than 20 or it runs above
/// 80 degrees Celsius.
pub open spec fn rebalanced_flags(
    loads: Seq<u32>,
    temps: Seq<u32>,
    flags: Seq<bool>,
) -> Seq<bool> {
    flags_after_thermal(temps, flags_after_scan(loads, flags))
}

/// The heterogeneous scheduler: places tasks from per-core load, temperature
/// and frequency telemetry, and runs a periodic rebalancing pass that flags
/// overloaded or hot cores for migration and governs frequencies.
pub struct EnhancedScheduler {
    core_loads: [u32; 8],
    core_temperatures: [u32; 8],
    core_frequencies: [u32; 8],
    migration_flags: [bool; 8],
    energy_efficiency_mode: bool,
    last_balance_time: u64,
}

/// The core that the selection policy picks for `task`, given the current
/// loads and the energy-efficiency switch: a compute-intensive task outside
/// energy mode, and any latency-sensitive task, go to the least-loaded
/// performance core; anything else goes to the least-loaded efficiency core
/// in energy mode and to the least-loaded performance core otherwise.
pub open spec fn chosen_core(loads: Seq<u32>, energy_mode: bool, task: TaskInfo) -> CoreId {
    if task.is_compute_intensive && !energy_mode {
        core_of_index(least_loaded_in(loads, 0, 4))
    } else if task.is_latency_sensitive {
        core_of_index(least_loaded_in(loads, 0, 4))
    } else if energy_mode {
        core_of_index(least_loaded_in(loads, 4, 8))
    } else {
        core_of_index(least_loaded_in(loads, 0, 4))
    }
}

/// A compute-intensive task outside energy-efficiency mode is placed on a
/// performance core carrying the minimum load among the performance cores,
/// and when several of them tie at that minimum the lowest-indexed one is
/// chosen: no earlier performance core carries so small a load.
pub proof fn lemma_compute_intensive_placement(loads: Seq<u32>, task: TaskInfo)
    requires
        loads.len() == 8,
        task.is_compute_intensive,
    ensures
        0 <= core_index(chosen_core(loads, false, task)) < 4,
        forall|j: int|
            0 <= j < 4 ==> loads[core_index(chosen_core(loads, false, task))] <= #[trigger] loads[
                j],
        forall|j: int|
            0 <= j < core_index(chosen_core(loads, false, task)) ==> #[trigger] loads[j] > loads[
                core_index(chosen_core(loads, false, task))],
{
    lemma_least_loaded_props(loads, 0, 4);
    assert(core_index(core_of_index(least_loaded_in(loads, 0, 4))) == least_loaded_in(
        loads,
        0,
        4,
    ));
}

/// Every load is a percentage.
pub open spec fn loads_wf(loads: Seq<u32>) -> bool {
    forall|i: int| 0 <= i < 8 ==> #[trigger] loads[i] <= 100
}

impl EnhancedScheduler {
    /// Loads of the eight cores, each 0 to 100, indexed by `core_index`.
    pub closed spec fn loads(&self) -> Seq<u32> {
        self.core_loads@
    }

    /// Temperatures of the eight cores in degrees Celsius.
    pub closed spec fn temperatures(&self) -> Seq<u32> {
        self.core_temperatures@
    }

    /// Current frequencies of the eight cores in MHz.
    pub closed spec fn frequencies(&self) -> Seq<u32> {
        self.core_frequencies@
    }

    /// Which cores are currently flagged for task migration.
    pub closed spec fn migration(&self) -> Seq<bool> {
        self.migration_flags@
    }

    /// Whether the scheduler prefers efficiency cores for ordinary tasks.
    pub closed spec fn energy_mode(&self) -> bool {
        self.energy_efficiency_mode
    }

    /// Logical time of the last rebalancing pass, in timer ticks.
    pub closed spec fn last_balance(&self) -> u64 {
        self.last_balance_time
    }

    /// The telemetry arrays hold one slot per core and every load is a
    /// percentage.
    pub open spec fn wf(&self) -> bool {
        &&& self.loads().len() == 8
        &&& self.temperatures().len() == 8
        &&& self.frequencies().len() == 8
        &&& self.migration().len() == 8
        &&& loads_wf(self.loads())
    }

    /// A fresh scheduler: loads zero, temperatures at 25 degrees Celsius,
    /// frequencies at the class ceilings, energy mode off, nothing flagged.
    pub fn new() -> (s: EnhancedScheduler)
        ensures
            s.wf(),
            forall|i: int| 0 <= i < 8 ==> s.loads()[i] == 0,
            forall|i: int| 0 <= i < 8 ==> s.temperatures()[i] == 25,
            forall|i: int| 0 <= i < 8 ==> s.frequencies()[i] == class_ceiling(i),
            forall|i: int| 0 <= i < 8 ==> !s.migration()[i],
            !s.energy_mode(),
            s.last_balance() == 0,
    {
        EnhancedScheduler {
            core_loads: [0, 0, 0, 0, 0, 0, 0, 0],
            core_temperatures: [25, 25, 25, 25, 25, 25, 25, 25],
            core_frequencies: [2400, 2400, 2400, 2400, 1800, 1800, 1800, 1800],
            migration_flags: [false, false, false, false, false, false, false, false],
            energy_efficiency_mode: false,
            last_balance_time: 0,
        }
    }

    /// Places a task: when more than `BALANCE_INTERVAL_TICKS` of logical time
    /// has passed since the last pass, a rebalancing pass runs first; the
    /// task then goes to the core that the selection policy picks from the
    /// (unchanged) loads.
    pub fn schedule_task_intelligent(&mut self, task_info: &TaskInfo, current_time: u64) -> (c:
        CoreId)
        requires
            old(self).wf(),
            old(self).last_balance() <= current_time,
        ensures
            final(self).wf(),
            c == chosen_core(old(self).loads(), old(self).energy_mode(), *task_info),
            final(self).loads() == old(self).loads(),
            final(self).temperatures() == old(self).temperatures(),
            final(self).energy_mode() == old(self).energy_mode(),
            current_time - old(self).last_balance() > BALANCE_INTERVAL_TICKS ==> {
                &&& final(self).last_balance() == current_time
                &&& final(self).frequencies() == rebalanced_frequencies(
                    old(self).loads(),
                    old(self).temperatures(),
                    old(self).frequencies(),
                )
                &&& final(self).migration() == rebalanced_flags(
                    old(self).loads(),
                    old(self).temperatures(),
                    old(self).migration(),
                )
            },
            current_time - old(self).last_balance() <= BALANCE_INTERVAL_TICKS ==> {
                &&& final(self).last_balance() == old(self).last_balance()
                &&& final(self).frequencies() == old(self).frequencies()
                &&& final(self).migration() == old(self).migration()
            },
    {
        if current_time - self.last_balance_time > BALANCE_INTERVAL_TICKS {
            self.perform_load_balancing();
            self.last_balance_time = current_time;
        }
        if task_info.is_compute_intensive && !self.energy_efficiency_mode {
            self.find_least_loaded_performance_core()
        } else if task_info.is_latency_sensitive {
            self.find_lowest_latency_core()
        } else {
            self.find_most_efficient_core()
        }
    }

    /// One full rebalancing pass: flag each core whose load exceeds the mean
    /// by more than 20, run the thermal governor, then run the frequency
    /// governor on the aggregate load.
    fn perform_load_balancing(&mut self)
        requires
            old(self).wf(),
        ensures
            final(self).wf(),
            final(self).loads() == old(self).loads(),
            final(self).temperatures() == old(self).temperatures(),
            final(self).energy_mode() == old(self).energy_mode(),
            final(self).last_balance() == old(self).last_balance(),
            final(self).frequencies() == rebalanced_frequencies(
                old(self).loads(),
                old(self).temperatures(),
                old(self).frequencies(),
            ),
            final(self).migration() == rebalanced_flags(
                old(self).loads(),
                old(self).temperatures(),
                old(self).migration(),
            ),
    {
        let total_load = self.total_load();
        let avg_load = total_load / 8;
        let mut i: usize = 0;
        while i < 8
            invariant
                self.wf(),
                0 <= i <= 8,
                avg_load == load_sum(self.loads(), 8) / 8,
                avg_load <= 100,
                self.core_loads == old(self).core_loads,
                self.core_temperatures == old(self).core_temperatures,
                self.core_frequencies == old(self).core_frequencies,
                self.energy_efficiency_mode == old(self).energy_efficiency_mode,
                self.last_balance_time == old(self).last_balance_time,
                forall|j: int|
                    i <= j < 8 ==> #[trigger] self.migration_flags@[j] == old(
                        self,
                    ).migration_flags@[j],
                forall|j: int|
                    0 <= j < i ==> #[trigger] self.migration_flags@[j] == (old(
                        self,
                    ).migration_flags@[j] || overloaded(old(self).core_loads@, j)),
            decreases 8 - i,
        {
            if self.core_loads[i] > avg_load + 20 {
                self.migrate_tasks_from_core(i);
            }
            i = i + 1;
        }
        proof {
            assert(self.migration_flags@ =~= flags_after_scan(
                old(self).core_loads@,
                old(self).migration_flags@,
            ));
        }
        self.manage_temperatures();
        self.adjust_frequencies();
    }

    /// The aggregate load over the eight cores; at most 800.
    fn total_load(&self) -> (total: u32)
        requires
            self.wf(),
        ensures
            total == load_sum(self.loads(), 8),
            total <= 800,
    {
        let mut total: u32 = 0;
        let mut i: usize = 0;
        while i < 8
            invariant
                self.wf(),
                0 <= i <= 8,
                total == load_sum(self.loads(), i as int),
                total <= 100 * i,
            decreases 8 - i,
        {
            total = total + self.core_loads[i];
            i = i + 1;
        }
        total
    }

    /// The performance core carrying the minimum load; ties break to the
    /// lowest index.
    fn find_least_loaded_performance_core(&self) -> (c: CoreId)
        ensures
            c == core_of_index(least_loaded_in(self.loads(), 0, 4)),
    {
        let mut selected: usize = 0;
        let mut min_load = self.core_loads[0];
        let mut i: usize = 1;
        while i < 4
            invariant
                1 <= i <= 4,
                selected == least_loaded_in(self.loads(), 0, i as int),
                0 <= selected < i,
                min_load == self.loads()[selected as int],
            decreases 4 - i,
        {
            if self.core_loads[i] < min_load {
                min_load = self.core_loads[i];
                selected = i;
            }
            i = i + 1;
        }
        self.core_id_of_slot(selected)
    }

    /// The efficiency core carrying the minimum load; ties break to the
    /// lowest index.
    fn find_least_loaded_efficiency_core(&self) -> (c: CoreId)
        ensures
            c == core_of_index(least_loaded_in(self.loads(), 4, 8)),
    {
        let mut selected: usize = 4;
        let mut min_load = self.core_loads[4];
        let mut i: usize = 5;
        while i < 8
            invariant
                5 <= i <= 8,
                selected == least_loaded_in(self.loads(), 4, i as int),
                4 <= selected < i,
                min_load == self.loads()[selected as int],
            decreases 8 - i,
        {
            if self.core_loads[i] < min_load {
                min_load = self.core_loads[i];
                selected = i;
            }
            i = i + 1;
        }
        self.core_id_of_slot(selected)
    }

    /// The most responsive core for a latency-sensitive task, approximated
    /// as the least-loaded performance core.
    fn find_lowest_latency_core(&self) -> (c: CoreId)
        ensures
            c == core_of_index(least_loaded_in(self.loads(), 0, 4)),
    {
        self.find_least_loaded_performance_core()
    }

    /// The most energy-efficient placement for an ordinary task: the
    /// least-loaded efficiency core in energy mode, the least-loaded
    /// performance core otherwise.
    fn find_most_efficient_core(&self) -> (c: CoreId)
        ensures
            self.energy_mode() ==> c == core_of_index(least_loaded_in(self.loads(), 4, 8)),
            !self.energy_mode() ==> c == core_of_index(least_loaded_in(self.loads(), 0, 4)),
    {
        if self.energy_efficiency_mode {
            self.find_least_loaded_efficiency_core()
        } else {
            self.find_least_loaded_performance_core()
        }
    }

    /// The `CoreId` whose slot is `slot`.
    fn core_id_of_slot(&self, slot: usize) -> (c: CoreId)
        requires
            slot < 8,
        ensures
            c == core_of_index(slot as int),
    {
        match slot {
            0 => CoreId::A76_0,
            1 => CoreId::A76_1,
            2 => CoreId::A76_2,
            3 => CoreId::A76_3,
            4 => CoreId::A55_0,
            5 => CoreId::A55_1,
            6 => CoreId::A55_2,
            _ => CoreId::A55_3,
        }
    }

    /// Flags the core in `slot` so that the external task manager migrates
    /// its tasks away; the actual movement is delegated to that manager.
    fn migrate_tasks_from_core(&mut self, slot: usize)
        requires
            slot < 8,
        ensures
            final(self).migration_flags@ == old(self).migration_flags@.update(slot as int, true),
            final(self).core_loads == old(self).core_loads,
            final(self).core_temperatures == old(self).core_temperatures,
            final(self).core_frequencies == old(self).core_frequencies,
            final(self).energy_efficiency_mode == old(self).energy_efficiency_mode,
            final(self).last_balance_time == old(self).last_balance_time,
    {
        self.migration_flags[slot] = true;
    }

    /// The thermal governor: every core above 80 degrees Celsius has its
    /// frequency reduced by a fixed 200 MHz step and is flagged for
    /// migration.
    fn manage_temperatures(&mut self)
        ensures
            final(self).core_frequencies@ == thermal_frequencies(
                old(self).core_temperatures@,
                old(self).core_frequencies@,
            ),
            final(self).migration_flags@ == flags_after_thermal(
                old(self).core_temperatures@,
                old(self).migration_flags@,
            ),
            final(self).core_loads == old(self).core_loads,
            final(self).core_temperatures == old(self).core_temperatures,
            final(self).energy_efficiency_mode == old(self).energy_efficiency_mode,
            final(self).last_balance_time == old(self).last_balance_time,
    {
        let mut i: usize = 0;
        while i < 8
            invariant
                0 <= i <= 8,
                forall|j: int|
                    0 <= j < i ==> #[trigger] self.core_frequencies@[j] == thermal_frequency(
                        old(self).core_temperatures@[j],
                        old(self).core_frequencies@[j],
                    ),
                forall|j: int|
                    0 <= j < i ==> #[trigger] self.migration_flags@[j] == (old(
                        self,
                    ).migration_flags@[j] || old(self).core_temperatures@[j] > 80),
                forall|j: int|
                    i <= j < 8 ==> #[trigger] self.core_frequencies@[j] == old(
                        self,
                    ).core_frequencies@[j],
                forall|j: int|
                    i <= j < 8 ==> #[trigger] self.migration_flags@[j] == old(
                        self,
                    ).migration_flags@[j],
                self.core_loads == old(self).core_loads,
                self.core_temperatures == old(self).core_temperatures,
                self.energy_efficiency_mode == old(self).energy_efficiency_mode,
                self.last_balance_time == old(self).last_balance_time,
            decreases 8 - i,
        {
            if self.core_temperatures[i] > 80 {
                let freq = self.core_frequencies[i];
                self.core_frequencies[i] = if freq >= 200 {
                    freq - 200
                } else {
                    0
                };
                self.migration_flags[i] = true;
            }
            i = i + 1;
        }
        proof {
            assert(self.core_frequencies@ =~= thermal_frequencies(
                old(self).core_temperatures@,
                old(self).core_frequencies@,
            ));
            assert(self.migration_flags@ =~= flags_after_thermal(
                old(self).core_temperatures@,
                old(self).migration_flags@,
            ));
        }
    }

    /// The frequency governor: with aggregate load under 200 every core
    /// steps 100 MHz down towards the floor, with aggregate load over 600
    /// every core steps 100 MHz up towards its class ceiling.
    fn adjust_frequencies(&mut self)
        requires
            old(self).wf(),
        ensures
            final(self).core_frequencies@ == governed_frequencies(
                load_sum(old(self).core_loads@, 8),
                old(self).core_frequencies@,
            ),
            final(self).core_loads == old(self).core_loads,
            final(self).core_temperatures == old(self).core_temperatures,
            final(self).migration_flags == old(self).migration_flags,
            final(self).energy_efficiency_mode == old(self).energy_efficiency_mode,
            final(self).last_balance_time == old(self).last_balance_time,
    {
        let total_load = self.total_load();
        let mut i: usize = 0;
        while i < 8
            invariant
                0 <= i <= 8,
                total_load == load_sum(old(self).core_loads@, 8),
                forall|j: int|
                    0 <= j < i ==> #[trigger] self.core_frequencies@[j] == governed_frequency(
                        load_sum(old(self).core_loads@, 8),
                        j,
                        old(self).core_frequencies@[j],
                    ),
                forall|j: int|
                    i <= j < 8 ==> #[trigger] self.core_frequencies@[j] == old(
                        self,
                    ).core_frequencies@[j],
                self.core_loads == old(self).core_loads,
                self.core_temperatures == old(self).core_temperatures,
                self.migration_flags == old(self).migration_flags,
                self.energy_efficiency_mode == old(self).energy_efficiency_mode,
                self.last_balance_time == old(self).last_balance_time,
            decreases 8 - i,
        {
            let freq = self.core_frequencies[i];
            if total_load < 200 {
                if freq > MIN_FREQUENCY {
                    self.core_frequencies[i] = freq - 100;
                }
            } else if total_load > 600 {
                let max_freq = if i < 4 {
                    PERFORMANCE_MAX_FREQUENCY
                } else {
                    EFFICIENCY_MAX_FREQUENCY
                };
                if freq < max_freq {
                    self.core_frequencies[i] = freq + 100;
                }
            }
            i = i + 1;
        }
        proof {
            assert(self.core_frequencies@ =~= governed_frequencies(
                load_sum(old(self).core_loads@, 8),
                old(self).core_frequencies@,
            ));
        }
    }

    /// Records one core's measured load, a percentage.
    pub fn update_core_load(&mut self, core_id: CoreId, load: u32)
        requires
            old(self).wf(),
            load <= 100,
        ensures
            final(self).wf(),
            final(self).loads() == old(self).loads().update(core_index(core_id), load),
            final(self).temperatures() == old(self).temperatures(),
            final(self).frequencies() == old(self).frequencies(),
            final(self).migration() == old(self).migration(),
            final(self).energy_mode() == old(self).energy_mode(),
            final(self).last_balance() == old(self).last_balance(),
    {
        let idx = core_id.index();
        self.core_loads[idx] = load;
        proof {
            assert forall|i: int| 0 <= i < 8 implies #[trigger] self.loads()[i] <= 100 by {
                if i != core_index(core_id) {
                    assert(old(self).loads()[i] <= 100);
                }
            }
        }
    }

    /// Records one core's measured temperature in degrees Celsius.
    pub fn update_core_temperature(&mut self, core_id: CoreId, temperature: u32)
        requires
            old(self).wf(),
        ensures
            final(self).wf(),
            final(self).temperatures() == old(self).temperatures().update(
                core_index(core_id),
                temperature,
            ),
            final(self).loads() == old(self).loads(),
            final(self).frequencies() == old(self).frequencies(),
            final(self).migration() == old(self).migration(),
            final(self).energy_mode() == old(self).energy_mode(),
            final(self).last_balance() == old(self).last_balance(),
    {
        let idx = core_id.index();
        self.core_temperatures[idx] = temperature;
    }

    /// Switches the preference for efficiency cores on or off.
    pub fn set_energy_efficiency_mode(&mut self, enabled: bool)
        requires
            old(self).wf(),
        ensures
            final(self).wf(),
            final(self).energy_mode() == enabled,
            final(self).loads() == old(self).loads(),
            final(self).temperatures() == old(self).temperatures(),
            final(self).frequencies() == old(self).frequencies(),
            final(self).migration() == old(self).migration(),
            final(self).last_balance() == old(self).last_balance(),
    {
        self.energy_efficiency_mode = enabled;
    }

    /// Reads one core's current frequency in MHz.
    pub fn core_frequency(&self, core_id: CoreId) -> (f: u32)
        ensures
            f == self.frequencies()[core_index(core_id)],
    {
        self.core_frequencies[core_id.index()]
    }

    /// Reads one core's recorded load.
    pub fn core_load(&self, core_id: CoreId) -> (l: u32)
        ensures
            l == self.loads()[core_index(core_id)],
    {
        self.core_loads[core_id.index()]
    }

    /// Reads one core's recorded temperature.
    pub fn core_temperature(&self, core_id: CoreId) -> (t: u32)
        ensures
            t == self.temperatures()[core_index(core_id)],
    {
        self.core_temperatures[core_id.index()]
    }

    /// Whether a core is currently flagged for task migration.
    pub fn is_migration_flagged(&self, core_id: CoreId) -> (r: bool)
        ensures
            r == self.migration()[core_index(core_id)],
    {
        self.migration_flags[core_id.index()]
    }

    /// Clears one core's migration flag once the external task manager has
    /// moved its tasks.
    pub fn clear_migration_flag(&mut self, core_id: CoreId)
        requires
            old(self).wf(),
        ensures
            final(self).wf(),
            final(self).migration() == old(self).migration().update(core_index(core_id), false),
            final(self).loads() == old(self).loads(),
            final(self).temperatures() == old(self).temperatures(),
            final(self).frequencies() == old(self).frequencies(),
            final(self).energy_mode() == old(self).energy_mode(),
            final(self).last_balance() == old(self).last_balance(),
    {
        let idx = core_id.index();
        self.migration_flags[idx] = false;
    }
}

} // verus!
