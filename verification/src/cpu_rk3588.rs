//! Per-core power state tracking for the heterogeneous CPU complex: four
//! big cores and four little cores with their class frequencies.

use vstd::prelude::*;

verus! {

/// Whether a core belongs to the high-performance or the high-efficiency
/// cluster.
#[derive(Debug, Clone, Copy, PartialEq, Eq, Structural)]
pub enum CoreType {
    Big,
    Little,
}

/// The boot frequency of a core class, in MHz.
pub open spec fn class_frequency(core_type: CoreType) -> u32 {
    match core_type {
        CoreType::Big => 2400,
        CoreType::Little => 1800,
    }
}

/// Power state of one core.
#[derive(Debug, Clone, Copy, PartialEq, Eq, Structural)]
pub struct CPUState {
    core_type: CoreType,
    running: bool,
    frequency: u32,
}

impl CPUState {
    /// This core's cluster.
    pub closed spec fn spec_core_type(&self) -> CoreType {
        self.core_type
    }

    /// Whether the core is powered and running.
    pub closed spec fn spec_running(&self) -> bool {
        self.running
    }

    /// The core's configured frequency in MHz.
    pub closed spec fn spec_frequency(&self) -> u32 {
        self.frequency
    }

    /// A core of the given cluster, stopped, at its class frequency.
    pub fn new(core_type: CoreType) -> (s: CPUState)
        ensures
            s.spec_core_type() == core_type,
            !s.spec_running(),
            s.spec_frequency() == class_frequency(core_type),
    {
        CPUState {
            core_type,
            running: false,
            frequency: match core_type {
                CoreType::Big => 2400,
                CoreType::Little => 1800,
            },
        }
    }

    /// Core-level setup: caches and branch prediction are configured by the
    /// embedding; the tracked state is unchanged.
    pub fn init(&self) -> (r: Result<(), &'static str>)
        ensures
            r is Ok,
    {
        Ok(())
    }

    /// Starts the core; starting a running core is a no-op success.
    pub fn start(&mut self) -> (r: Result<(), &'static str>)
        ensures
            r is Ok,
            final(self).spec_running(),
            final(self).spec_core_type() == old(self).spec_core_type(),
            final(self).spec_frequency() == old(self).spec_frequency(),
    {
        if !self.running {
            self.running = true;
        }
        Ok(())
    }

    /// Stops the core; stopping a stopped core is a no-op success.
    pub fn stop(&mut self) -> (r: Result<(), &'static str>)
        ensures
            r is Ok,
            !final(self).spec_running(),
            final(self).spec_core_type() == old(self).spec_core_type(),
            final(self).spec_frequency() == old(self).spec_frequency(),
    {
        if self.running {
            self.running = false;
        }
        Ok(())
    }

    /// Whether the core is running.
    pub fn is_running(&self) -> (r: bool)
        ensures
            r == self.spec_running(),
    {
        self.running
    }
}

/// Static description of the CPU complex.
#[derive(Debug, Clone)]
pub struct CPUInfo {
    pub total_cores: usize,
    pub big_cores: usize,
    pub little_cores: usize,
    pub big_arch: &'static str,
    pub little_arch: &'static str,
    pub max_frequency_big: u32,
    pub max_frequency_little: u32,
}

/// Tracks the power state of the four big and four little cores.
pub struct RK3588CPUManager {
    big_cores: [CPUState; 4],
    little_cores: [CPUState; 4],
    initialized: bool,
}

impl RK3588CPUManager {
    /// The big cores' states.
    pub closed spec fn bigs(&self) -> Seq<CPUState> {
        self.big_cores@
    }

    /// The little cores' states.
    pub closed spec fn littles(&self) -> Seq<CPUState> {
        self.little_cores@
    }

    /// Whether `init` has run.
    pub closed spec fn spec_initialized(&self) -> bool {
        self.initialized
    }

    /// A fresh manager: all eight cores stopped, not yet initialised.
    pub fn new() -> (m: RK3588CPUManager)
        ensures
            !m.spec_initialized(),
            forall|i: int| 0 <= i < 4 ==> !(#[trigger] m.bigs()[i]).spec_running(),
            forall|i: int| 0 <= i < 4 ==> !(#[trigger] m.littles()[i]).spec_running(),
            forall|i: int|
                0 <= i < 4 ==> (#[trigger] m.bigs()[i]).spec_core_type() == CoreType::Big,
            forall|i: int|
                0 <= i < 4 ==> (#[trigger] m.littles()[i]).spec_core_type() == CoreType::Little,
    {
        let big = CPUState::new(CoreType::Big);
        let little = CPUState::new(CoreType::Little);
        RK3588CPUManager {
            big_cores: [big, big, big, big],
            little_cores: [little, little, little, little],
            initialized: false,
        }
    }

    /// Initialises the complex: core setup, power management and performance
    /// monitoring configuration. Idempotent: a second call changes nothing.
    pub fn init(&mut self) -> (r: Result<(), &'static str>)
        ensures
            r is Ok,
            final(self).spec_initialized(),
            final(self).bigs() == old(self).bigs(),
            final(self).littles() == old(self).littles(),
    {
        if self.initialized {
            return Ok(());
        }
        let _power = self.configure_power_management();
        let _monitoring = self.configure_performance_monitoring();
        self.initialized = true;
        Ok(())
    }

    /// Dynamic voltage and frequency scaling configuration; owned by the
    /// platform's power controller, nothing tracked here changes.
    fn configure_power_management(&self) -> (r: Result<(), &'static str>)
        ensures
            r is Ok,
    {
        Ok(())
    }

    /// Performance-monitoring-unit configuration; nothing tracked here
    /// changes.
    fn configure_performance_monitoring(&self) -> (r: Result<(), &'static str>)
        ensures
            r is Ok,
    {
        Ok(())
    }

    /// The state of core `core_id`: 0 to 3 are the big cores, 4 to 7 the
    /// little cores, anything else does not exist.
    pub fn get_core_state(&self, core_id: usize) -> (r: Option<CPUState>)
        ensures
            core_id < 4 ==> r == Some(self.bigs()[core_id as int]),
            4 <= core_id < 8 ==> r == Some(self.littles()[core_id as int - 4]),
            core_id >= 8 ==> r is None,
    {
        if core_id < 4 {
            Some(self.big_cores[core_id])
        } else if core_id < 8 {
            Some(self.little_cores[core_id - 4])
        } else {
            None
        }
    }

    /// Starts all eight cores, little cores first. Fails with an
    /// initialisation error, changing nothing, when `init` has not run.
    pub fn start_all_cores(&mut self) -> (r: Result<(), &'static str>)
        ensures
            old(self).spec_initialized() ==> {
                &&& r is Ok
                &&& forall|i: int| 0 <= i < 4 ==> (#[trigger] final(self).bigs()[i]).spec_running()
                &&& forall|i: int|
                    0 <= i < 4 ==> (#[trigger] final(self).littles()[i]).spec_running()
            },
            !old(self).spec_initialized() ==> r is Err && *final(self) == *old(self),
            final(self).spec_initialized() == old(self).spec_initialized(),
    {
        if !self.initialized {
            return Err("manager not initialised");
        }
        let mut i: usize = 0;
        while i < 4
            invariant
                0 <= i <= 4,
                forall|j: int| 0 <= j < i ==> (#[trigger] self.little_cores@[j]).spec_running(),
                self.big_cores == old(self).big_cores,
                self.initialized == old(self).initialized,
            decreases 4 - i,
        {
            let mut core = self.little_cores[i];
            let _started = core.start();
            self.little_cores[i] = core;
            i = i + 1;
        }
        let mut i: usize = 0;
        while i < 4
            invariant
                0 <= i <= 4,
                forall|j: int| 0 <= j < i ==> (#[trigger] self.big_cores@[j]).spec_running(),
                forall|j: int| 0 <= j < 4 ==> (#[trigger] self.little_cores@[j]).spec_running(),
                self.initialized == old(self).initialized,
            decreases 4 - i,
        {
            let mut core = self.big_cores[i];
            let _started = core.start();
            self.big_cores[i] = core;
            i = i + 1;
        }
        Ok(())
    }

    /// The static topology of the complex.
    pub fn get_topology(&self) -> (info: CPUInfo)
        ensures
            info.total_cores == 8,
            info.big_cores == 4,
            info.little_cores == 4,
            info.max_frequency_big == 2400,
            info.max_frequency_little == 1800,
    {
        CPUInfo {
            total_cores: 8,
            big_cores: 4,
            little_cores: 4,
            big_arch: "Cortex-A76",
            little_arch: "Cortex-A55",
            max_frequency_big: 2400,
            max_frequency_little: 1800,
        }
    }
}

/// Boot-time construction and initialisation of the CPU complex.
pub fn init() -> (r: Result<RK3588CPUManager, &'static str>)
    ensures
        r matches Ok(m) ==> m.spec_initialized(),
{
    let mut manager = RK3588CPUManager::new();
    match manager.init() {
        Ok(()) => Ok(manager),
        Err(e) => Err(e),
    }
}

/// Starts all eight cores of the given complex.
pub fn start_all_cores(manager: &mut RK3588CPUManager) -> (r: Result<(), &'static str>)
    ensures
        old(manager).spec_initialized() ==> r is Ok,
{
    manager.start_all_cores()
}

/// The static topology of the complex.
pub fn get_cpu_info(manager: &RK3588CPUManager) -> (info: CPUInfo)
    ensures
        info.total_cores == 8,
        info.big_cores == 4,
        info.little_cores == 4,
{
    manager.get_topology()
}

} // verus!
