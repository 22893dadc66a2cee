//! SoC-level hardware support: the CPU clusters with their exception-vector
//! setup, the neural processing unit's register-level lifecycle, and the
//! system controller that brings both up at boot.

use vstd::prelude::*;

verus! {

/// Fixed physical base addresses of the SoC's major blocks.
pub const DDR_BASE: u64 = 0x0000_0000;

/// Size of the DDR window, two gigabytes.
pub const DDR_SIZE: u64 = 0x8000_0000;

/// Base of the peripheral register window.
pub const PERIPHERAL_BASE: u64 = 0xFD00_0000;

/// Base of the neural-processing-unit registers.
pub const NPU_BASE: u64 = 0xFDC0_0000;

/// Base of the GPU registers.
pub const GPU_BASE: u64 = 0xFDE0_0000;

/// Base of the video-processing-unit registers.
pub const VPU_BASE: u64 = 0xFDF8_0000;

/// Physical address of the exception-vector table.
pub const VECTOR_TABLE_ADDRESS: u64 = 0x8000_0000;

/// One high-performance core: its exception-vector base and enable state.
#[derive(Debug, Clone, Copy, PartialEq, Eq, Structural)]
pub struct CortexA76 {
    id: u32,
    enabled: bool,
    vector_base: u64,
}

impl CortexA76 {
    /// Whether the core is enabled.
    pub closed spec fn spec_enabled(&self) -> bool {
        self.enabled
    }

    /// The programmed exception-vector base.
    pub closed spec fn spec_vector_base(&self) -> u64 {
        self.vector_base
    }

    /// A disabled core with no vector table programmed.
    pub fn new() -> (c: CortexA76)
        ensures
            !c.spec_enabled(),
            c.spec_vector_base() == 0,
    {
        CortexA76 { id: 0, enabled: false, vector_base: 0 }
    }

    /// Core initialisation: programs the exception-vector base register and
    /// enables the core.
    pub fn init(&mut self)
        ensures
            final(self).spec_enabled(),
            final(self).spec_vector_base() == VECTOR_TABLE_ADDRESS,
    {
        self.vector_base = VECTOR_TABLE_ADDRESS;
        self.enabled = true;
    }

    /// Enables the core.
    pub fn enable(&mut self)
        ensures
            final(self).spec_enabled(),
            final(self).spec_vector_base() == old(self).spec_vector_base(),
    {
        self.enabled = true;
    }

    /// Disables the core.
    pub fn disable(&mut self)
        ensures
            !final(self).spec_enabled(),
            final(self).spec_vector_base() == old(self).spec_vector_base(),
    {
        self.enabled = false;
    }
}

/// One high-efficiency core: its exception-vector base and enable state.
#[derive(Debug, Clone, Copy, PartialEq, Eq, Structural)]
pub struct CortexA55 {
    id: u32,
    enabled: bool,
    vector_base: u64,
}

impl CortexA55 {
    /// Whether the core is enabled.
    pub closed spec fn spec_enabled(&self) -> bool {
        self.enabled
    }

    /// The programmed exception-vector base.
    pub closed spec fn spec_vector_base(&self) -> u64 {
        self.vector_base
    }

    /// A disabled core with no vector table programmed.
    pub fn new() -> (c: CortexA55)
        ensures
            !c.spec_enabled(),
            c.spec_vector_base() == 0,
    {
        CortexA55 { id: 0, enabled: false, vector_base: 0 }
    }

    /// Core initialisation: programs the exception-vector base register and
    /// enables the core.
    pub fn init(&mut self)
        ensures
            final(self).spec_enabled(),
            final(self).spec_vector_base() == VECTOR_TABLE_ADDRESS,
    {
        self.vector_base = VECTOR_TABLE_ADDRESS;
        self.enabled = true;
    }

    /// Enables the core.
    pub fn enable(&mut self)
        ensures
            final(self).spec_enabled(),
            final(self).spec_vector_base() == old(self).spec_vector_base(),
    {
        self.enabled = true;
    }

    /// Disables the core.
    pub fn disable(&mut self)
        ensures
            !final(self).spec_enabled(),
            final(self).spec_vector_base() == old(self).spec_vector_base(),
    {
        self.enabled = false;
    }
}

/// Static description of the two CPU clusters.
#[derive(Debug, Clone, Copy)]
pub struct CpuTopology {
    pub big_cores: u32,
    pub little_cores: u32,
    pub total_cores: u32,
    pub big_core_freq: u32,
    pub little_core_freq: u32,
}

/// A performance preference for the whole complex.
#[derive(Debug, Clone, Copy, PartialEq, Eq, Structural)]
pub enum PerformanceMode {
    /// Only the little cores run.
    PowerSave,
    /// Every core runs; the scheduler balances dynamically.
    Balanced,
    /// Every core runs; big cores are preferred.
    Performance,
}

/// The CPU complex: four big and four little cores.
pub struct RK3588Cpu {
    big_cores: [CortexA76; 4],
    little_cores: [CortexA55; 4],
    active: bool,
}

impl RK3588Cpu {
    /// The big cores.
    pub closed spec fn bigs(&self) -> Seq<CortexA76> {
        self.big_cores@
    }

    /// The little cores.
    pub closed spec fn littles(&self) -> Seq<CortexA55> {
        self.little_cores@
    }

    /// Whether `init_all_cores` has run.
    pub closed spec fn spec_active(&self) -> bool {
        self.active
    }

    /// A fresh complex, all cores disabled.
    pub fn new() -> (c: RK3588Cpu)
        ensures
            !c.spec_active(),
            forall|i: int| 0 <= i < 4 ==> !(#[trigger] c.bigs()[i]).spec_enabled(),
            forall|i: int| 0 <= i < 4 ==> !(#[trigger] c.littles()[i]).spec_enabled(),
    {
        let big = CortexA76::new();
        let little = CortexA55::new();
        RK3588Cpu {
            big_cores: [big, big, big, big],
            little_cores: [little, little, little, little],
            active: false,
        }
    }

    /// Initialises every core: programs each exception-vector base and
    /// enables all eight cores.
    pub fn init_all_cores(&mut self)
        ensures
            final(self).spec_active(),
            forall|i: int| 0 <= i < 4 ==> (#[trigger] final(self).bigs()[i]).spec_enabled(),
            forall|i: int| 0 <= i < 4 ==> (#[trigger] final(self).littles()[i]).spec_enabled(),
            forall|i: int|
                0 <= i < 4 ==> (#[trigger] final(self).bigs()[i]).spec_vector_base()
                    == VECTOR_TABLE_ADDRESS,
            forall|i: int|
                0 <= i < 4 ==> (#[trigger] final(self).littles()[i]).spec_vector_base()
                    == VECTOR_TABLE_ADDRESS,
    {
        let mut i: usize = 0;
        while i < 4
            invariant
                0 <= i <= 4,
                forall|j: int|
                    0 <= j < i ==> (#[trigger] self.big_cores@[j]).spec_enabled() && self.big_cores@[
                        j
                    ].spec_vector_base() == VECTOR_TABLE_ADDRESS,
                self.little_cores == old(self).little_cores,
            decreases 4 - i,
        {
            let mut core = self.big_cores[i];
            core.init();
            self.big_cores[i] = core;
            i = i + 1;
        }
        let mut i: usize = 0;
        while i < 4
            invariant
                0 <= i <= 4,
                forall|j: int|
                    0 <= j < i ==> (#[trigger] self.little_cores@[j]).spec_enabled()
                        && self.little_cores@[j].spec_vector_base() == VECTOR_TABLE_ADDRESS,
                forall|j: int|
                    0 <= j < 4 ==> (#[trigger] self.big_cores@[j]).spec_enabled()
                        && self.big_cores@[j].spec_vector_base() == VECTOR_TABLE_ADDRESS,
            decreases 4 - i,
        {
            let mut core = self.little_cores[i];
            core.init();
            self.little_cores[i] = core;
            i = i + 1;
        }
        self.active = true;
    }

    /// The static topology of the complex.
    pub fn get_topology(&self) -> (t: CpuTopology)
        ensures
            t.big_cores == 4,
            t.little_cores == 4,
            t.total_cores == 8,
            t.big_core_freq == 2400,
            t.little_core_freq == 1800,
    {
        CpuTopology {
            big_cores: 4,
            little_cores: 4,
            total_cores: 8,
            big_core_freq: 2400,
            little_core_freq: 1800,
        }
    }

    /// Applies a performance preference: `PowerSave` disables the big cores
    /// and enables the little ones, the other modes enable every core.
    pub fn set_performance_mode(&mut self, mode: PerformanceMode)
        ensures
            forall|i: int|
                0 <= i < 4 ==> (#[trigger] final(self).bigs()[i]).spec_enabled() == (mode
                    != PerformanceMode::PowerSave),
            forall|i: int| 0 <= i < 4 ==> (#[trigger] final(self).littles()[i]).spec_enabled(),
            final(self).spec_active() == old(self).spec_active(),
    {
        match mode {
            PerformanceMode::PowerSave => self.enable_little_cores_only(),
            PerformanceMode::Balanced => self.enable_all_cores(),
            PerformanceMode::Performance => self.enable_big_cores_priority(),
        }
    }

    /// Disables the big cores and enables the little cores.
    fn enable_little_cores_only(&mut self)
        ensures
            forall|i: int| 0 <= i < 4 ==> !(#[trigger] final(self).bigs()[i]).spec_enabled(),
            forall|i: int| 0 <= i < 4 ==> (#[trigger] final(self).littles()[i]).spec_enabled(),
            final(self).spec_active() == old(self).spec_active(),
    {
        let mut i: usize = 0;
        while i < 4
            invariant
                0 <= i <= 4,
                forall|j: int| 0 <= j < i ==> !(#[trigger] self.big_cores@[j]).spec_enabled(),
                self.little_cores == old(self).little_cores,
                self.active == old(self).active,
            decreases 4 - i,
        {
            let mut core = self.big_cores[i];
            core.disable();
            self.big_cores[i] = core;
            i = i + 1;
        }
        let mut i: usize = 0;
        while i < 4
            invariant
                0 <= i <= 4,
                forall|j: int| 0 <= j < i ==> (#[trigger] self.little_cores@[j]).spec_enabled(),
                forall|j: int| 0 <= j < 4 ==> !(#[trigger] self.big_cores@[j]).spec_enabled(),
                self.active == old(self).active,
            decreases 4 - i,
        {
            let mut core = self.little_cores[i];
            core.enable();
            self.little_cores[i] = core;
            i = i + 1;
        }
    }

    /// Enables every core.
    fn enable_all_cores(&mut self)
        ensures
            forall|i: int| 0 <= i < 4 ==> (#[trigger] final(self).bigs()[i]).spec_enabled(),
            forall|i: int| 0 <= i < 4 ==> (#[trigger] final(self).littles()[i]).spec_enabled(),
            final(self).spec_active() == old(self).spec_active(),
    {
        let mut i: usize = 0;
        while i < 4
            invariant
                0 <= i <= 4,
                forall|j: int| 0 <= j < i ==> (#[trigger] self.big_cores@[j]).spec_enabled(),
                self.little_cores == old(self).little_cores,
                self.active == old(self).active,
            decreases 4 - i,
        {
            let mut core = self.big_cores[i];
            core.enable();
            self.big_cores[i] = core;
            i = i + 1;
        }
        let mut i: usize = 0;
        while i < 4
            invariant
                0 <= i <= 4,
                forall|j: int| 0 <= j < i ==> (#[trigger] self.little_cores@[j]).spec_enabled(),
                forall|j: int| 0 <= j < 4 ==> (#[trigger] self.big_cores@[j]).spec_enabled(),
                self.active == old(self).active,
            decreases 4 - i,
        {
            let mut core = self.little_cores[i];
            core.enable();
            self.little_cores[i] = core;
            i = i + 1;
        }
    }

    /// Enables every core, the big cluster carrying priority placements.
    fn enable_big_cores_priority(&mut self)
        ensures
            forall|i: int| 0 <= i < 4 ==> (#[trigger] final(self).bigs()[i]).spec_enabled(),
            forall|i: int| 0 <= i < 4 ==> (#[trigger] final(self).littles()[i]).spec_enabled(),
            final(self).spec_active() == old(self).spec_active(),
    {
        self.enable_all_cores();
    }
}

/// Errors of the neural processing unit's lifecycle.
#[derive(Debug, Clone, Copy, PartialEq, Eq, Structural)]
pub enum NpuError {
    HardwareNotAvailable,
    NotInitialized,
    ResetTimeout,
    LoadTimeout,
    InferenceTimeout,
    InvalidModel,
}

/// The neural processing unit: availability, reset and configuration
/// registers, and the loaded-model state.
pub struct RK3588Npu {
    base_address: u64,
    enabled: bool,
    available: bool,
    reset_pending: bool,
    clock_config: u32,
    memory_config: u32,
    model_loaded: bool,
    model_size: u32,
}

impl RK3588Npu {
    /// Whether the initialisation sequence completed.
    pub closed spec fn spec_enabled(&self) -> bool {
        self.enabled
    }

    /// Whether the hardware reports itself present.
    pub closed spec fn spec_available(&self) -> bool {
        self.available
    }

    /// Whether a model is loaded.
    pub closed spec fn spec_model_loaded(&self) -> bool {
        self.model_loaded
    }

    /// The size of the loaded model in bytes.
    pub closed spec fn spec_model_size(&self) -> u32 {
        self.model_size
    }

    /// The programmed clock configuration.
    pub closed spec fn spec_clock_config(&self) -> u32 {
        self.clock_config
    }

    /// A fresh unit at the platform's register base, present and not yet
    /// initialised.
    pub fn new() -> (n: RK3588Npu)
        ensures
            !n.spec_enabled(),
            n.spec_available(),
            !n.spec_model_loaded(),
    {
        RK3588Npu {
            base_address: NPU_BASE,
            enabled: false,
            available: true,
            reset_pending: false,
            clock_config: 0,
            memory_config: 0,
            model_loaded: false,
            model_size: 0,
        }
    }

    /// Initialises the unit: checks availability, resets, and programs the
    /// clock and memory configuration. Fails with `HardwareNotAvailable`,
    /// changing nothing, when the status register reports no unit.
    pub fn init(&mut self) -> (r: Result<(), NpuError>)
        ensures
            old(self).spec_available() ==> r is Ok && final(self).spec_enabled() && final(self).spec_clock_config() == 3 && final(self).spec_available(),
            !old(self).spec_available() ==> r == Result::<(), NpuError>::Err(
                NpuError::HardwareNotAvailable,
            ) && *final(self) == *old(self),
    {
        if !self.is_available() {
            return Err(NpuError::HardwareNotAvailable);
        }
        match self.reset() {
            Ok(()) => {},
            Err(e) => {
                return Err(e);
            },
        }
        match self.configure() {
            Ok(()) => {},
            Err(e) => {
                return Err(e);
            },
        }
        self.enabled = true;
        Ok(())
    }

    /// Reads the status register: whether the unit is present.
    fn is_available(&self) -> (r: bool)
        ensures
            r == self.spec_available(),
    {
        self.available
    }

    /// Sends the reset command and waits, within the poll budget, for the
    /// busy bit to clear; the modelled unit acknowledges at once.
    fn reset(&mut self) -> (r: Result<(), NpuError>)
        ensures
            r is Ok,
            final(self).spec_available() == old(self).spec_available(),
            final(self).spec_enabled() == old(self).spec_enabled(),
            final(self).spec_model_loaded() == old(self).spec_model_loaded(),
            final(self).spec_model_size() == old(self).spec_model_size(),
            final(self).spec_clock_config() == old(self).spec_clock_config(),
    {
        self.reset_pending = true;
        self.reset_pending = false;
        Ok(())
    }

    /// Programs the working frequency and the memory-access configuration.
    fn configure(&mut self) -> (r: Result<(), NpuError>)
        ensures
            r is Ok,
            final(self).spec_clock_config() == 3,
            final(self).spec_available() == old(self).spec_available(),
            final(self).spec_enabled() == old(self).spec_enabled(),
            final(self).spec_model_loaded() == old(self).spec_model_loaded(),
            final(self).spec_model_size() == old(self).spec_model_size(),
    {
        self.clock_config = 3;
        self.memory_config = 1;
        Ok(())
    }

    /// Loads a model: fails with `NotInitialized` before `init`, and with
    /// `InvalidModel` for a model under 1024 bytes; otherwise the model's
    /// address and size are programmed and the load completes.
    pub fn load_model(&mut self, model_data: &[u8]) -> (r: Result<(), NpuError>)
        requires
            old(self).wf_load(model_data@.len() as int),
        ensures
            !old(self).spec_enabled() ==> r == Result::<(), NpuError>::Err(
                NpuError::NotInitialized,
            ) && *final(self) == *old(self),
            old(self).spec_enabled() && model_data@.len() < 1024 ==> r == Result::<
                (),
                NpuError,
            >::Err(NpuError::InvalidModel) && *final(self) == *old(self),
            old(self).spec_enabled() && model_data@.len() >= 1024 ==> r is Ok && final(self).spec_model_loaded() && final(self).spec_model_size() == model_data@.len() && final(self).spec_enabled(),
    {
        if !self.enabled {
            return Err(NpuError::NotInitialized);
        }
        if model_data.len() < 1024 {
            return Err(NpuError::InvalidModel);
        }
        self.model_size = model_data.len() as u32;
        self.model_loaded = true;
        Ok(())
    }

    /// The machine limit on a loadable model: its size fits the 32-bit size
    /// register.
    pub open spec fn wf_load(&self, len: int) -> bool {
        len <= u32::MAX
    }
}

/// The system controller: the CPU complex and the neural processing unit,
/// brought up together at boot.
pub struct RK3588SystemController {
    cpu: RK3588Cpu,
    npu: RK3588Npu,
}

/// Errors of whole-system initialisation.
#[derive(Debug, Clone, Copy, PartialEq, Eq, Structural)]
pub enum SystemError {
    HardwareInitializationFailed,
    ClockConfigurationFailed,
    PowerManagementFailed,
}

impl RK3588SystemController {
    /// The CPU complex.
    pub closed spec fn spec_cpu(&self) -> RK3588Cpu {
        self.cpu
    }

    /// The neural processing unit.
    pub closed spec fn spec_npu(&self) -> RK3588Npu {
        self.npu
    }

    /// A fresh controller over a fresh complex and unit.
    pub fn new() -> (c: RK3588SystemController)
        ensures
            !c.spec_cpu().spec_active(),
            !c.spec_npu().spec_enabled(),
            c.spec_npu().spec_available(),
    {
        RK3588SystemController { cpu: RK3588Cpu::new(), npu: RK3588Npu::new() }
    }

    /// Initialises the whole system: every CPU core, then the neural unit,
    /// then the clock tree and power management. Fails with
    /// `HardwareInitializationFailed` exactly when the neural unit reports
    /// itself absent.
    pub fn init_system(&mut self) -> (r: Result<(), SystemError>)
        ensures
            final(self).spec_cpu().spec_active(),
            old(self).spec_npu().spec_available() ==> r is Ok && final(self).spec_npu()
                .spec_enabled(),
            !old(self).spec_npu().spec_available() ==> r == Result::<(), SystemError>::Err(
                SystemError::HardwareInitializationFailed,
            ),
    {
        self.cpu.init_all_cores();
        let npu_ready = self.npu.init();
        match npu_ready {
            Ok(()) => {},
            Err(e) => {
                return Err(SystemError::HardwareInitializationFailed);
            },
        }
        match self.configure_clocks() {
            Ok(()) => {},
            Err(e) => {
                return Err(e);
            },
        }
        match self.configure_power_management() {
            Ok(()) => {},
            Err(e) => {
                return Err(e);
            },
        }
        Ok(())
    }

    /// Clock-tree configuration for the CPU, neural-unit and memory clocks.
    fn configure_clocks(&self) -> (r: Result<(), SystemError>)
        ensures
            r is Ok,
    {
        Ok(())
    }

    /// Power-domain and thermal configuration.
    fn configure_power_management(&self) -> (r: Result<(), SystemError>)
        ensures
            r is Ok,
    {
        Ok(())
    }
}

} // verus!
