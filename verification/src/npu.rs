//! The neural-processing-unit driver: clocking, power modes, model loading
//! and the busy/idle lifecycle, modelled at the register level.

use vstd::prelude::*;

verus! {

/// Failures of the accelerator.
#[derive(Debug, Clone, Copy, PartialEq, Eq, Structural)]
pub enum NpuError {
    NotInitialized,
    CommunicationError,
    Timeout,
    InvalidModel,
    MemoryAllocationError,
    HardwareError,
    Busy,
}

/// Lifecycle state of the accelerator.
#[derive(Debug, Clone, Copy, PartialEq, Eq, Structural)]
pub enum NpuState {
    Idle,
    Busy,
    Error,
}

/// Power mode of the accelerator.
#[derive(Debug, Clone, Copy, PartialEq, Eq, Structural)]
pub enum PowerMode {
    LowPower,
    Balanced,
    Performance,
}

/// Numeric precision a model runs at.
#[derive(Debug, Clone, Copy, PartialEq, Eq, Structural)]
pub enum Precision {
    FP32,
    FP16,
    INT8,
}

/// Accelerator configuration.
#[derive(Debug, Clone, Copy, PartialEq, Eq, Structural)]
pub struct NpuConfig {
    /// Clock in MHz.
    pub clock_frequency: u32,
    pub power_mode: PowerMode,
    /// Dedicated memory in bytes.
    pub memory_size: usize,
    pub batch_size: u32,
}

/// The boot configuration: 800 MHz, balanced power, 64MB, batch of one.
pub open spec fn boot_npu_config() -> NpuConfig {
    NpuConfig {
        clock_frequency: 800,
        power_mode: PowerMode::Balanced,
        memory_size: 0x400_0000,
        batch_size: 1,
    }
}

impl NpuConfig {
    /// The boot configuration: 800 MHz, balanced power, 64MB, batch of one.
    pub fn boot() -> (c: NpuConfig)
        ensures
            c == boot_npu_config(),
    {
        NpuConfig {
            clock_frequency: 800,
            power_mode: PowerMode::Balanced,
            memory_size: 0x400_0000,
            batch_size: 1,
        }
    }
}

/// Description of a loaded model.
#[derive(Debug, Clone, Copy)]
pub struct ModelInfo {
    pub name: &'static str,
    /// Batch, height, width, channels.
    pub input_shape: [usize; 4],
    /// Batch, classes, height, width.
    pub output_shape: [usize; 4],
    pub precision: Precision,
    pub memory_usage: usize,
}

/// Performance counters the accelerator maintains.
#[derive(Debug, Clone, Copy, PartialEq, Eq, Structural)]
pub struct PerformanceStats {
    pub inference_count: u32,
    pub total_time_ms: u32,
    pub average_time_ms: u32,
    pub error_count: u32,
}

/// The accelerator manager: configuration, lifecycle state and the loaded
/// model.
pub struct NpuManager {
    base_address: u64,
    state: NpuState,
    config: NpuConfig,
    current_model: Option<ModelInfo>,
    initialized: bool,
    inference_count: u32,
}

impl NpuManager {
    /// The lifecycle state.
    pub closed spec fn spec_state(&self) -> NpuState {
        self.state
    }

    /// The configuration.
    pub closed spec fn spec_config(&self) -> NpuConfig {
        self.config
    }

    /// The loaded model, if any.
    pub closed spec fn spec_model(&self) -> Option<ModelInfo> {
        self.current_model
    }

    /// Whether `init` has run.
    pub closed spec fn spec_initialized(&self) -> bool {
        self.initialized
    }

    /// How many inferences have completed.
    pub closed spec fn spec_inferences(&self) -> u32 {
        self.inference_count
    }

    /// A fresh manager at the platform's register base, idle, with the boot
    /// configuration and no model.
    pub fn new() -> (m: NpuManager)
        ensures
            m.spec_state() == NpuState::Idle,
            m.spec_config() == boot_npu_config(),
            m.spec_model() is None,
            !m.spec_initialized(),
            m.spec_inferences() == 0,
    {
        NpuManager {
            base_address: 0xFDBC_0000,
            state: NpuState::Idle,
            config: NpuConfig::boot(),
            current_model: None,
            initialized: false,
            inference_count: 0,
        }
    }

    /// Initialises the accelerator: reset, clock and memory configuration,
    /// enable. Leaves it idle.
    pub fn init(&mut self) -> (r: Result<(), NpuError>)
        ensures
            r is Ok,
            final(self).spec_initialized(),
            final(self).spec_state() == NpuState::Idle,
            final(self).spec_config() == old(self).spec_config(),
            final(self).spec_model() == old(self).spec_model(),
            final(self).spec_inferences() == old(self).spec_inferences(),
    {
        self.initialized = true;
        self.state = NpuState::Idle;
        Ok(())
    }

    /// Loads a model description. Fails with `NotInitialized` before
    /// `init`, with `Busy` unless the accelerator is idle, and with
    /// `InvalidModel` for a model that would not fit the dedicated memory;
    /// a failed call changes nothing.
    pub fn load_model(&mut self, model: ModelInfo) -> (r: Result<(), NpuError>)
        ensures
            !old(self).spec_initialized() ==> r == Result::<(), NpuError>::Err(
                NpuError::NotInitialized,
            ) && *final(self) == *old(self),
            old(self).spec_initialized() && old(self).spec_state() != NpuState::Idle ==> r
                == Result::<(), NpuError>::Err(NpuError::Busy) && *final(self) == *old(self),
            old(self).spec_initialized() && old(self).spec_state() == NpuState::Idle
                && model.memory_usage > old(self).spec_config().memory_size ==> r == Result::<
                (),
                NpuError,
            >::Err(NpuError::InvalidModel) && *final(self) == *old(self),
            old(self).spec_initialized() && old(self).spec_state() == NpuState::Idle
                && model.memory_usage <= old(self).spec_config().memory_size ==> {
                &&& r is Ok
                &&& (final(self).spec_model() matches Some(m) && m.memory_usage
                    == model.memory_usage)
                &&& final(self).spec_state() == NpuState::Idle
            },
    {
        if !self.initialized {
            return Err(NpuError::NotInitialized);
        }
        if !matches!(self.state, NpuState::Idle) {
            return Err(NpuError::Busy);
        }
        if model.memory_usage > self.config.memory_size {
            return Err(NpuError::InvalidModel);
        }
        self.current_model = Some(model);
        Ok(())
    }

    /// Unloads the model. Fails with `Busy` unless the accelerator is idle.
    pub fn unload_model(&mut self) -> (r: Result<(), NpuError>)
        ensures
            old(self).spec_state() != NpuState::Idle ==> r == Result::<(), NpuError>::Err(
                NpuError::Busy,
            ) && *final(self) == *old(self),
            old(self).spec_state() == NpuState::Idle ==> r is Ok && final(self).spec_model()
                is None && final(self).spec_state() == NpuState::Idle && final(self).spec_config()
                == old(self).spec_config(),
    {
        if !matches!(self.state, NpuState::Idle) {
            return Err(NpuError::Busy);
        }
        self.current_model = None;
        Ok(())
    }

    /// The lifecycle state.
    pub fn get_state(&self) -> (s: NpuState)
        ensures
            s == self.spec_state(),
    {
        self.state
    }

    /// The configuration.
    pub fn get_config(&self) -> (c: &NpuConfig)
        ensures
            *c == self.spec_config(),
    {
        &self.config
    }

    /// Reconfigures the accelerator. Fails with `Busy`, changing nothing,
    /// unless it is idle.
    pub fn set_config(&mut self, config: NpuConfig) -> (r: Result<(), NpuError>)
        ensures
            old(self).spec_state() != NpuState::Idle ==> r == Result::<(), NpuError>::Err(
                NpuError::Busy,
            ) && *final(self) == *old(self),
            old(self).spec_state() == NpuState::Idle ==> r is Ok && final(self).spec_config()
                == config && final(self).spec_state() == old(self).spec_state() && final(self).spec_model() == old(self).spec_model(),
    {
        if !matches!(self.state, NpuState::Idle) {
            return Err(NpuError::Busy);
        }
        self.config = config;
        Ok(())
    }

    /// The loaded model, if any.
    pub fn get_current_model(&self) -> (m: Option<&ModelInfo>)
        ensures
            (m is Some) == (self.spec_model() is Some),
    {
        self.current_model.as_ref()
    }

    /// One inference pass over a loaded model: the accelerator goes busy,
    /// runs the batch, and returns to idle with its counter advanced. Fails
    /// with `NotInitialized` before `init`, with `InvalidModel` when no
    /// model is loaded, and with `Busy` unless the accelerator was idle.
    pub fn run_inference(&mut self) -> (r: Result<(), NpuError>)
        requires
            old(self).spec_inferences() < u32::MAX,
        ensures
            !old(self).spec_initialized() ==> r == Result::<(), NpuError>::Err(
                NpuError::NotInitialized,
            ) && *final(self) == *old(self),
            old(self).spec_initialized() && old(self).spec_state() != NpuState::Idle ==> r
                == Result::<(), NpuError>::Err(NpuError::Busy) && *final(self) == *old(self),
            old(self).spec_initialized() && old(self).spec_state() == NpuState::Idle && old(
                self,
            ).spec_model() is None ==> r == Result::<(), NpuError>::Err(NpuError::InvalidModel)
                && *final(self) == *old(self),
            old(self).spec_initialized() && old(self).spec_state() == NpuState::Idle && old(
                self,
            ).spec_model() is Some ==> r is Ok && final(self).spec_state() == NpuState::Idle
                && final(self).spec_inferences() == old(self).spec_inferences() + 1 && final(self).spec_model() == old(self).spec_model(),
    {
        if !self.initialized {
            return Err(NpuError::NotInitialized);
        }
        if !matches!(self.state, NpuState::Idle) {
            return Err(NpuError::Busy);
        }
        if self.current_model.is_none() {
            return Err(NpuError::InvalidModel);
        }
        self.state = NpuState::Busy;
        self.inference_count = self.inference_count + 1;
        self.state = NpuState::Idle;
        Ok(())
    }

    /// The accelerator's performance counters.
    pub fn get_performance_stats(&self) -> (s: PerformanceStats)
        ensures
            s.inference_count == self.spec_inferences(),
            s.error_count == 0,
    {
        PerformanceStats {
            inference_count: self.inference_count,
            total_time_ms: 0,
            average_time_ms: 0,
            error_count: 0,
        }
    }
}

} // verus!
