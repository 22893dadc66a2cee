//! Accelerator enumeration: which neural-processing backends the platform
//! offers, and which of them placement prefers.

use vstd::prelude::*;

verus! {

/// The accelerator backends the platform can drive.
#[derive(Debug, Clone, Copy, PartialEq, Eq, Structural)]
pub enum NPUDevice {
    AllwinnerV851S,
    RockchipRK3588,
    GenericOpenCL,
    GenericVulkan,
}

/// Numeric precision a backend computes at.
#[derive(Debug, Clone, Copy, PartialEq, Eq, Structural)]
pub enum Precision {
    FP32,
    FP16,
    INT8,
    INT16,
    BF16,
}

/// Tensor memory layout.
#[derive(Debug, Clone, Copy, PartialEq, Eq, Structural)]
pub enum MemoryLayout {
    /// Batch, channels, height, width.
    NCHW,
    /// Batch, height, width, channels.
    NHWC,
    /// Blocked layout.
    NC4HW4,
}

/// Power mode of a backend.
#[derive(Debug, Clone, Copy, PartialEq, Eq, Structural)]
pub enum PowerMode {
    Performance,
    Balanced,
    PowerSaving,
}

/// Operations a backend can accelerate.
#[derive(Debug, Clone, Copy, PartialEq, Eq, Structural)]
pub enum OpType {
    Conv2D,
    DepthwiseConv2D,
    FullyConnected,
    Pooling,
    Activation,
    BatchNorm,
    Concat,
    Reshape,
    Softmax,
    LSTM,
    GRU,
}

/// Priority of an inference task.
#[derive(Debug, Clone, Copy, PartialEq, Eq, Structural)]
pub enum TaskPriority {
    Low,
    Normal,
    High,
    Realtime,
}

/// A handle to accelerator-owned memory.
#[derive(Debug, Clone, Copy, PartialEq, Eq, Structural)]
pub struct MemoryHandle(pub usize);

/// A handle to an inference in flight.
#[derive(Debug, Clone, Copy, PartialEq, Eq, Structural)]
pub struct InferenceHandle(pub usize);

/// The backends this platform offers, preferred ones first: the on-chip
/// accelerators of the SoC family, then the generic compute backends.
pub fn detect_available_npus() -> (devices: Vec<NPUDevice>)
    ensures
        devices@.len() == 4,
        devices@[0] == NPUDevice::RockchipRK3588,
        devices@[1] == NPUDevice::AllwinnerV851S,
        devices@[2] == NPUDevice::GenericOpenCL,
        devices@[3] == NPUDevice::GenericVulkan,
{
    let mut available: Vec<NPUDevice> = Vec::new();
    available.push(NPUDevice::RockchipRK3588);
    available.push(NPUDevice::AllwinnerV851S);
    available.push(NPUDevice::GenericOpenCL);
    available.push(NPUDevice::GenericVulkan);
    available
}

/// The preferred backend: the first available one in performance order. On
/// this platform the on-chip accelerator always reports present, so this is
/// never empty-handed.
pub fn get_recommended_npu() -> (r: Option<NPUDevice>)
    ensures
        r == Some(NPUDevice::RockchipRK3588),
{
    let available = detect_available_npus();
    let mut i: usize = 0;
    while i < available.len()
        invariant
            i == 0,
            available@.len() == 4,
            available@[0] == NPUDevice::RockchipRK3588,
        decreases available@.len() - i,
    {
        if matches!(available[i], NPUDevice::RockchipRK3588) {
            return Some(NPUDevice::RockchipRK3588);
        }
        i = i + 1;
    }
    None
}

} // verus!
