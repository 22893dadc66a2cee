//! The shared error types that the subsystems and the peripheral drivers
//! report across module boundaries.

use vstd::prelude::*;

verus! {

/// System-level failures.
#[derive(Debug, Clone, Copy, PartialEq, Eq, Structural)]
pub enum SystemError {
    ResourceNotFound,
    MemoryAllocationFailed,
    PermissionDenied,
    Timeout,
    InvalidParameter,
    HardwareNotSupported,
    SystemBusy,
    NotImplemented,
    Unknown,
}

/// Failures of the peripheral drivers.
#[derive(Debug, Clone, Copy, PartialEq, Eq, Structural)]
pub enum DriverError {
    DeviceNotFound,
    CommunicationError,
    Timeout,
    InvalidParameter,
    NotSupported,
    DeviceBusy,
    InitializationFailed,
    DataFormatError,
    IoError,
    ConfigurationError,
}

/// Failures of the inference subsystem.
#[derive(Debug, Clone, Copy, PartialEq, Eq, Structural)]
pub enum AIError {
    ModelNotFound,
    ModelLoadError,
    InferenceError,
    HardwareNotSupported,
    MemoryAllocationError,
    InvalidInput,
    ModelFormatError,
    NpuInitializationFailed,
    QuantizationError,
    PostProcessingError,
}

impl SystemError {
    /// A short description of the failure.
    pub fn message(&self) -> (m: &'static str) {
        match *self {
            SystemError::ResourceNotFound => "resource not found",
            SystemError::MemoryAllocationFailed => "memory allocation failed",
            SystemError::PermissionDenied => "permission denied",
            SystemError::Timeout => "operation timed out",
            SystemError::InvalidParameter => "invalid parameter",
            SystemError::HardwareNotSupported => "hardware not supported",
            SystemError::SystemBusy => "system busy",
            SystemError::NotImplemented => "not implemented",
            SystemError::Unknown => "unknown error",
        }
    }
}

impl DriverError {
    /// A short description of the failure.
    pub fn message(&self) -> (m: &'static str) {
        match *self {
            DriverError::DeviceNotFound => "device not found",
            DriverError::CommunicationError => "communication error",
            DriverError::Timeout => "operation timed out",
            DriverError::InvalidParameter => "invalid parameter",
            DriverError::NotSupported => "operation not supported",
            DriverError::DeviceBusy => "device busy",
            DriverError::InitializationFailed => "initialisation failed",
            DriverError::DataFormatError => "data format error",
            DriverError::IoError => "input or output error",
            DriverError::ConfigurationError => "configuration error",
        }
    }
}

impl AIError {
    /// A short description of the failure.
    pub fn message(&self) -> (m: &'static str) {
        match *self {
            AIError::ModelNotFound => "model not found",
            AIError::ModelLoadError => "model failed to load",
            AIError::InferenceError => "inference failed",
            AIError::HardwareNotSupported => "hardware not supported",
            AIError::MemoryAllocationError => "memory allocation failed",
            AIError::InvalidInput => "invalid input",
            AIError::ModelFormatError => "model format error",
            AIError::NpuInitializationFailed => "accelerator initialisation failed",
            AIError::QuantizationError => "quantisation error",
            AIError::PostProcessingError => "post-processing error",
        }
    }
}

} // verus!
