//! Resource-management core of a bare-metal kernel for a heterogeneous
//! eight-core SoC: CPU core lifecycle and heterogeneous task scheduling,
//! a four-level virtual-memory page-table manager, a generic interrupt
//! controller manager, and a strategy-driven dynamic memory allocator,
//! together with the register-level models of the platform's peripherals.

pub mod common;
pub mod cpu;
pub mod cpu_rk3588;
pub mod dma;
pub mod dynamic_memory;
pub mod error;
pub mod errors;
pub mod gic;
pub mod gpio;
pub mod heap;
pub mod i2c;
pub mod kernel;
pub mod memory;
pub mod mipi_csi;
pub mod mmu;
pub mod npu;
pub mod npu_detect;
pub mod performance;
pub mod rk3588_drivers;
pub mod scheduler;
pub mod soc;
pub mod spi;
pub mod uart;
pub mod usb;
pub mod utils;
