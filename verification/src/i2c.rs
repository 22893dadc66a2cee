//! The I2C-bus driver: addressed writes and reads with seven- or ten-bit
//! addressing, modelled at the register level with a transaction log and a
//! receive FIFO.

use vstd::prelude::*;

verus! {

/// Failures of the I2C controller.
#[derive(Debug, Clone, Copy, PartialEq, Eq, Structural)]
pub enum I2cError {
    NotInitialized,
    InvalidAddress,
    BusBusy,
    ArbitrationLost,
    NackReceived,
    Timeout,
    BufferOverflow,
    HardwareError,
}

/// Addressing width on the bus.
#[derive(Debug, Clone, Copy, PartialEq, Eq, Structural)]
pub enum AddressingMode {
    SevenBit,
    TenBit,
}

/// Direction of one transaction.
#[derive(Debug, Clone, Copy, PartialEq, Eq, Structural)]
pub enum I2cDirection {
    Write,
    Read,
}

/// I2C configuration.
#[derive(Debug, Clone, Copy, PartialEq, Eq, Structural)]
pub struct I2cConfig {
    /// Bus clock in Hz.
    pub clock_speed: u32,
    pub addressing_mode: AddressingMode,
    /// Poll budget for each wait, in milliseconds.
    pub timeout_ms: u32,
}

impl I2cConfig {
    /// The conventional default: 100 kHz standard mode, seven-bit
    /// addressing, a one-second poll budget.
    pub fn standard() -> (c: I2cConfig)
        ensures
            c.clock_speed == 100_000,
            c.addressing_mode == AddressingMode::SevenBit,
            c.timeout_ms == 1000,
    {
        I2cConfig { clock_speed: 100_000, addressing_mode: AddressingMode::SevenBit, timeout_ms: 1000 }
    }
}

/// Register base of the first I2C controller.
pub const I2C0_BASE: usize = 0xFDD8_0000;

/// Register base of the second I2C controller.
pub const I2C1_BASE: usize = 0xFE5A_0000;

/// Whether an address is expressible in the configured addressing width.
pub open spec fn valid_address(mode: AddressingMode, address: u16) -> bool {
    match mode {
        AddressingMode::SevenBit => address <= 0x7F,
        AddressingMode::TenBit => address <= 0x3FF,
    }
}

/// Whether a bus clock can be programmed: standard and fast modes only,
/// nothing above 400 kHz and nothing at zero.
pub open spec fn valid_i2c_clock(speed: int) -> bool {
    0 < speed <= 400_000
}

/// One write transaction on the bus: the addressed target and the bytes.
#[derive(Debug, Clone)]
pub struct I2cWrite {
    pub address: u16,
    pub data: Vec<u8>,
}

/// The I2C controller. The bus is modelled by the log of every write
/// transaction issued and the FIFO of bytes addressed targets answer reads
/// from.
pub struct Rk3588I2c {
    base_address: usize,
    config: I2cConfig,
    initialized: bool,
    write_log: Vec<I2cWrite>,
    rx_fifo: Vec<u8>,
}

impl Rk3588I2c {
    /// The configured parameters.
    pub closed spec fn spec_config(&self) -> I2cConfig {
        self.config
    }

    /// Whether `init` has completed.
    pub closed spec fn spec_initialized(&self) -> bool {
        self.initialized
    }

    /// Every write transaction issued, in order.
    pub closed spec fn writes(&self) -> Seq<I2cWrite> {
        self.write_log@
    }

    /// Bytes pending for reads, in arrival order.
    pub closed spec fn rx(&self) -> Seq<u8> {
        self.rx_fifo@
    }

    /// A controller at a register base with a configuration, not yet
    /// initialised.
    pub fn new(base_address: usize, config: I2cConfig) -> (c: Rk3588I2c)
        ensures
            c.spec_config() == config,
            !c.spec_initialized(),
            c.writes().len() == 0,
            c.rx().len() == 0,
    {
        Rk3588I2c {
            base_address,
            config,
            initialized: false,
            write_log: Vec::new(),
            rx_fifo: Vec::new(),
        }
    }

    /// Initialises the controller: disables it, programs the clock counts,
    /// the FIFO thresholds and the data hold time, and enables it.
    /// Idempotent once initialised. Fails with `HardwareError`, changing
    /// nothing, exactly when the bus clock cannot be programmed.
    pub fn init(&mut self) -> (r: Result<(), I2cError>)
        ensures
            old(self).spec_initialized() ==> r is Ok && *final(self) == *old(self),
            !old(self).spec_initialized() && !valid_i2c_clock(
                old(self).spec_config().clock_speed as int,
            ) ==> r == Result::<(), I2cError>::Err(I2cError::HardwareError) && *final(self)
                == *old(self),
            !old(self).spec_initialized() && valid_i2c_clock(
                old(self).spec_config().clock_speed as int,
            ) ==> r is Ok && final(self).spec_initialized() && final(self).spec_config() == old(
                self,
            ).spec_config() && final(self).writes() == old(self).writes() && final(self).rx()
                == old(self).rx(),
    {
        if self.initialized {
            return Ok(());
        }
        let speed = self.config.clock_speed;
        if speed == 0 || speed > 400_000 {
            return Err(I2cError::HardwareError);
        }
        self.initialized = true;
        Ok(())
    }

    /// Writes a block to the target at `address`: one transaction carrying
    /// every byte, in order. Fails with `NotInitialized` before `init` and
    /// with `InvalidAddress` for an address beyond the configured width; a
    /// failed call changes nothing.
    pub fn write(&mut self, address: u16, data: &[u8]) -> (r: Result<(), I2cError>)
        ensures
            !old(self).spec_initialized() ==> r == Result::<(), I2cError>::Err(
                I2cError::NotInitialized,
            ) && *final(self) == *old(self),
            old(self).spec_initialized() && !valid_address(
                old(self).spec_config().addressing_mode,
                address,
            ) ==> r == Result::<(), I2cError>::Err(I2cError::InvalidAddress) && *final(self)
                == *old(self),
            old(self).spec_initialized() && valid_address(
                old(self).spec_config().addressing_mode,
                address,
            ) ==> {
                &&& r is Ok
                &&& final(self).writes().len() == old(self).writes().len() + 1
                &&& final(self).writes().last().address == address
                &&& final(self).writes().last().data@ == data@
                &&& final(self).writes().subrange(0, old(self).writes().len() as int) == old(
                    self,
                ).writes()
                &&& final(self).rx() == old(self).rx()
                &&& final(self).spec_initialized()
                &&& final(self).spec_config() == old(self).spec_config()
            },
    {
        if !self.initialized {
            return Err(I2cError::NotInitialized);
        }
        if !self.validate_address(address) {
            return Err(I2cError::InvalidAddress);
        }
        let mut copied: Vec<u8> = Vec::new();
        let mut i: usize = 0;
        while i < data.len()
            invariant
                0 <= i <= data@.len(),
                copied@ == data@.subrange(0, i as int),
            decreases data@.len() - i,
        {
            copied.push(data[i]);
            proof {
                assert(copied@ =~= data@.subrange(0, i as int + 1));
            }
            i = i + 1;
        }
        proof {
            assert(copied@ =~= data@);
        }
        self.write_log.push(I2cWrite { address, data: copied });
        proof {
            assert(self.write_log@.subrange(0, old(self).write_log@.len() as int) =~= old(
                self,
            ).write_log@);
        }
        Ok(())
    }

    /// Reads a block from the target at `address`: the oldest pending bytes
    /// fill the buffer. Fails with `NotInitialized` before `init`, with
    /// `InvalidAddress` for an address beyond the configured width, and
    /// with `Timeout` when fewer bytes are pending than the buffer needs; a
    /// failed call changes nothing.
    pub fn read(&mut self, address: u16, buffer: &mut Vec<u8>) -> (r: Result<(), I2cError>)
        ensures
            !old(self).spec_initialized() ==> r == Result::<(), I2cError>::Err(
                I2cError::NotInitialized,
            ) && *final(self) == *old(self) && final(buffer)@ == old(buffer)@,
            old(self).spec_initialized() && !valid_address(
                old(self).spec_config().addressing_mode,
                address,
            ) ==> r == Result::<(), I2cError>::Err(I2cError::InvalidAddress) && *final(self)
                == *old(self) && final(buffer)@ == old(buffer)@,
            old(self).spec_initialized() && valid_address(
                old(self).spec_config().addressing_mode,
                address,
            ) && old(self).rx().len() < old(buffer)@.len() ==> r == Result::<(), I2cError>::Err(
                I2cError::Timeout,
            ) && *final(self) == *old(self) && final(buffer)@ == old(buffer)@,
            old(self).spec_initialized() && valid_address(
                old(self).spec_config().addressing_mode,
                address,
            ) && old(self).rx().len() >= old(buffer)@.len() ==> {
                &&& r is Ok
                &&& final(buffer)@ == old(self).rx().subrange(0, old(buffer)@.len() as int)
                &&& final(self).rx() == old(self).rx().subrange(
                    old(buffer)@.len() as int,
                    old(self).rx().len() as int,
                )
                &&& final(self).writes() == old(self).writes()
                &&& final(self).spec_initialized()
                &&& final(self).spec_config() == old(self).spec_config()
            },
    {
        if !self.initialized {
            return Err(I2cError::NotInitialized);
        }
        if !self.validate_address(address) {
            return Err(I2cError::InvalidAddress);
        }
        if self.rx_fifo.len() < buffer.len() {
            return Err(I2cError::Timeout);
        }
        let n = buffer.len();
        let mut i: usize = 0;
        while i < n
            invariant
                0 <= i <= n,
                n == old(buffer)@.len(),
                n <= old(self).rx_fifo@.len(),
                self.initialized,
                buffer@.len() == n,
                forall|k: int| 0 <= k < i ==> #[trigger] buffer@[k] == old(self).rx_fifo@[k],
                forall|k: int| i <= k < n ==> #[trigger] buffer@[k] == old(buffer)@[k],
                self.rx_fifo@ == old(self).rx_fifo@.subrange(
                    i as int,
                    old(self).rx_fifo@.len() as int,
                ),
                self.write_log@ == old(self).write_log@,
                self.config == old(self).config,
                self.base_address == old(self).base_address,
            decreases n - i,
        {
            let byte = self.rx_fifo.remove(0);
            proof {
                assert(old(self).rx_fifo@.subrange(i as int, old(self).rx_fifo@.len() as int)[0]
                    == old(self).rx_fifo@[i as int]);
            }
            buffer.set(i, byte);
            proof {
                assert(self.rx_fifo@ =~= old(self).rx_fifo@.subrange(
                    i as int + 1,
                    old(self).rx_fifo@.len() as int,
                ));
            }
            i = i + 1;
        }
        proof {
            assert(buffer@ =~= old(self).rx_fifo@.subrange(0, n as int));
        }
        Ok(())
    }

    /// A write followed, without releasing the bus, by a read from the same
    /// target: the combined transaction peripherals use for register access.
    /// The failure cases are those of `write` and then `read`.
    pub fn write_then_read(&mut self, address: u16, write_data: &[u8], read_buffer: &mut Vec<u8>)
        -> (r: Result<(), I2cError>)
        ensures
            !old(self).spec_initialized() ==> r == Result::<(), I2cError>::Err(
                I2cError::NotInitialized,
            ) && *final(self) == *old(self) && final(read_buffer)@ == old(read_buffer)@,
            old(self).spec_initialized() && !valid_address(
                old(self).spec_config().addressing_mode,
                address,
            ) ==> r == Result::<(), I2cError>::Err(I2cError::InvalidAddress) && *final(self)
                == *old(self) && final(read_buffer)@ == old(read_buffer)@,
            old(self).spec_initialized() && valid_address(
                old(self).spec_config().addressing_mode,
                address,
            ) && old(self).rx().len() >= old(read_buffer)@.len() ==> {
                &&& r is Ok
                &&& final(self).writes().len() == old(self).writes().len() + 1
                &&& final(self).writes().last().address == address
                &&& final(self).writes().last().data@ == write_data@
                &&& final(read_buffer)@ == old(self).rx().subrange(
                    0,
                    old(read_buffer)@.len() as int,
                )
            },
    {
        match self.write(address, write_data) {
            Ok(()) => {},
            Err(e) => {
                return Err(e);
            },
        }
        let r = self.read(address, read_buffer);
        match r {
            Ok(()) => Ok(()),
            Err(e) => Err(e),
        }
    }

    /// Whether the bus is in a transaction; the modelled bus completes every
    /// transaction within the call, so it reads idle. Fails with
    /// `NotInitialized` before `init`.
    pub fn is_bus_busy(&self) -> (r: Result<bool, I2cError>)
        ensures
            self.spec_initialized() ==> r == Result::<bool, I2cError>::Ok(false),
            !self.spec_initialized() ==> r == Result::<bool, I2cError>::Err(
                I2cError::NotInitialized,
            ),
    {
        if !self.initialized {
            return Err(I2cError::NotInitialized);
        }
        Ok(false)
    }

    /// Whether the transmit FIFO has drained; the modelled FIFO always has.
    pub fn is_transfer_complete(&self) -> (r: Result<bool, I2cError>)
        ensures
            self.spec_initialized() ==> r == Result::<bool, I2cError>::Ok(true),
            !self.spec_initialized() ==> r == Result::<bool, I2cError>::Err(
                I2cError::NotInitialized,
            ),
    {
        if !self.initialized {
            return Err(I2cError::NotInitialized);
        }
        Ok(true)
    }

    /// Whether an address fits the configured addressing width.
    fn validate_address(&self, address: u16) -> (r: bool)
        ensures
            r == valid_address(self.spec_config().addressing_mode, address),
    {
        match self.config.addressing_mode {
            AddressingMode::SevenBit => address <= 0x7F,
            AddressingMode::TenBit => address <= 0x3FF,
        }
    }

    /// An addressed target answering with one byte: it joins the receive
    /// FIFO.
    pub fn receive_input(&mut self, byte: u8)
        ensures
            final(self).rx() == old(self).rx().push(byte),
            final(self).writes() == old(self).writes(),
            final(self).spec_initialized() == old(self).spec_initialized(),
            final(self).spec_config() == old(self).spec_config(),
    {
        self.rx_fifo.push(byte);
    }
}

/// One device on the bus: a controller and the address it answers to.
pub struct I2cDevice {
    controller: Rk3588I2c,
    address: u16,
}

impl I2cDevice {
    /// The controller.
    pub closed spec fn spec_controller(&self) -> Rk3588I2c {
        self.controller
    }

    /// The device's bus address.
    pub closed spec fn spec_address(&self) -> u16 {
        self.address
    }

    /// A device over a controller, answering to one bus address.
    pub fn new(controller: Rk3588I2c, address: u16) -> (d: I2cDevice)
        ensures
            d.spec_controller() == controller,
            d.spec_address() == address,
    {
        I2cDevice { controller, address }
    }

    /// Writes a block to this device; see `Rk3588I2c::write`.
    pub fn write(&mut self, data: &[u8]) -> (r: Result<(), I2cError>)
        ensures
            old(self).spec_controller().spec_initialized() && valid_address(
                old(self).spec_controller().spec_config().addressing_mode,
                old(self).spec_address(),
            ) ==> {
                &&& r is Ok
                &&& final(self).spec_controller().writes().len() == old(
                    self,
                ).spec_controller().writes().len() + 1
                &&& final(self).spec_controller().writes().last().address == old(
                    self,
                ).spec_address()
                &&& final(self).spec_controller().writes().last().data@ == data@
            },
            final(self).spec_address() == old(self).spec_address(),
    {
        self.controller.write(self.address, data)
    }

    /// Reads a block from this device; see `Rk3588I2c::read`.
    pub fn read(&mut self, buffer: &mut Vec<u8>) -> (r: Result<(), I2cError>)
        ensures
            old(self).spec_controller().spec_initialized() && valid_address(
                old(self).spec_controller().spec_config().addressing_mode,
                old(self).spec_address(),
            ) && old(self).spec_controller().rx().len() >= old(buffer)@.len() ==> r is Ok && final(buffer)@ == old(self).spec_controller().rx().subrange(0, old(buffer)@.len() as int),
            final(self).spec_address() == old(self).spec_address(),
    {
        self.controller.read(self.address, buffer)
    }

    /// A write followed by a read on this device; see
    /// `Rk3588I2c::write_then_read`.
    pub fn write_then_read(&mut self, write_data: &[u8], read_buffer: &mut Vec<u8>) -> (r: Result<
        (),
        I2cError,
    >)
        ensures
            old(self).spec_controller().spec_initialized() && valid_address(
                old(self).spec_controller().spec_config().addressing_mode,
                old(self).spec_address(),
            ) && old(self).spec_controller().rx().len() >= old(read_buffer)@.len() ==> {
                &&& r is Ok
                &&& final(self).spec_controller().writes().last().data@ == write_data@
                &&& final(read_buffer)@ == old(self).spec_controller().rx().subrange(
                    0,
                    old(read_buffer)@.len() as int,
                )
            },
            final(self).spec_address() == old(self).spec_address(),
    {
        self.controller.write_then_read(self.address, write_data, read_buffer)
    }

    /// Reads a device register: writes the register number, then reads the
    /// answer into the buffer.
    pub fn read_register(&mut self, register: u8, buffer: &mut Vec<u8>) -> (r: Result<
        (),
        I2cError,
    >)
        ensures
            old(self).spec_controller().spec_initialized() && valid_address(
                old(self).spec_controller().spec_config().addressing_mode,
                old(self).spec_address(),
            ) && old(self).spec_controller().rx().len() >= old(buffer)@.len() ==> {
                &&& r is Ok
                &&& final(self).spec_controller().writes().last().data@ == seq![register]
                &&& final(buffer)@ == old(self).spec_controller().rx().subrange(
                    0,
                    old(buffer)@.len() as int,
                )
            },
            final(self).spec_address() == old(self).spec_address(),
    {
        let write_data: [u8; 1] = [register];
        let r = self.write_then_read(write_data.as_slice(), buffer);
        proof {
            assert(write_data@ =~= seq![register]);
        }
        r
    }

    /// Writes a device register: the register number followed by the data
    /// bytes, in one transaction.
    pub fn write_register(&mut self, register: u8, data: &[u8]) -> (r: Result<(), I2cError>)
        ensures
            old(self).spec_controller().spec_initialized() && valid_address(
                old(self).spec_controller().spec_config().addressing_mode,
                old(self).spec_address(),
            ) ==> {
                &&& r is Ok
                &&& final(self).spec_controller().writes().last().data@ == seq![register] + data@
                &&& final(self).spec_controller().writes().last().address == old(
                    self,
                ).spec_address()
            },
            final(self).spec_address() == old(self).spec_address(),
    {
        let mut write_data: Vec<u8> = Vec::new();
        write_data.push(register);
        let mut i: usize = 0;
        while i < data.len()
            invariant
                0 <= i <= data@.len(),
                write_data@ == seq![register] + data@.subrange(0, i as int),
            decreases data@.len() - i,
        {
            write_data.push(data[i]);
            proof {
                assert(write_data@ =~= seq![register] + data@.subrange(0, i as int + 1));
            }
            i = i + 1;
        }
        proof {
            assert(seq![register] + data@.subrange(0, data@.len() as int) =~= seq![register]
                + data@);
        }
        self.controller.write(self.address, write_data.as_slice())
    }
}

} // verus!
