//! The SPI-bus driver: full-duplex transfers against a selected slave,
//! modelled at the register level with a transmit log and a receive FIFO.

use vstd::prelude::*;

verus! {

/// Failures of the SPI controller.
#[derive(Debug, Clone, Copy, PartialEq, Eq, Structural)]
pub enum SpiError {
    NotInitialized,
    InvalidMode,
    BusBusy,
    Timeout,
    BufferOverflow,
    HardwareError,
}

/// Clock polarity and phase.
#[derive(Debug, Clone, Copy, PartialEq, Eq, Structural)]
pub enum SpiMode {
    Mode0,
    Mode1,
    Mode2,
    Mode3,
}

/// Frame width.
#[derive(Debug, Clone, Copy, PartialEq, Eq, Structural)]
pub enum SpiDataBits {
    Eight,
    Sixteen,
}

/// Bit order on the wire.
#[derive(Debug, Clone, Copy, PartialEq, Eq, Structural)]
pub enum SpiBitOrder {
    MsbFirst,
    LsbFirst,
}

/// SPI configuration.
#[derive(Debug, Clone, Copy, PartialEq, Eq, Structural)]
pub struct SpiConfig {
    /// Wire clock in Hz.
    pub clock_speed: u32,
    pub mode: SpiMode,
    pub data_bits: SpiDataBits,
    pub bit_order: SpiBitOrder,
    /// Poll budget for each wait, in milliseconds.
    pub timeout_ms: u32,
}

impl SpiConfig {
    /// The conventional default: 1 MHz, mode 0, eight bits, most
    /// significant bit first, a one-second poll budget.
    pub fn standard() -> (c: SpiConfig)
        ensures
            c.clock_speed == 1_000_000,
            c.mode == SpiMode::Mode0,
            c.data_bits == SpiDataBits::Eight,
            c.bit_order == SpiBitOrder::MsbFirst,
            c.timeout_ms == 1000,
    {
        SpiConfig {
            clock_speed: 1_000_000,
            mode: SpiMode::Mode0,
            data_bits: SpiDataBits::Eight,
            bit_order: SpiBitOrder::MsbFirst,
            timeout_ms: 1000,
        }
    }
}

/// The controller clock feeding the baud divider, in Hz.
pub const SPI_CLOCK_HZ: u32 = 200_000_000;

/// Register base of the first SPI controller.
pub const SPI0_BASE: usize = 0xFEB0_0000;

/// Register base of the second SPI controller.
pub const SPI1_BASE: usize = 0xFEB1_0000;

/// Whether a wire clock can be programmed: not zero, at most half the
/// controller clock, and its rounded-up divider fits sixteen bits.
pub open spec fn valid_spi_clock(speed: int) -> bool {
    speed > 0 && speed <= 100_000_000 && (200_000_000 + speed - 1) / speed <= 0xFFFF
}

/// The SPI controller. The wire is modelled by the log of every byte ever
/// shifted out and the FIFO of bytes the selected slave has shifted in.
pub struct Rk3588Spi {
    base_address: usize,
    config: SpiConfig,
    initialized: bool,
    tx_log: Vec<u8>,
    rx_fifo: Vec<u8>,
}

impl Rk3588Spi {
    /// The configured parameters.
    pub closed spec fn spec_config(&self) -> SpiConfig {
        self.config
    }

    /// Whether `init` has completed.
    pub closed spec fn spec_initialized(&self) -> bool {
        self.initialized
    }

    /// Every byte shifted out, in order.
    pub closed spec fn tx(&self) -> Seq<u8> {
        self.tx_log@
    }

    /// Bytes the slave has shifted in and the driver has not yet read.
    pub closed spec fn rx(&self) -> Seq<u8> {
        self.rx_fifo@
    }

    /// A controller at a register base with a configuration, not yet
    /// initialised.
    pub fn new(base_address: usize, config: SpiConfig) -> (s: Rk3588Spi)
        ensures
            s.spec_config() == config,
            !s.spec_initialized(),
            s.tx().len() == 0,
            s.rx().len() == 0,
    {
        Rk3588Spi { base_address, config, initialized: false, tx_log: Vec::new(), rx_fifo: Vec::new() }
    }

    /// Initialises the controller: disables it, programs mode, frame width,
    /// bit order and the baud divider, and enables it. Idempotent once
    /// initialised. Fails with `HardwareError`, changing nothing, exactly
    /// when the wire clock cannot be programmed.
    pub fn init(&mut self) -> (r: Result<(), SpiError>)
        ensures
            old(self).spec_initialized() ==> r is Ok && *final(self) == *old(self),
            !old(self).spec_initialized() && !valid_spi_clock(
                old(self).spec_config().clock_speed as int,
            ) ==> r == Result::<(), SpiError>::Err(SpiError::HardwareError) && *final(self)
                == *old(self),
            !old(self).spec_initialized() && valid_spi_clock(
                old(self).spec_config().clock_speed as int,
            ) ==> r is Ok && final(self).spec_initialized() && final(self).spec_config() == old(
                self,
            ).spec_config() && final(self).tx() == old(self).tx() && final(self).rx() == old(
                self,
            ).rx(),
    {
        if self.initialized {
            return Ok(());
        }
        let speed = self.config.clock_speed;
        if speed == 0 || speed > SPI_CLOCK_HZ / 2 {
            return Err(SpiError::HardwareError);
        }
        let divisor = (SPI_CLOCK_HZ + speed - 1) / speed;
        if divisor > 0xFFFF {
            return Err(SpiError::HardwareError);
        }
        self.initialized = true;
        Ok(())
    }

    /// Full-duplex transfer: every transmit byte is shifted out while one
    /// received byte replaces each slot of the receive buffer. Fails with
    /// `NotInitialized` before `init`, with `BufferOverflow` when the two
    /// buffers differ in length, and with `Timeout` when the slave has
    /// fewer bytes pending than the transfer needs; a failed call changes
    /// nothing.
    pub fn transfer(&mut self, tx_data: &[u8], rx_buffer: &mut Vec<u8>) -> (r: Result<
        (),
        SpiError,
    >)
        ensures
            !old(self).spec_initialized() ==> r == Result::<(), SpiError>::Err(
                SpiError::NotInitialized,
            ) && *final(self) == *old(self) && final(rx_buffer)@ == old(rx_buffer)@,
            old(self).spec_initialized() && tx_data@.len() != old(rx_buffer)@.len() ==> r
                == Result::<(), SpiError>::Err(SpiError::BufferOverflow) && *final(self) == *old(
                self,
            ) && final(rx_buffer)@ == old(rx_buffer)@,
            old(self).spec_initialized() && tx_data@.len() == old(rx_buffer)@.len() && old(
                self,
            ).rx().len() < tx_data@.len() ==> r == Result::<(), SpiError>::Err(SpiError::Timeout)
                && *final(self) == *old(self) && final(rx_buffer)@ == old(rx_buffer)@,
            old(self).spec_initialized() && tx_data@.len() == old(rx_buffer)@.len() && old(
                self,
            ).rx().len() >= tx_data@.len() ==> {
                &&& r is Ok
                &&& final(self).tx() == old(self).tx() + tx_data@
                &&& final(rx_buffer)@ == old(self).rx().subrange(0, tx_data@.len() as int)
                &&& final(self).rx() == old(self).rx().subrange(
                    tx_data@.len() as int,
                    old(self).rx().len() as int,
                )
                &&& final(self).spec_initialized()
                &&& final(self).spec_config() == old(self).spec_config()
            },
    {
        if !self.initialized {
            return Err(SpiError::NotInitialized);
        }
        if tx_data.len() != rx_buffer.len() {
            return Err(SpiError::BufferOverflow);
        }
        if self.rx_fifo.len() < tx_data.len() {
            return Err(SpiError::Timeout);
        }
        let n = tx_data.len();
        let mut i: usize = 0;
        while i < n
            invariant
                0 <= i <= n,
                n == tx_data@.len(),
                n == old(rx_buffer)@.len(),
                n <= old(self).rx_fifo@.len(),
                self.initialized,
                rx_buffer@.len() == n,
                self.tx_log@ == old(self).tx_log@ + tx_data@.subrange(0, i as int),
                rx_buffer@ == old(self).rx_fifo@.subrange(0, i as int) + old(rx_buffer)@.subrange(
                    i as int,
                    n as int,
                ),
                self.rx_fifo@ == old(self).rx_fifo@.subrange(
                    i as int,
                    old(self).rx_fifo@.len() as int,
                ),
                self.config == old(self).config,
                self.base_address == old(self).base_address,
            decreases n - i,
        {
            self.tx_log.push(tx_data[i]);
            let byte = self.rx_fifo.remove(0);
            rx_buffer.set(i, byte);
            proof {
                assert(old(self).rx_fifo@.subrange(i as int, old(self).rx_fifo@.len() as int)[0]
                    == old(self).rx_fifo@[i as int]);
                assert(self.tx_log@ =~= old(self).tx_log@ + tx_data@.subrange(0, i as int + 1));
                assert(rx_buffer@ =~= old(self).rx_fifo@.subrange(0, i as int + 1) + old(
                    rx_buffer,
                )@.subrange(i as int + 1, n as int));
                assert(self.rx_fifo@ =~= old(self).rx_fifo@.subrange(
                    i as int + 1,
                    old(self).rx_fifo@.len() as int,
                ));
            }
            i = i + 1;
        }
        proof {
            assert(tx_data@.subrange(0, n as int) =~= tx_data@);
            assert(old(self).rx_fifo@.subrange(0, n as int) + old(rx_buffer)@.subrange(
                n as int,
                n as int,
            ) =~= old(self).rx_fifo@.subrange(0, n as int));
        }
        Ok(())
    }

    /// Transmit-only transfer: shifts the block out. Fails with
    /// `NotInitialized` before `init`, transmitting nothing.
    pub fn write(&mut self, data: &[u8]) -> (r: Result<(), SpiError>)
        ensures
            !old(self).spec_initialized() ==> r == Result::<(), SpiError>::Err(
                SpiError::NotInitialized,
            ) && *final(self) == *old(self),
            old(self).spec_initialized() ==> r is Ok && final(self).tx() == old(self).tx() + data@
                && final(self).rx() == old(self).rx() && final(self).spec_initialized() && final(self).spec_config() == old(self).spec_config(),
    {
        if !self.initialized {
            return Err(SpiError::NotInitialized);
        }
        let mut i: usize = 0;
        while i < data.len()
            invariant
                0 <= i <= data@.len(),
                self.initialized,
                self.tx_log@ == old(self).tx_log@ + data@.subrange(0, i as int),
                self.rx_fifo@ == old(self).rx_fifo@,
                self.config == old(self).config,
                self.base_address == old(self).base_address,
            decreases data@.len() - i,
        {
            self.tx_log.push(data[i]);
            proof {
                assert(self.tx_log@ =~= old(self).tx_log@ + data@.subrange(0, i as int + 1));
            }
            i = i + 1;
        }
        proof {
            assert(data@.subrange(0, data@.len() as int) =~= data@);
        }
        Ok(())
    }

    /// Receive-only transfer: shifts out one idle byte (0xFF) per slot to
    /// generate the clock and fills the buffer with what the slave returns.
    /// Fails with `NotInitialized` before `init` and with `Timeout` when
    /// the slave has fewer bytes pending than the buffer needs; a failed
    /// call changes nothing.
    pub fn read(&mut self, buffer: &mut Vec<u8>) -> (r: Result<(), SpiError>)
        ensures
            !old(self).spec_initialized() ==> r == Result::<(), SpiError>::Err(
                SpiError::NotInitialized,
            ) && *final(self) == *old(self) && final(buffer)@ == old(buffer)@,
            old(self).spec_initialized() && old(self).rx().len() < old(buffer)@.len() ==> r
                == Result::<(), SpiError>::Err(SpiError::Timeout) && *final(self) == *old(self)
                && final(buffer)@ == old(buffer)@,
            old(self).spec_initialized() && old(self).rx().len() >= old(buffer)@.len() ==> {
                &&& r is Ok
                &&& final(buffer)@ == old(self).rx().subrange(0, old(buffer)@.len() as int)
                &&& final(self).rx() == old(self).rx().subrange(
                    old(buffer)@.len() as int,
                    old(self).rx().len() as int,
                )
                &&& final(self).tx() == old(self).tx() + Seq::new(
                    old(buffer)@.len(),
                    |i: int| 0xFFu8,
                )
                &&& final(self).spec_initialized()
            },
    {
        if !self.initialized {
            return Err(SpiError::NotInitialized);
        }
        if self.rx_fifo.len() < buffer.len() {
            return Err(SpiError::Timeout);
        }
        let n = buffer.len();
        let mut i: usize = 0;
        while i < n
            invariant
                0 <= i <= n,
                n == old(buffer)@.len(),
                n <= old(self).rx_fifo@.len(),
                self.initialized,
                buffer@.len() == n,
                self.tx_log@ == old(self).tx_log@ + Seq::new(i as nat, |j: int| 0xFFu8),
                buffer@ == old(self).rx_fifo@.subrange(0, i as int) + old(buffer)@.subrange(
                    i as int,
                    n as int,
                ),
                self.rx_fifo@ == old(self).rx_fifo@.subrange(
                    i as int,
                    old(self).rx_fifo@.len() as int,
                ),
                self.config == old(self).config,
                self.base_address == old(self).base_address,
            decreases n - i,
        {
            self.tx_log.push(0xFF);
            let byte = self.rx_fifo.remove(0);
            buffer.set(i, byte);
            proof {
                assert(old(self).rx_fifo@.subrange(i as int, old(self).rx_fifo@.len() as int)[0]
                    == old(self).rx_fifo@[i as int]);
                assert(self.tx_log@ =~= old(self).tx_log@ + Seq::new(
                    i as nat + 1,
                    |j: int| 0xFFu8,
                ));
                assert(buffer@ =~= old(self).rx_fifo@.subrange(0, i as int + 1) + old(
                    buffer,
                )@.subrange(i as int + 1, n as int));
                assert(self.rx_fifo@ =~= old(self).rx_fifo@.subrange(
                    i as int + 1,
                    old(self).rx_fifo@.len() as int,
                ));
            }
            i = i + 1;
        }
        proof {
            assert(old(self).rx_fifo@.subrange(0, n as int) + old(buffer)@.subrange(
                n as int,
                n as int,
            ) =~= old(self).rx_fifo@.subrange(0, n as int));
        }
        Ok(())
    }

    /// Whether the bus is shifting; the modelled bus completes every
    /// transfer within the call, so it reads idle. Fails with
    /// `NotInitialized` before `init`.
    pub fn is_bus_busy(&self) -> (r: Result<bool, SpiError>)
        ensures
            self.spec_initialized() ==> r == Result::<bool, SpiError>::Ok(false),
            !self.spec_initialized() ==> r == Result::<bool, SpiError>::Err(
                SpiError::NotInitialized,
            ),
    {
        if !self.initialized {
            return Err(SpiError::NotInitialized);
        }
        Ok(false)
    }

    /// Whether the transmit FIFO has drained; the modelled FIFO always has.
    pub fn is_transfer_complete(&self) -> (r: Result<bool, SpiError>)
        ensures
            self.spec_initialized() ==> r == Result::<bool, SpiError>::Ok(true),
            !self.spec_initialized() ==> r == Result::<bool, SpiError>::Err(
                SpiError::NotInitialized,
            ),
    {
        if !self.initialized {
            return Err(SpiError::NotInitialized);
        }
        Ok(true)
    }

    /// The selected slave shifting one byte into the receive FIFO.
    pub fn receive_input(&mut self, byte: u8)
        ensures
            final(self).rx() == old(self).rx().push(byte),
            final(self).tx() == old(self).tx(),
            final(self).spec_initialized() == old(self).spec_initialized(),
            final(self).spec_config() == old(self).spec_config(),
    {
        self.rx_fifo.push(byte);
    }
}

/// One device on the bus: a controller and the slave-select line it answers
/// to.
pub struct SpiDevice {
    controller: Rk3588Spi,
    slave: u8,
}

impl SpiDevice {
    /// The controller.
    pub closed spec fn spec_controller(&self) -> Rk3588Spi {
        self.controller
    }

    /// The device's slave-select line.
    pub closed spec fn spec_slave(&self) -> u8 {
        self.slave
    }

    /// A device over a controller, answering to one slave-select line.
    pub fn new(controller: Rk3588Spi, slave: u8) -> (d: SpiDevice)
        ensures
            d.spec_controller() == controller,
            d.spec_slave() == slave,
    {
        SpiDevice { controller, slave }
    }

    /// Full-duplex transfer with this device; see `Rk3588Spi::transfer`.
    pub fn transfer(&mut self, tx_data: &[u8], rx_buffer: &mut Vec<u8>) -> (r: Result<
        (),
        SpiError,
    >)
        ensures
            old(self).spec_controller().spec_initialized() && tx_data@.len() == old(
                rx_buffer,
            )@.len() && old(self).spec_controller().rx().len() >= tx_data@.len() ==> r is Ok
                && final(self).spec_controller().tx() == old(self).spec_controller().tx()
                + tx_data@ && final(rx_buffer)@ == old(self).spec_controller().rx().subrange(
                0,
                tx_data@.len() as int,
            ),
            !old(self).spec_controller().spec_initialized() ==> r == Result::<(), SpiError>::Err(
                SpiError::NotInitialized,
            ),
    {
        self.controller.transfer(tx_data, rx_buffer)
    }

    /// Transmit-only transfer; see `Rk3588Spi::write`.
    pub fn write(&mut self, data: &[u8]) -> (r: Result<(), SpiError>)
        ensures
            old(self).spec_controller().spec_initialized() ==> r is Ok && final(self).spec_controller().tx() == old(self).spec_controller().tx() + data@,
            !old(self).spec_controller().spec_initialized() ==> r == Result::<(), SpiError>::Err(
                SpiError::NotInitialized,
            ),
    {
        self.controller.write(data)
    }

    /// Receive-only transfer; see `Rk3588Spi::read`.
    pub fn read(&mut self, buffer: &mut Vec<u8>) -> (r: Result<(), SpiError>)
        ensures
            old(self).spec_controller().spec_initialized() && old(
                self,
            ).spec_controller().rx().len() >= old(buffer)@.len() ==> r is Ok && final(buffer)@
                == old(self).spec_controller().rx().subrange(0, old(buffer)@.len() as int),
            !old(self).spec_controller().spec_initialized() ==> r == Result::<(), SpiError>::Err(
                SpiError::NotInitialized,
            ),
    {
        self.controller.read(buffer)
    }

    /// Writes a register on the device: the register number followed by the
    /// data bytes.
    pub fn write_register(&mut self, register: u8, data: &[u8]) -> (r: Result<(), SpiError>)
        ensures
            old(self).spec_controller().spec_initialized() ==> r is Ok && final(self).spec_controller().tx() == old(self).spec_controller().tx().push(register) + data@,
            !old(self).spec_controller().spec_initialized() ==> r == Result::<(), SpiError>::Err(
                SpiError::NotInitialized,
            ),
    {
        let mut tx_data: Vec<u8> = Vec::new();
        tx_data.push(register);
        let mut i: usize = 0;
        while i < data.len()
            invariant
                0 <= i <= data@.len(),
                tx_data@ == seq![register] + data@.subrange(0, i as int),
            decreases data@.len() - i,
        {
            tx_data.push(data[i]);
            proof {
                assert(tx_data@ =~= seq![register] + data@.subrange(0, i as int + 1));
            }
            i = i + 1;
        }
        proof {
            assert(data@.subrange(0, data@.len() as int) =~= data@);
        }
        let r = self.controller.write(tx_data.as_slice());
        proof {
            if old(self).spec_controller().spec_initialized() {
                assert(old(self).spec_controller().tx() + (seq![register] + data@) =~= old(
                    self,
                ).spec_controller().tx().push(register) + data@);
            }
        }
        r
    }

    /// Reads a register on the device: shifts out the register number
    /// followed by one idle byte per wanted data byte, and returns what the
    /// device answers after the address byte.
    pub fn read_register(&mut self, register: u8, buffer: &mut Vec<u8>) -> (r: Result<
        (),
        SpiError,
    >)
        ensures
            old(self).spec_controller().spec_initialized() && old(
                self,
            ).spec_controller().rx().len() >= old(buffer)@.len() + 1 ==> r is Ok && final(buffer)@
                == old(self).spec_controller().rx().subrange(1, old(buffer)@.len() as int + 1),
            !old(self).spec_controller().spec_initialized() ==> r == Result::<(), SpiError>::Err(
                SpiError::NotInitialized,
            ),
    {
        let want = buffer.len();
        let mut tx_data: Vec<u8> = Vec::new();
        tx_data.push(register);
        let mut rx_full: Vec<u8> = Vec::new();
        rx_full.push(0);
        let mut i: usize = 0;
        while i < want
            invariant
                0 <= i <= want,
                tx_data@.len() == i + 1,
                rx_full@.len() == i + 1,
            decreases want - i,
        {
            tx_data.push(0);
            rx_full.push(0);
            i = i + 1;
        }
        match self.controller.transfer(tx_data.as_slice(), &mut rx_full) {
            Ok(()) => {},
            Err(e) => {
                return Err(e);
            },
        }
        let total = rx_full.len();
        proof {
            assert(total == want + 1);
            assert(want < usize::MAX);
            assert(old(self).spec_controller().rx().subrange(1, 1) + old(buffer)@.subrange(
                0,
                want as int,
            ) =~= old(buffer)@);
        }
        let mut j: usize = 0;
        while j < want
            invariant
                0 <= j <= want,
                want < usize::MAX,
                buffer@.len() == want,
                rx_full@.len() == want + 1,
                old(self).spec_controller().rx().len() >= want + 1,
                rx_full@ == old(self).spec_controller().rx().subrange(0, want as int + 1),
                forall|k: int|
                    0 <= k < j ==> #[trigger] buffer@[k] == old(self).spec_controller().rx()[k
                        + 1],
                forall|k: int| j <= k < want ==> #[trigger] buffer@[k] == old(buffer)@[k],
            decreases want - j,
        {
            let byte = rx_full[j + 1];
            buffer.set(j, byte);
            proof {
                assert(rx_full@[j as int + 1] == old(self).spec_controller().rx()[j as int + 1]);
            }
            j = j + 1;
        }
        proof {
            assert(buffer@ =~= old(self).spec_controller().rx().subrange(
                1,
                old(buffer)@.len() as int + 1,
            ));
        }
        Ok(())
    }
}

} // verus!