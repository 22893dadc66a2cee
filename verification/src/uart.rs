//! The serial-port driver: configuration, the transmit path and the
//! receive FIFO, modelled at the register level.

use vstd::prelude::*;

verus! {

/// Failures of the serial port.
#[derive(Debug, Clone, Copy, PartialEq, Eq, Structural)]
pub enum UartError {
    NotInitialized,
    AlreadyInitialized,
    InvalidBaudRate,
    BufferOverflow,
    Timeout,
    HardwareError,
}

/// Word length of one frame.
#[derive(Debug, Clone, Copy, PartialEq, Eq, Structural)]
pub enum DataBits {
    Five,
    Six,
    Seven,
    Eight,
}

/// Stop bits of one frame.
#[derive(Debug, Clone, Copy, PartialEq, Eq, Structural)]
pub enum StopBits {
    One,
    Two,
}

/// Parity of one frame.
#[derive(Debug, Clone, Copy, PartialEq, Eq, Structural)]
pub enum Parity {
    Disabled,
    Even,
    Odd,
}

/// Flow control on the line.
#[derive(Debug, Clone, Copy, PartialEq, Eq, Structural)]
pub enum FlowControl {
    Disabled,
    Hardware,
    Software,
}

/// Serial-port configuration.
#[derive(Debug, Clone, Copy, PartialEq, Eq, Structural)]
pub struct UartConfig {
    pub baud_rate: u32,
    pub data_bits: DataBits,
    pub stop_bits: StopBits,
    pub parity: Parity,
    pub flow_control: FlowControl,
}

impl UartConfig {
    /// The conventional console configuration: 115200 baud, eight data
    /// bits, one stop bit, no parity, no flow control.
    pub fn console() -> (c: UartConfig)
        ensures
            c.baud_rate == 115200,
            c.data_bits == DataBits::Eight,
            c.stop_bits == StopBits::One,
            c.parity == Parity::Disabled,
            c.flow_control == FlowControl::Disabled,
    {
        UartConfig {
            baud_rate: 115200,
            data_bits: DataBits::Eight,
            stop_bits: StopBits::One,
            parity: Parity::Disabled,
            flow_control: FlowControl::Disabled,
        }
    }
}

/// The controller clock feeding the baud divider, in Hz.
pub const UART_CLOCK_HZ: u32 = 24_000_000;

/// Register base of the first serial port.
pub const UART0_BASE: usize = 0xFEB5_0000;

/// Register base of the second serial port.
pub const UART1_BASE: usize = 0xFEB6_0000;

/// Register base of the debug serial port.
pub const UART2_BASE: usize = 0xFEB7_0000;

/// The rounded baud divider the controller programs for a baud rate.
pub open spec fn baud_divisor(baud_rate: int) -> int {
    (24_000_000 + baud_rate / 2) / baud_rate
}

/// Whether a baud rate can be programmed: its rounded divider fits the
/// sixteen-bit divider registers and is not zero.
pub open spec fn valid_baud(baud_rate: int) -> bool {
    baud_rate > 0 && 1 <= baud_divisor(baud_rate) <= 0xFFFF
}

/// The serial-port driver. The wire is modelled by two sequences: every
/// byte ever pushed into the transmit register, and the bytes the far end
/// has shifted into the receive FIFO and the driver has not yet read.
pub struct Rk3588Uart {
    base_address: usize,
    config: UartConfig,
    initialized: bool,
    tx_log: Vec<u8>,
    rx_fifo: Vec<u8>,
}

impl Rk3588Uart {
    /// The configured parameters.
    pub closed spec fn spec_config(&self) -> UartConfig {
        self.config
    }

    /// Whether `init` has completed.
    pub closed spec fn spec_initialized(&self) -> bool {
        self.initialized
    }

    /// Every byte written to the transmit register, in order.
    pub closed spec fn tx(&self) -> Seq<u8> {
        self.tx_log@
    }

    /// Bytes received from the wire and not yet read.
    pub closed spec fn rx(&self) -> Seq<u8> {
        self.rx_fifo@
    }

    /// A port at a register base with a configuration, not yet initialised.
    pub fn new(base_address: usize, config: UartConfig) -> (u: Rk3588Uart)
        ensures
            u.spec_config() == config,
            !u.spec_initialized(),
            u.tx().len() == 0,
            u.rx().len() == 0,
    {
        Rk3588Uart { base_address, config, initialized: false, tx_log: Vec::new(), rx_fifo: Vec::new() }
    }

    /// Initialises the port: disables it, programs the baud divider, the
    /// frame format and the FIFO, and enables it. Fails with
    /// `AlreadyInitialized` on a second call and with `InvalidBaudRate`
    /// when the divider does not fit; a failed call changes nothing.
    pub fn init(&mut self) -> (r: Result<(), UartError>)
        ensures
            old(self).spec_initialized() ==> r == Result::<(), UartError>::Err(
                UartError::AlreadyInitialized,
            ) && *final(self) == *old(self),
            !old(self).spec_initialized() && !valid_baud(old(self).spec_config().baud_rate as int)
                ==> r == Result::<(), UartError>::Err(UartError::InvalidBaudRate) && *final(self)
                == *old(self),
            !old(self).spec_initialized() && valid_baud(old(self).spec_config().baud_rate as int)
                ==> r is Ok && final(self).spec_initialized() && final(self).spec_config() == old(
                self,
            ).spec_config() && final(self).tx() == old(self).tx() && final(self).rx() == old(
                self,
            ).rx(),
    {
        if self.initialized {
            return Err(UartError::AlreadyInitialized);
        }
        let baud = self.config.baud_rate;
        if baud == 0 {
            return Err(UartError::InvalidBaudRate);
        }
        let divisor = (UART_CLOCK_HZ + baud / 2) / baud;
        if divisor == 0 || divisor > 0xFFFF {
            return Err(UartError::InvalidBaudRate);
        }
        self.initialized = true;
        Ok(())
    }

    /// Transmits one byte: it enters the transmit FIFO once the poll finds
    /// room (the modelled FIFO always drains). Fails with `NotInitialized`
    /// before `init`.
    pub fn send_byte(&mut self, byte: u8) -> (r: Result<(), UartError>)
        ensures
            !old(self).spec_initialized() ==> r == Result::<(), UartError>::Err(
                UartError::NotInitialized,
            ) && *final(self) == *old(self),
            old(self).spec_initialized() ==> r is Ok && final(self).tx() == old(self).tx().push(
                byte,
            ) && final(self).rx() == old(self).rx() && final(self).spec_initialized() && final(self).spec_config() == old(self).spec_config(),
    {
        if !self.initialized {
            return Err(UartError::NotInitialized);
        }
        self.tx_log.push(byte);
        Ok(())
    }

    /// Transmits a block, byte by byte, in order. Fails with
    /// `NotInitialized` before `init`, transmitting nothing.
    pub fn send_bytes(&mut self, data: &[u8]) -> (r: Result<(), UartError>)
        ensures
            !old(self).spec_initialized() ==> r == Result::<(), UartError>::Err(
                UartError::NotInitialized,
            ) && *final(self) == *old(self),
            old(self).spec_initialized() ==> r is Ok && final(self).tx() == old(self).tx()
                + data@ && final(self).rx() == old(self).rx() && final(self).spec_initialized()
                && final(self).spec_config() == old(self).spec_config(),
    {
        if !self.initialized {
            return Err(UartError::NotInitialized);
        }
        let mut i: usize = 0;
        while i < data.len()
            invariant
                0 <= i <= data@.len(),
                self.initialized,
                self.tx_log@ == old(self).tx_log@ + data@.subrange(0, i as int),
                self.rx_fifo@ == old(self).rx_fifo@,
                self.config == old(self).config,
                self.base_address == old(self).base_address,
            decreases data@.len() - i,
        {
            self.tx_log.push(data[i]);
            proof {
                assert(old(self).tx_log@ + data@.subrange(0, i as int + 1) =~= (old(
                    self,
                ).tx_log@ + data@.subrange(0, i as int)).push(data@[i as int]));
            }
            i = i + 1;
        }
        proof {
            assert(data@.subrange(0, data@.len() as int) =~= data@);
        }
        Ok(())
    }

    /// Receives one byte: the oldest byte of the receive FIFO. Fails with
    /// `NotInitialized` before `init` and with `Timeout` when the poll
    /// budget expires with the FIFO still empty.
    pub fn receive_byte(&mut self) -> (r: Result<u8, UartError>)
        ensures
            !old(self).spec_initialized() ==> r == Result::<u8, UartError>::Err(
                UartError::NotInitialized,
            ) && *final(self) == *old(self),
            old(self).spec_initialized() && old(self).rx().len() == 0 ==> r == Result::<
                u8,
                UartError,
            >::Err(UartError::Timeout) && *final(self) == *old(self),
            old(self).spec_initialized() && old(self).rx().len() > 0 ==> r == Result::<
                u8,
                UartError,
            >::Ok(old(self).rx()[0]) && final(self).rx() == old(self).rx().subrange(
                1,
                old(self).rx().len() as int,
            ) && final(self).tx() == old(self).tx() && final(self).spec_initialized() && final(self).spec_config() == old(self).spec_config(),
    {
        if !self.initialized {
            return Err(UartError::NotInitialized);
        }
        if self.rx_fifo.len() == 0 {
            return Err(UartError::Timeout);
        }
        let byte = self.rx_fifo.remove(0);
        Ok(byte)
    }

    /// Receives into a buffer until it is full or the FIFO runs dry,
    /// returning how many bytes arrived: the whole buffer when enough were
    /// pending, otherwise every pending byte, and a `Timeout` only when
    /// nothing at all was pending for a non-empty buffer.
    pub fn receive_bytes(&mut self, buffer: &mut Vec<u8>) -> (r: Result<usize, UartError>)
        ensures
            !old(self).spec_initialized() ==> r == Result::<usize, UartError>::Err(
                UartError::NotInitialized,
            ) && *final(self) == *old(self) && final(buffer)@ == old(buffer)@,
            old(self).spec_initialized() && old(buffer)@.len() > 0 && old(self).rx().len() == 0
                ==> r == Result::<usize, UartError>::Err(UartError::Timeout) && *final(self)
                == *old(self) && final(buffer)@ == old(buffer)@,
            old(self).spec_initialized() && (old(buffer)@.len() == 0 || old(self).rx().len() > 0)
                ==> {
                &&& ({
                    let n = if old(buffer)@.len() <= old(self).rx().len() {
                        old(buffer)@.len() as int
                    } else {
                        old(self).rx().len() as int
                    };
                    r == Result::<usize, UartError>::Ok(n as usize) && final(buffer)@
                        == old(self).rx().subrange(0, n) + old(buffer)@.subrange(
                        n,
                        old(buffer)@.len() as int,
                    ) && final(self).rx() == old(self).rx().subrange(
                        n,
                        old(self).rx().len() as int,
                    )
                })
                &&& final(self).tx() == old(self).tx()
                &&& final(self).spec_initialized()
            },
    {
        if !self.initialized {
            return Err(UartError::NotInitialized);
        }
        if buffer.len() > 0 && self.rx_fifo.len() == 0 {
            return Err(UartError::Timeout);
        }
        let want = buffer.len();
        let have = self.rx_fifo.len();
        let n = if want <= have {
            want
        } else {
            have
        };
        let mut i: usize = 0;
        while i < n
            invariant
                0 <= i <= n,
                n <= old(buffer)@.len(),
                n <= old(self).rx_fifo@.len(),
                self.initialized,
                buffer@.len() == old(buffer)@.len(),
                buffer@ == old(self).rx_fifo@.subrange(0, i as int) + old(buffer)@.subrange(
                    i as int,
                    old(buffer)@.len() as int,
                ),
                self.rx_fifo@ == old(self).rx_fifo@.subrange(
                    i as int,
                    old(self).rx_fifo@.len() as int,
                ),
                self.tx_log@ == old(self).tx_log@,
                self.config == old(self).config,
                self.base_address == old(self).base_address,
            decreases n - i,
        {
            let byte = self.rx_fifo.remove(0);
            buffer.set(i, byte);
            proof {
                assert(old(self).rx_fifo@.subrange(i as int, old(self).rx_fifo@.len() as int)[0]
                    == old(self).rx_fifo@[i as int]);
                assert(buffer@ =~= old(self).rx_fifo@.subrange(0, i as int + 1) + old(
                    buffer,
                )@.subrange(i as int + 1, old(buffer)@.len() as int));
                assert(self.rx_fifo@ =~= old(self).rx_fifo@.subrange(
                    i as int + 1,
                    old(self).rx_fifo@.len() as int,
                ));
            }
            i = i + 1;
        }
        Ok(n)
    }

    /// Whether the receive FIFO holds unread data. Fails with
    /// `NotInitialized` before `init`.
    pub fn has_data(&self) -> (r: Result<bool, UartError>)
        ensures
            self.spec_initialized() ==> r == Result::<bool, UartError>::Ok(self.rx().len() > 0),
            !self.spec_initialized() ==> r == Result::<bool, UartError>::Err(
                UartError::NotInitialized,
            ),
    {
        if !self.initialized {
            return Err(UartError::NotInitialized);
        }
        Ok(self.rx_fifo.len() > 0)
    }

    /// Whether the transmit FIFO has drained; the modelled FIFO always has.
    pub fn is_tx_empty(&self) -> (r: Result<bool, UartError>)
        ensures
            self.spec_initialized() ==> r == Result::<bool, UartError>::Ok(true),
            !self.spec_initialized() ==> r == Result::<bool, UartError>::Err(
                UartError::NotInitialized,
            ),
    {
        if !self.initialized {
            return Err(UartError::NotInitialized);
        }
        Ok(true)
    }

    /// The wire delivering one byte: it joins the receive FIFO. This is the
    /// receive-interrupt path of the register model.
    pub fn receive_input(&mut self, byte: u8)
        ensures
            final(self).rx() == old(self).rx().push(byte),
            final(self).tx() == old(self).tx(),
            final(self).spec_initialized() == old(self).spec_initialized(),
            final(self).spec_config() == old(self).spec_config(),
    {
        self.rx_fifo.push(byte);
    }
}

/// Writes a debug line to the given port: the message bytes followed by a
/// carriage return and a line feed.
pub fn debug_println(uart: &mut Rk3588Uart, message: &[u8]) -> (r: Result<(), UartError>)
    ensures
        !old(uart).spec_initialized() ==> r == Result::<(), UartError>::Err(
            UartError::NotInitialized,
        ) && *final(uart) == *old(uart),
        old(uart).spec_initialized() ==> r is Ok && final(uart).tx() == old(uart).tx() + message@
            + seq![13u8, 10u8],
{
    match uart.send_bytes(message) {
        Ok(()) => {},
        Err(e) => {
            return Err(e);
        },
    }
    let terminator: [u8; 2] = [13, 10];
    let r = uart.send_bytes(terminator.as_slice());
    proof {
        assert(terminator@ =~= seq![13u8, 10u8]);
    }
    r
}

} // verus!
