//! The general-purpose I/O driver: five banks of 32 pins with direction,
//! level, pull and interrupt configuration, modelled at the register level.

use vstd::prelude::*;

verus! {

/// Failures of the pin controller.
#[derive(Debug, Clone, Copy, PartialEq, Eq, Structural)]
pub enum GpioError {
    NotInitialized,
    InvalidPin,
    InvalidMode,
    InvalidPull,
    InterruptNotSupported,
    HardwareError,
}

/// Function of a pin.
#[derive(Debug, Clone, Copy, PartialEq, Eq, Structural)]
pub enum GpioMode {
    Input,
    Output,
    AlternateFunction0,
    AlternateFunction1,
    AlternateFunction2,
    AlternateFunction3,
    AlternateFunction4,
    AlternateFunction5,
}

/// Pull resistor of a pin.
#[derive(Debug, Clone, Copy, PartialEq, Eq, Structural)]
pub enum GpioPull {
    Disabled,
    Up,
    Down,
}

/// Interrupt trigger of a pin.
#[derive(Debug, Clone, Copy, PartialEq, Eq, Structural)]
pub enum GpioInterrupt {
    RisingEdge,
    FallingEdge,
    BothEdges,
    HighLevel,
    LowLevel,
}

/// One of the five pin banks.
#[derive(Debug, Clone, Copy, PartialEq, Eq, Structural)]
pub enum GpioBank {
    GPIO0,
    GPIO1,
    GPIO2,
    GPIO3,
    GPIO4,
}

/// The array slot of a bank.
pub open spec fn bank_index(bank: GpioBank) -> int {
    match bank {
        GpioBank::GPIO0 => 0,
        GpioBank::GPIO1 => 1,
        GpioBank::GPIO2 => 2,
        GpioBank::GPIO3 => 3,
        GpioBank::GPIO4 => 4,
    }
}

/// One pin: its bank and its position in the bank's 32-bit registers.
#[derive(Debug, Clone, Copy, PartialEq, Eq, Structural)]
pub struct GpioPin {
    pub bank: GpioBank,
    pub pin: u8,
}

impl GpioPin {
    pub fn new(bank: GpioBank, pin: u8) -> (p: GpioPin)
        ensures
            p.bank == bank,
            p.pin == pin,
    {
        GpioPin { bank, pin }
    }

    /// Whether the pin exists: each bank has 32 pins.
    pub fn is_valid(&self) -> (r: bool)
        ensures
            r == (self.pin < 32),
    {
        self.pin < 32
    }
}

/// The register file of one bank. The data, direction and interrupt
/// registers carry one bit per pin; the pull-control word carries a two-bit
/// field per pin.
#[derive(Debug, Clone, Copy, PartialEq, Eq, Structural)]
pub struct GpioBankRegisters {
    /// Output data register: the level driven on output pins.
    pub data: u32,
    /// Direction register: a set bit makes the pin an output.
    pub direction: u32,
    /// Pull control: two bits per pin, 0 none, 1 up, 2 down.
    pub pull_control: u64,
    /// Interrupt enable, one bit per pin.
    pub interrupt_enable: u32,
    /// Interrupt type: a set bit means level-triggered.
    pub interrupt_level: u32,
    /// Interrupt polarity: a set bit means rising edge or high level.
    pub interrupt_polarity: u32,
    /// Latched interrupt status, one bit per pin.
    pub interrupt_status: u32,
    /// External port register: the level present on each pin.
    pub external_port: u32,
}

/// Setting a pin's bit makes it read back set; clearing it, clear.
proof fn lemma_pin_bit(port: u32, k: u32)
    requires
        k < 32,
    ensures
        ((port | (1u32 << k)) & (1u32 << k)) != 0,
        ((port & !(1u32 << k)) & (1u32 << k)) == 0,
{
    assert(k < 32 ==> ((port | (1u32 << k)) & (1u32 << k)) != 0 && ((port & !(1u32 << k)) & (1u32
        << k)) == 0) by (bit_vector);
}

/// A bank with every register cleared.
pub open spec fn cleared_bank() -> GpioBankRegisters {
    GpioBankRegisters {
        data: 0,
        direction: 0,
        pull_control: 0,
        interrupt_enable: 0,
        interrupt_level: 0,
        interrupt_polarity: 0,
        interrupt_status: 0,
        external_port: 0,
    }
}

/// The pin controller: five banks of registers.
pub struct Rk3588Gpio {
    banks: [GpioBankRegisters; 5],
    initialized: bool,
}

impl Rk3588Gpio {
    /// The five banks' registers.
    pub closed spec fn spec_banks(&self) -> Seq<GpioBankRegisters> {
        self.banks@
    }

    /// Whether `init` has run.
    pub closed spec fn spec_initialized(&self) -> bool {
        self.initialized
    }

    /// A fresh controller, not yet initialised, every register cleared.
    pub fn new() -> (g: Rk3588Gpio)
        ensures
            !g.spec_initialized(),
            forall|b: int| 0 <= b < 5 ==> #[trigger] g.spec_banks()[b] == cleared_bank(),
    {
        let bank = GpioBankRegisters {
            data: 0,
            direction: 0,
            pull_control: 0,
            interrupt_enable: 0,
            interrupt_level: 0,
            interrupt_polarity: 0,
            interrupt_status: 0,
            external_port: 0,
        };
        Rk3588Gpio { banks: [bank, bank, bank, bank, bank], initialized: false }
    }

    /// Initialises every bank: interrupts disabled, pending status cleared,
    /// pulls disabled. Idempotent: a second call changes nothing.
    pub fn init(&mut self) -> (r: Result<(), GpioError>)
        ensures
            r is Ok,
            final(self).spec_initialized(),
            old(self).spec_initialized() ==> *final(self) == *old(self),
            !old(self).spec_initialized() ==> forall|b: int|
                0 <= b < 5 ==> {
                    &&& (#[trigger] final(self).spec_banks()[b]).interrupt_enable == 0
                    &&& final(self).spec_banks()[b].interrupt_status == 0
                    &&& final(self).spec_banks()[b].pull_control == 0
                    &&& final(self).spec_banks()[b].data == old(self).spec_banks()[b].data
                    &&& final(self).spec_banks()[b].direction == old(self).spec_banks()[b].direction
                    &&& final(self).spec_banks()[b].external_port == old(self).spec_banks()[
                        b
                    ].external_port
                },
    {
        if self.initialized {
            return Ok(());
        }
        let mut b: usize = 0;
        while b < 5
            invariant
                0 <= b <= 5,
                forall|j: int|
                    0 <= j < b ==> {
                        &&& (#[trigger] self.banks@[j]).interrupt_enable == 0
                        &&& self.banks@[j].interrupt_status == 0
                        &&& self.banks@[j].pull_control == 0
                        &&& self.banks@[j].data == old(self).banks@[j].data
                        &&& self.banks@[j].direction == old(self).banks@[j].direction
                        &&& self.banks@[j].external_port == old(self).banks@[j].external_port
                    },
                forall|j: int| b <= j < 5 ==> #[trigger] self.banks@[j] == old(self).banks@[j],
                self.initialized == old(self).initialized,
            decreases 5 - b,
        {
            let mut regs = self.banks[b];
            regs.interrupt_enable = 0;
            regs.interrupt_status = 0;
            regs.pull_control = 0;
            self.banks[b] = regs;
            b = b + 1;
        }
        self.initialized = true;
        Ok(())
    }

    /// The bank's array slot.
    fn bank_slot(&self, bank: GpioBank) -> (i: usize)
        ensures
            i == bank_index(bank),
            i < 5,
    {
        match bank {
            GpioBank::GPIO0 => 0,
            GpioBank::GPIO1 => 1,
            GpioBank::GPIO2 => 2,
            GpioBank::GPIO3 => 3,
            GpioBank::GPIO4 => 4,
        }
    }

    /// Configures a pin's function. Input clears and output sets the pin's
    /// direction bit; an alternate function hands the pin to its peripheral
    /// and leaves it as an input here. Fails with `NotInitialized` before
    /// `init` and with `InvalidPin` for a pin beyond 31; a failed call
    /// changes nothing.
    pub fn set_mode(&mut self, pin: GpioPin, mode: GpioMode) -> (r: Result<(), GpioError>)
        ensures
            !old(self).spec_initialized() ==> r == Result::<(), GpioError>::Err(
                GpioError::NotInitialized,
            ) && *final(self) == *old(self),
            old(self).spec_initialized() && pin.pin >= 32 ==> r == Result::<(), GpioError>::Err(
                GpioError::InvalidPin,
            ) && *final(self) == *old(self),
            old(self).spec_initialized() && pin.pin < 32 ==> {
                &&& r is Ok
                &&& ({
                    let b = bank_index(pin.bank);
                    let oldregs = old(self).spec_banks()[b];
                    let newregs = final(self).spec_banks()[b];
                    &&& newregs.direction == (if mode == GpioMode::Output {
                        oldregs.direction | (1u32 << pin.pin as u32)
                    } else {
                        oldregs.direction & !(1u32 << pin.pin as u32)
                    })
                    &&& newregs == (GpioBankRegisters { direction: newregs.direction, ..oldregs })
                    &&& forall|j: int|
                        0 <= j < 5 && j != b ==> #[trigger] final(self).spec_banks()[j] == old(
                            self,
                        ).spec_banks()[j]
                })
                &&& final(self).spec_initialized()
            },
    {
        if !self.initialized {
            return Err(GpioError::NotInitialized);
        }
        if !pin.is_valid() {
            return Err(GpioError::InvalidPin);
        }
        let b = self.bank_slot(pin.bank);
        let mask = 1u32 << (pin.pin as u32);
        let mut regs = self.banks[b];
        match mode {
            GpioMode::Output => {
                regs.direction = regs.direction | mask;
            },
            _ => {
                regs.direction = regs.direction & !mask;
            },
        }
        self.banks[b] = regs;
        Ok(())
    }

    /// Configures a pin's pull resistor: the pin's two-bit field of the
    /// pull-control word becomes 0 for none, 1 for up, 2 for down. Fails
    /// with `NotInitialized` before `init` and with `InvalidPin` for a pin
    /// beyond 31; a failed call changes nothing.
    pub fn set_pull(&mut self, pin: GpioPin, pull: GpioPull) -> (r: Result<(), GpioError>)
        ensures
            !old(self).spec_initialized() ==> r == Result::<(), GpioError>::Err(
                GpioError::NotInitialized,
            ) && *final(self) == *old(self),
            old(self).spec_initialized() && pin.pin >= 32 ==> r == Result::<(), GpioError>::Err(
                GpioError::InvalidPin,
            ) && *final(self) == *old(self),
            old(self).spec_initialized() && pin.pin < 32 ==> {
                &&& r is Ok
                &&& ({
                    let b = bank_index(pin.bank);
                    let oldregs = old(self).spec_banks()[b];
                    let newregs = final(self).spec_banks()[b];
                    let field: u64 = match pull {
                        GpioPull::Disabled => 0,
                        GpioPull::Up => 1,
                        GpioPull::Down => 2,
                    };
                    &&& newregs.pull_control == (oldregs.pull_control & !(3u64 << (2 * pin.pin
                        as u64))) | (field << (2 * pin.pin as u64))
                    &&& newregs == (GpioBankRegisters {
                        pull_control: newregs.pull_control,
                        ..oldregs
                    })
                    &&& forall|j: int|
                        0 <= j < 5 && j != b ==> #[trigger] final(self).spec_banks()[j] == old(
                            self,
                        ).spec_banks()[j]
                })
            },
    {
        if !self.initialized {
            return Err(GpioError::NotInitialized);
        }
        if !pin.is_valid() {
            return Err(GpioError::InvalidPin);
        }
        let b = self.bank_slot(pin.bank);
        let shift = 2 * (pin.pin as u64);
        let field: u64 = match pull {
            GpioPull::Disabled => 0,
            GpioPull::Up => 1,
            GpioPull::Down => 2,
        };
        let mut regs = self.banks[b];
        regs.pull_control = (regs.pull_control & !(3u64 << shift)) | (field << shift);
        self.banks[b] = regs;
        Ok(())
    }

    /// Drives a level on an output pin: sets or clears the pin's bit of the
    /// data register, and mirrors it on the external port. Fails with
    /// `NotInitialized` before `init` and with `InvalidPin` for a pin
    /// beyond 31; a failed call changes nothing.
    pub fn set_level(&mut self, pin: GpioPin, level: bool) -> (r: Result<(), GpioError>)
        ensures
            !old(self).spec_initialized() ==> r == Result::<(), GpioError>::Err(
                GpioError::NotInitialized,
            ) && *final(self) == *old(self),
            old(self).spec_initialized() && pin.pin >= 32 ==> r == Result::<(), GpioError>::Err(
                GpioError::InvalidPin,
            ) && *final(self) == *old(self),
            old(self).spec_initialized() && pin.pin < 32 ==> {
                &&& r is Ok
                &&& ({
                    let b = bank_index(pin.bank);
                    let oldregs = old(self).spec_banks()[b];
                    let newregs = final(self).spec_banks()[b];
                    &&& newregs.data == (if level {
                        oldregs.data | (1u32 << pin.pin as u32)
                    } else {
                        oldregs.data & !(1u32 << pin.pin as u32)
                    })
                    &&& newregs.external_port == (if level {
                        oldregs.external_port | (1u32 << pin.pin as u32)
                    } else {
                        oldregs.external_port & !(1u32 << pin.pin as u32)
                    })
                    &&& newregs == (GpioBankRegisters {
                        data: newregs.data,
                        external_port: newregs.external_port,
                        ..oldregs
                    })
                    &&& forall|j: int|
                        0 <= j < 5 && j != b ==> #[trigger] final(self).spec_banks()[j] == old(
                            self,
                        ).spec_banks()[j]
                })
            },
    {
        if !self.initialized {
            return Err(GpioError::NotInitialized);
        }
        if !pin.is_valid() {
            return Err(GpioError::InvalidPin);
        }
        let b = self.bank_slot(pin.bank);
        let mask = 1u32 << (pin.pin as u32);
        let mut regs = self.banks[b];
        if level {
            regs.data = regs.data | mask;
            regs.external_port = regs.external_port | mask;
        } else {
            regs.data = regs.data & !mask;
            regs.external_port = regs.external_port & !mask;
        }
        self.banks[b] = regs;
        Ok(())
    }

    /// Reads the level present on a pin from the external-port register.
    /// Fails with `NotInitialized` before `init` and with `InvalidPin` for
    /// a pin beyond 31.
    pub fn get_level(&self, pin: GpioPin) -> (r: Result<bool, GpioError>)
        ensures
            !self.spec_initialized() ==> r == Result::<bool, GpioError>::Err(
                GpioError::NotInitialized,
            ),
            self.spec_initialized() && pin.pin >= 32 ==> r == Result::<bool, GpioError>::Err(
                GpioError::InvalidPin,
            ),
            self.spec_initialized() && pin.pin < 32 ==> r == Result::<bool, GpioError>::Ok(
                self.spec_banks()[bank_index(pin.bank)].external_port & (1u32 << pin.pin as u32)
                    != 0,
            ),
    {
        if !self.initialized {
            return Err(GpioError::NotInitialized);
        }
        if !pin.is_valid() {
            return Err(GpioError::InvalidPin);
        }
        let b = self.bank_slot(pin.bank);
        Ok(self.banks[b].external_port & (1u32 << (pin.pin as u32)) != 0)
    }

    /// Inverts an output pin: reads the present level and drives the
    /// opposite one.
    pub fn toggle(&mut self, pin: GpioPin) -> (r: Result<(), GpioError>)
        ensures
            !old(self).spec_initialized() ==> r == Result::<(), GpioError>::Err(
                GpioError::NotInitialized,
            ) && *final(self) == *old(self),
            old(self).spec_initialized() && pin.pin >= 32 ==> r == Result::<(), GpioError>::Err(
                GpioError::InvalidPin,
            ) && *final(self) == *old(self),
            old(self).spec_initialized() && pin.pin < 32 ==> {
                &&& r is Ok
                &&& ({
                    let b = bank_index(pin.bank);
                    let was_high = old(self).spec_banks()[b].external_port & (1u32 << pin.pin
                        as u32) != 0;
                    (final(self).spec_banks()[b].external_port & (1u32 << pin.pin as u32) != 0)
                        == !was_high
                })
            },
    {
        let current = match self.get_level(pin) {
            Ok(level) => level,
            Err(e) => {
                return Err(e);
            },
        };
        let r = self.set_level(pin, !current);
        proof {
            if old(self).spec_initialized() && pin.pin < 32 {
                let b = bank_index(pin.bank);
                let port = old(self).spec_banks()[b].external_port;
                lemma_pin_bit(port, pin.pin as u32);
            }
        }
        r
    }

    /// Configures a pin's interrupt trigger and enables its interrupt.
    /// Both-edge triggering is not supported by the controller. Fails with
    /// `NotInitialized` before `init` and with `InvalidPin` for a pin
    /// beyond 31; a failed call changes nothing.
    pub fn set_interrupt(&mut self, pin: GpioPin, interrupt: GpioInterrupt) -> (r: Result<
        (),
        GpioError,
    >)
        ensures
            !old(self).spec_initialized() ==> r == Result::<(), GpioError>::Err(
                GpioError::NotInitialized,
            ) && *final(self) == *old(self),
            old(self).spec_initialized() && pin.pin >= 32 ==> r == Result::<(), GpioError>::Err(
                GpioError::InvalidPin,
            ) && *final(self) == *old(self),
            old(self).spec_initialized() && pin.pin < 32 && interrupt == GpioInterrupt::BothEdges
                ==> r == Result::<(), GpioError>::Err(GpioError::InterruptNotSupported) && *final(self) == *old(self),
            old(self).spec_initialized() && pin.pin < 32 && interrupt != GpioInterrupt::BothEdges
                ==> {
                &&& r is Ok
                &&& ({
                    let b = bank_index(pin.bank);
                    let mask = 1u32 << pin.pin as u32;
                    let oldregs = old(self).spec_banks()[b];
                    let newregs = final(self).spec_banks()[b];
                    let level_triggered = interrupt == GpioInterrupt::HighLevel || interrupt
                        == GpioInterrupt::LowLevel;
                    let active_high = interrupt == GpioInterrupt::RisingEdge || interrupt
                        == GpioInterrupt::HighLevel;
                    &&& newregs.interrupt_enable == oldregs.interrupt_enable | mask
                    &&& newregs.interrupt_level == (if level_triggered {
                        oldregs.interrupt_level | mask
                    } else {
                        oldregs.interrupt_level & !mask
                    })
                    &&& newregs.interrupt_polarity == (if active_high {
                        oldregs.interrupt_polarity | mask
                    } else {
                        oldregs.interrupt_polarity & !mask
                    })
                    &&& newregs == (GpioBankRegisters {
                        interrupt_enable: newregs.interrupt_enable,
                        interrupt_level: newregs.interrupt_level,
                        interrupt_polarity: newregs.interrupt_polarity,
                        ..oldregs
                    })
                })
            },
    {
        if !self.initialized {
            return Err(GpioError::NotInitialized);
        }
        if !pin.is_valid() {
            return Err(GpioError::InvalidPin);
        }
        if matches!(interrupt, GpioInterrupt::BothEdges) {
            return Err(GpioError::InterruptNotSupported);
        }
        let b = self.bank_slot(pin.bank);
        let mask = 1u32 << (pin.pin as u32);
        let mut regs = self.banks[b];
        regs.interrupt_enable = regs.interrupt_enable & !mask;
        match interrupt {
            GpioInterrupt::RisingEdge => {
                regs.interrupt_level = regs.interrupt_level & !mask;
                regs.interrupt_polarity = regs.interrupt_polarity | mask;
            },
            GpioInterrupt::FallingEdge => {
                regs.interrupt_level = regs.interrupt_level & !mask;
                regs.interrupt_polarity = regs.interrupt_polarity & !mask;
            },
            GpioInterrupt::HighLevel => {
                regs.interrupt_level = regs.interrupt_level | mask;
                regs.interrupt_polarity = regs.interrupt_polarity | mask;
            },
            GpioInterrupt::LowLevel => {
                regs.interrupt_level = regs.interrupt_level | mask;
                regs.interrupt_polarity = regs.interrupt_polarity & !mask;
            },
            GpioInterrupt::BothEdges => {},
        }
        regs.interrupt_enable = regs.interrupt_enable | mask;
        self.banks[b] = regs;
        proof {
            let m = 1u32 << pin.pin as u32;
            let e = old(self).spec_banks()[b as int].interrupt_enable;
            assert((e & !m) | m == e | m) by (bit_vector);
        }
        Ok(())
    }

    /// Clears a pin's latched interrupt. Fails with `NotInitialized` before
    /// `init` and with `InvalidPin` for a pin beyond 31.
    pub fn clear_interrupt(&mut self, pin: GpioPin) -> (r: Result<(), GpioError>)
        ensures
            !old(self).spec_initialized() ==> r == Result::<(), GpioError>::Err(
                GpioError::NotInitialized,
            ) && *final(self) == *old(self),
            old(self).spec_initialized() && pin.pin >= 32 ==> r == Result::<(), GpioError>::Err(
                GpioError::InvalidPin,
            ) && *final(self) == *old(self),
            old(self).spec_initialized() && pin.pin < 32 ==> {
                &&& r is Ok
                &&& final(self).spec_banks()[bank_index(pin.bank)].interrupt_status == old(
                    self,
                ).spec_banks()[bank_index(pin.bank)].interrupt_status & !(1u32 << pin.pin as u32)
            },
    {
        if !self.initialized {
            return Err(GpioError::NotInitialized);
        }
        if !pin.is_valid() {
            return Err(GpioError::InvalidPin);
        }
        let b = self.bank_slot(pin.bank);
        let mask = 1u32 << (pin.pin as u32);
        let mut regs = self.banks[b];
        regs.interrupt_status = regs.interrupt_status & !mask;
        self.banks[b] = regs;
        Ok(())
    }

    /// Whether a pin's interrupt is latched. Fails with `NotInitialized`
    /// before `init` and with `InvalidPin` for a pin beyond 31.
    pub fn has_interrupt(&self, pin: GpioPin) -> (r: Result<bool, GpioError>)
        ensures
            !self.spec_initialized() ==> r == Result::<bool, GpioError>::Err(
                GpioError::NotInitialized,
            ),
            self.spec_initialized() && pin.pin >= 32 ==> r == Result::<bool, GpioError>::Err(
                GpioError::InvalidPin,
            ),
            self.spec_initialized() && pin.pin < 32 ==> r == Result::<bool, GpioError>::Ok(
                self.spec_banks()[bank_index(pin.bank)].interrupt_status & (1u32 << pin.pin
                    as u32) != 0,
            ),
    {
        if !self.initialized {
            return Err(GpioError::NotInitialized);
        }
        if !pin.is_valid() {
            return Err(GpioError::InvalidPin);
        }
        let b = self.bank_slot(pin.bank);
        Ok(self.banks[b].interrupt_status & (1u32 << (pin.pin as u32)) != 0)
    }

    /// An external signal driving a level onto an input pin: the
    /// external-port register follows the wire.
    pub fn external_drive(&mut self, pin: GpioPin, level: bool) -> (r: Result<(), GpioError>)
        ensures
            pin.pin >= 32 ==> r == Result::<(), GpioError>::Err(GpioError::InvalidPin) && *final(self) == *old(self),
            pin.pin < 32 ==> {
                &&& r is Ok
                &&& final(self).spec_banks()[bank_index(pin.bank)].external_port == (if level {
                    old(self).spec_banks()[bank_index(pin.bank)].external_port | (1u32 << pin.pin
                        as u32)
                } else {
                    old(self).spec_banks()[bank_index(pin.bank)].external_port & !(1u32 << pin.pin
                        as u32)
                })
                &&& final(self).spec_initialized() == old(self).spec_initialized()
            },
    {
        if !pin.is_valid() {
            return Err(GpioError::InvalidPin);
        }
        let b = self.bank_slot(pin.bank);
        let mask = 1u32 << (pin.pin as u32);
        let mut regs = self.banks[b];
        if level {
            regs.external_port = regs.external_port | mask;
        } else {
            regs.external_port = regs.external_port & !mask;
        }
        self.banks[b] = regs;
        Ok(())
    }
}

/// A pin configuration assembled step by step and applied in one call:
/// function, pull, initial level and interrupt trigger, each optional.
pub struct GpioConfig {
    pin: GpioPin,
    mode: Option<GpioMode>,
    pull: Option<GpioPull>,
    initial_level: Option<bool>,
    interrupt: Option<GpioInterrupt>,
}

impl GpioConfig {
    /// The pin being configured.
    pub closed spec fn spec_pin(&self) -> GpioPin {
        self.pin
    }

    /// The chosen function, if any.
    pub closed spec fn spec_mode(&self) -> Option<GpioMode> {
        self.mode
    }

    /// The chosen pull, if any.
    pub closed spec fn spec_pull(&self) -> Option<GpioPull> {
        self.pull
    }

    /// The chosen initial level, if any.
    pub closed spec fn spec_initial_level(&self) -> Option<bool> {
        self.initial_level
    }

    /// The chosen interrupt trigger, if any.
    pub closed spec fn spec_interrupt(&self) -> Option<GpioInterrupt> {
        self.interrupt
    }

    /// A configuration for `pin` with nothing chosen yet.
    pub fn new(pin: GpioPin) -> (c: GpioConfig)
        ensures
            c.spec_pin() == pin,
            c.spec_mode() is None,
            c.spec_pull() is None,
            c.spec_initial_level() is None,
            c.spec_interrupt() is None,
    {
        GpioConfig { pin, mode: None, pull: None, initial_level: None, interrupt: None }
    }

    /// Chooses the pin's function.
    pub fn mode(self, mode: GpioMode) -> (c: GpioConfig)
        ensures
            c.spec_mode() == Some(mode),
            c.spec_pin() == self.spec_pin(),
            c.spec_pull() == self.spec_pull(),
            c.spec_initial_level() == self.spec_initial_level(),
            c.spec_interrupt() == self.spec_interrupt(),
    {
        GpioConfig { mode: Some(mode), ..self }
    }

    /// Chooses the pin's pull resistor.
    pub fn pull(self, pull: GpioPull) -> (c: GpioConfig)
        ensures
            c.spec_pull() == Some(pull),
            c.spec_pin() == self.spec_pin(),
            c.spec_mode() == self.spec_mode(),
            c.spec_initial_level() == self.spec_initial_level(),
            c.spec_interrupt() == self.spec_interrupt(),
    {
        GpioConfig { pull: Some(pull), ..self }
    }

    /// Chooses the initial output level.
    pub fn initial_level(self, level: bool) -> (c: GpioConfig)
        ensures
            c.spec_initial_level() == Some(level),
            c.spec_pin() == self.spec_pin(),
            c.spec_mode() == self.spec_mode(),
            c.spec_pull() == self.spec_pull(),
            c.spec_interrupt() == self.spec_interrupt(),
    {
        GpioConfig { initial_level: Some(level), ..self }
    }

    /// Chooses the interrupt trigger.
    pub fn interrupt(self, interrupt: GpioInterrupt) -> (c: GpioConfig)
        ensures
            c.spec_interrupt() == Some(interrupt),
            c.spec_pin() == self.spec_pin(),
            c.spec_mode() == self.spec_mode(),
            c.spec_pull() == self.spec_pull(),
            c.spec_initial_level() == self.spec_initial_level(),
    {
        GpioConfig { interrupt: Some(interrupt), ..self }
    }

    /// Applies every chosen setting, in order: function, pull, level,
    /// interrupt. Stops at the first failure and reports it.
    pub fn apply(self, gpio: &mut Rk3588Gpio) -> (r: Result<(), GpioError>)
        ensures
            !old(gpio).spec_initialized() && self.spec_mode() is Some ==> r == Result::<
                (),
                GpioError,
            >::Err(GpioError::NotInitialized) && *final(gpio) == *old(gpio),
            self.spec_mode() is None && self.spec_pull() is None && self.spec_initial_level()
                is None && self.spec_interrupt() is None ==> r is Ok && *final(gpio) == *old(gpio),
    {
        match self.mode {
            Some(mode) => {
                match gpio.set_mode(self.pin, mode) {
                    Ok(()) => {},
                    Err(e) => {
                        return Err(e);
                    },
                }
            },
            None => {},
        }
        match self.pull {
            Some(pull) => {
                match gpio.set_pull(self.pin, pull) {
                    Ok(()) => {},
                    Err(e) => {
                        return Err(e);
                    },
                }
            },
            None => {},
        }
        match self.initial_level {
            Some(level) => {
                match gpio.set_level(self.pin, level) {
                    Ok(()) => {},
                    Err(e) => {
                        return Err(e);
                    },
                }
            },
            None => {},
        }
        match self.interrupt {
            Some(interrupt) => {
                match gpio.set_interrupt(self.pin, interrupt) {
                    Ok(()) => {},
                    Err(e) => {
                        return Err(e);
                    },
                }
            },
            None => {},
        }
        Ok(())
    }
}

} // verus!
