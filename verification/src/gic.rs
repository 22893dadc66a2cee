//! Interrupt-controller management: distributor, redistributor and CPU
//! interface configuration, per-interrupt priority and routing, the packed
//! enable bitmap, and the claim/end acknowledge protocol.

use vstd::prelude::*;
use crate::errors::KernelError;

verus! {

/// The three interrupt classes of the controller.
#[derive(Debug, Clone, Copy, PartialEq, Eq, Structural)]
pub enum InterruptType {
    /// Shared peripheral interrupt.
    SPI,
    /// Private peripheral interrupt.
    PPI,
    /// Software-generated interrupt.
    SGI,
}

/// An interrupt priority: 0 is the most urgent, 255 the least.
#[derive(Debug, Clone, Copy, PartialEq, Eq, Structural)]
pub struct InterruptPriority(u8);

impl InterruptPriority {
    /// The numeric priority.
    pub closed spec fn spec_value(&self) -> u8 {
        self.0
    }

    pub fn new(priority: u8) -> (p: InterruptPriority)
        ensures
            p.spec_value() == priority,
    {
        InterruptPriority(priority)
    }

    /// The numeric priority.
    pub fn value(&self) -> (v: u8)
        ensures
            v == self.spec_value(),
    {
        self.0
    }

    /// The most urgent priority, 0.
    pub fn highest() -> (p: InterruptPriority)
        ensures
            p.spec_value() == 0,
    {
        InterruptPriority(0)
    }

    /// The reset priority that the distributor programs everywhere, 0x80.
    pub fn default_priority() -> (p: InterruptPriority)
        ensures
            p.spec_value() == 0x80,
    {
        InterruptPriority(0x80)
    }

    /// The least urgent priority, 0xFF.
    pub fn lowest() -> (p: InterruptPriority)
        ensures
            p.spec_value() == 0xFF,
    {
        InterruptPriority(0xFF)
    }
}

/// Number of interrupt identifiers the controller distinguishes.
pub const INTERRUPT_COUNT: u32 = 1024;

/// The identifier the acknowledge register reports when nothing is pending.
pub const SPURIOUS_INTERRUPT: u32 = 1023;

/// Highest identifier of the software-generated interrupt range.
pub const SGI_LIMIT: u8 = 16;

/// Every queued identifier is a real interrupt id, below the spurious one.
pub open spec fn pending_wf(pending: Seq<u32>) -> bool {
    forall|i: int| 0 <= i < pending.len() ==> #[trigger] pending[i] < SPURIOUS_INTERRUPT
}

/// Pushing a real interrupt id keeps a pending queue well formed.
proof fn lemma_pending_wf_push(pending: Seq<u32>, id: u32)
    requires
        pending_wf(pending),
        id < SPURIOUS_INTERRUPT,
    ensures
        pending_wf(pending.push(id)),
{
    assert forall|i: int| 0 <= i < pending.push(id).len() implies #[trigger] pending.push(id)[i]
        < SPURIOUS_INTERRUPT by {
        if i < pending.len() {
            assert(pending[i] < SPURIOUS_INTERRUPT);
        }
    }
}

/// Dropping the head keeps a pending queue well formed.
proof fn lemma_pending_wf_tail(pending: Seq<u32>)
    requires
        pending_wf(pending),
        pending.len() > 0,
    ensures
        pending_wf(pending.subrange(1, pending.len() as int)),
{
    assert forall|i: int|
        0 <= i < pending.subrange(1, pending.len() as int).len() implies #[trigger] pending.subrange(
        1,
        pending.len() as int,
    )[i] < SPURIOUS_INTERRUPT by {
        assert(pending[i + 1] < SPURIOUS_INTERRUPT);
    }
}

/// Whether interrupt `id` is set in the packed 32-bit-word enable bitmap.
pub open spec fn enabled_in(words: Seq<u32>, id: int) -> bool {
    words[id / 32] & (1u32 << (id % 32) as u32) != 0
}

/// Setting bit `k` of a word raises exactly that bit: the bit then reads as
/// set, and every other bit keeps its value.
proof fn lemma_word_bit_set(w: u32, k: u32, j: u32)
    requires
        k < 32,
        j < 32,
    ensures
        (w | (1u32 << k)) & (1u32 << k) != 0,
        j != k ==> ((w | (1u32 << k)) & (1u32 << j)) == (w & (1u32 << j)),
{
    assert((w | (1u32 << k)) & (1u32 << k) != 0) by (bit_vector)
        requires
            k < 32,
    ;
    assert(j != k && j < 32 && k < 32 ==> ((w | (1u32 << k)) & (1u32 << j)) == (w & (1u32 << j)))
        by (bit_vector);
}

/// Clearing bit `k` of a word lowers exactly that bit.
proof fn lemma_word_bit_clear(w: u32, k: u32, j: u32)
    requires
        k < 32,
        j < 32,
    ensures
        (w & !(1u32 << k)) & (1u32 << k) == 0,
        j != k ==> ((w & !(1u32 << k)) & (1u32 << j)) == (w & (1u32 << j)),
{
    assert((w & !(1u32 << k)) & (1u32 << k) == 0) by (bit_vector)
        requires
            k < 32,
    ;
    assert(j != k && j < 32 && k < 32 ==> ((w & !(1u32 << k)) & (1u32 << j)) == (w & (1u32 << j)))
        by (bit_vector);
}

/// The interrupt-controller manager. Hardware registers are modelled as
/// fields: the distributor's priority, routing, trigger-configuration and
/// enable-set state, the redistributor's wake state, and the CPU interface's
/// mask, binary point and acknowledge protocol. Raised interrupts queue in
/// claim order; `get_interrupt_id` claims the head and `end_interrupt`
/// retires it, and the two logs record every claim and every end-of-interrupt
/// write.
pub struct GicManager {
    distributor_base: u64,
    redistributor_base: u64,
    cpu_interface_base: u64,
    enabled_interrupts: [u32; 32],
    priorities: Vec<u8>,
    targets: Vec<u8>,
    handlers: Vec<bool>,
    level_config: [u32; 32],
    distributor_on: bool,
    redistributor_awake: bool,
    priority_mask: u8,
    binary_point: u8,
    interface_on: bool,
    pending: Vec<u32>,
    active: Option<u32>,
    claim_log: Vec<u32>,
    eoi_log: Vec<u32>,
    sgi_log: Vec<(u8, u8)>,
}

impl GicManager {
    /// The packed enable bitmap, 32 words of 32 bits.
    pub closed spec fn enable_words(&self) -> Seq<u32> {
        self.enabled_interrupts@
    }

    /// Per-interrupt priorities, 1024 entries.
    pub closed spec fn spec_priorities(&self) -> Seq<u8> {
        self.priorities@
    }

    /// Per-interrupt target-core masks, 1024 entries.
    pub closed spec fn spec_targets(&self) -> Seq<u8> {
        self.targets@
    }

    /// Which interrupt identifiers have a registered handler.
    pub closed spec fn spec_handlers(&self) -> Seq<bool> {
        self.handlers@
    }

    /// Whether the distributor forwards interrupts.
    pub closed spec fn distributor_enabled(&self) -> bool {
        self.distributor_on
    }

    /// Whether the redistributor reports the core awake.
    pub closed spec fn awake(&self) -> bool {
        self.redistributor_awake
    }

    /// The CPU interface's priority mask.
    pub closed spec fn spec_priority_mask(&self) -> u8 {
        self.priority_mask
    }

    /// The CPU interface's binary-point register.
    pub closed spec fn spec_binary_point(&self) -> u8 {
        self.binary_point
    }

    /// Whether the CPU interface is enabled.
    pub closed spec fn interface_enabled(&self) -> bool {
        self.interface_on
    }

    /// Raised interrupts not yet claimed, in claim order.
    pub closed spec fn spec_pending(&self) -> Seq<u32> {
        self.pending@
    }

    /// The claimed interrupt awaiting its end-of-interrupt write, if any.
    pub closed spec fn spec_active(&self) -> Option<u32> {
        self.active
    }

    /// Every identifier ever claimed, in order.
    pub closed spec fn claims(&self) -> Seq<u32> {
        self.claim_log@
    }

    /// Every identifier ever written to the end-of-interrupt register.
    pub closed spec fn eois(&self) -> Seq<u32> {
        self.eoi_log@
    }

    /// Every software-generated interrupt requested, in order: the target
    /// core and the identifier written to the software-interrupt register.
    pub closed spec fn sgis(&self) -> Seq<(u8, u8)> {
        self.sgi_log@
    }

    /// The tables have their hardware sizes, queued identifiers are real
    /// interrupt ids, and the acknowledge protocol is in step: with no claim
    /// outstanding the claim and end-of-interrupt logs match exactly, and
    /// with one outstanding the claim log is exactly one entry ahead.
    pub open spec fn wf(&self) -> bool {
        &&& self.enable_words().len() == 32
        &&& self.spec_priorities().len() == 1024
        &&& self.spec_targets().len() == 1024
        &&& self.spec_handlers().len() == 1024
        &&& pending_wf(self.spec_pending())
        &&& match self.spec_active() {
            Option::None => self.claims() == self.eois(),
            Option::Some(id) => id < SPURIOUS_INTERRUPT && self.claims() == self.eois().push(id),
        }
    }

    /// A fresh manager with the platform's distributor, redistributor and
    /// CPU-interface base addresses: everything disabled, nothing pending,
    /// no claim outstanding.
    pub fn new() -> (g: GicManager)
        ensures
            g.wf(),
            forall|i: int| 0 <= i < 32 ==> #[trigger] g.enable_words()[i] == 0,
            forall|i: int| 0 <= i < 1024 ==> #[trigger] g.spec_priorities()[i] == 0,
            forall|i: int| 0 <= i < 1024 ==> #[trigger] g.spec_targets()[i] == 0,
            forall|i: int| 0 <= i < 1024 ==> !(#[trigger] g.spec_handlers()[i]),
            !g.distributor_enabled(),
            !g.awake(),
            !g.interface_enabled(),
            g.spec_pending().len() == 0,
            g.spec_active() is None,
            g.claims().len() == 0,
            g.eois().len() == 0,
            g.sgis().len() == 0,
    {
        let mut priorities: Vec<u8> = Vec::new();
        let mut targets: Vec<u8> = Vec::new();
        let mut handlers: Vec<bool> = Vec::new();
        let mut i: usize = 0;
        while i < 1024
            invariant
                0 <= i <= 1024,
                priorities@.len() == i,
                targets@.len() == i,
                handlers@.len() == i,
                forall|j: int| 0 <= j < i ==> #[trigger] priorities@[j] == 0,
                forall|j: int| 0 <= j < i ==> #[trigger] targets@[j] == 0,
                forall|j: int| 0 <= j < i ==> !(#[trigger] handlers@[j]),
            decreases 1024 - i,
        {
            priorities.push(0);
            targets.push(0);
            handlers.push(false);
            i = i + 1;
        }
        GicManager {
            distributor_base: 0xFD40_0000,
            redistributor_base: 0xFD60_0000,
            cpu_interface_base: 0xFEC0_0000,
            enabled_interrupts: [
                0, 0, 0, 0, 0, 0, 0, 0, 0, 0, 0, 0, 0, 0, 0, 0, 0, 0, 0, 0, 0, 0, 0, 0, 0, 0, 0,
                0, 0, 0, 0, 0,
            ],
            priorities,
            targets,
            handlers,
            level_config: [
                0, 0, 0, 0, 0, 0, 0, 0, 0, 0, 0, 0, 0, 0, 0, 0, 0, 0, 0, 0, 0, 0, 0, 0, 0, 0, 0,
                0, 0, 0, 0, 0,
            ],
            distributor_on: false,
            redistributor_awake: false,
            priority_mask: 0,
            binary_point: 0,
            interface_on: false,
            pending: Vec::new(),
            active: Option::None,
            claim_log: Vec::new(),
            eoi_log: Vec::new(),
            sgi_log: Vec::new(),
        }
    }

    /// Full controller initialisation, in order: the distributor reset
    /// (everything disabled and level-triggered, every priority at the 0x80
    /// default, every interrupt targeted at the boot core, distributor on),
    /// the redistributor wake, and the CPU-interface setup (priority mask
    /// accepting all priorities, binary point set, interface on).
    /// `redistributor_awoke` is the outcome of the bounded wake poll: what
    /// the wake register reported within the iteration budget after the
    /// sleep bit was cleared. When the poll budget expires with the core
    /// still asleep, initialisation stops after the distributor reset and
    /// fails with `HardwareTimeout`, leaving the CPU interface untouched.
    pub fn init(&mut self, redistributor_awoke: bool) -> (r: Result<(), KernelError>)
        requires
            old(self).wf(),
        ensures
            final(self).wf(),
            forall|i: int| 0 <= i < 32 ==> #[trigger] final(self).enable_words()[i] == 0,
            forall|i: int| 0 <= i < 1024 ==> #[trigger] final(self).spec_priorities()[i] == 0x80,
            forall|i: int| 0 <= i < 1024 ==> #[trigger] final(self).spec_targets()[i] == 0x01,
            final(self).distributor_enabled(),
            final(self).awake() == redistributor_awoke,
            redistributor_awoke ==> {
                &&& r is Ok
                &&& final(self).spec_priority_mask() == 0xFF
                &&& final(self).spec_binary_point() == 0x7
                &&& final(self).interface_enabled()
            },
            !redistributor_awoke ==> {
                &&& r == Result::<(), KernelError>::Err(KernelError::HardwareTimeout)
                &&& final(self).spec_priority_mask() == old(self).spec_priority_mask()
                &&& final(self).spec_binary_point() == old(self).spec_binary_point()
                &&& final(self).interface_enabled() == old(self).interface_enabled()
            },
            final(self).spec_pending() == old(self).spec_pending(),
            final(self).spec_active() == old(self).spec_active(),
            final(self).claims() == old(self).claims(),
            final(self).eois() == old(self).eois(),
            final(self).sgis() == old(self).sgis(),
            final(self).spec_handlers() == old(self).spec_handlers(),
    {
        self.init_distributor();
        match self.init_redistributor(redistributor_awoke) {
            Ok(()) => {},
            Err(e) => {
                return Err(e);
            },
        }
        self.init_cpu_interface();
        Ok(())
    }

    /// Distributor reset: disable every interrupt, force level-triggered
    /// configuration, set every priority to the 0x80 default, target every
    /// interrupt at the boot core, then enable the distributor.
    fn init_distributor(&mut self)
        requires
            old(self).wf(),
        ensures
            final(self).wf(),
            forall|i: int| 0 <= i < 32 ==> #[trigger] final(self).enable_words()[i] == 0,
            forall|i: int| 0 <= i < 1024 ==> #[trigger] final(self).spec_priorities()[i] == 0x80,
            forall|i: int| 0 <= i < 1024 ==> #[trigger] final(self).spec_targets()[i] == 0x01,
            final(self).distributor_enabled(),
            final(self).awake() == old(self).awake(),
            final(self).spec_priority_mask() == old(self).spec_priority_mask(),
            final(self).spec_binary_point() == old(self).spec_binary_point(),
            final(self).interface_enabled() == old(self).interface_enabled(),
            final(self).spec_pending() == old(self).spec_pending(),
            final(self).spec_active() == old(self).spec_active(),
            final(self).claims() == old(self).claims(),
            final(self).eois() == old(self).eois(),
            final(self).sgis() == old(self).sgis(),
            final(self).spec_handlers() == old(self).spec_handlers(),
    {
        let mut w: usize = 0;
        while w < 32
            invariant
                0 <= w <= 32,
                forall|j: int| 0 <= j < w ==> #[trigger] self.enabled_interrupts@[j] == 0,
                forall|j: int| 0 <= j < w ==> #[trigger] self.level_config@[j] == 0,
                self.priorities@ == old(self).priorities@,
                self.targets@ == old(self).targets@,
                self.handlers@ == old(self).handlers@,
                self.distributor_on == old(self).distributor_on,
                self.redistributor_awake == old(self).redistributor_awake,
                self.priority_mask == old(self).priority_mask,
                self.binary_point == old(self).binary_point,
                self.interface_on == old(self).interface_on,
                self.pending@ == old(self).pending@,
                self.active == old(self).active,
                self.claim_log@ == old(self).claim_log@,
                self.eoi_log@ == old(self).eoi_log@,
                self.sgi_log@ == old(self).sgi_log@,
            decreases 32 - w,
        {
            self.enabled_interrupts[w] = 0;
            self.level_config[w] = 0;
            w = w + 1;
        }
        let mut i: usize = 0;
        while i < 1024
            invariant
                0 <= i <= 1024,
                self.priorities@.len() == 1024,
                self.targets@.len() == 1024,
                forall|j: int| 0 <= j < i ==> #[trigger] self.priorities@[j] == 0x80,
                forall|j: int| 0 <= j < i ==> #[trigger] self.targets@[j] == 0x01,
                forall|j: int| 0 <= j < 32 ==> #[trigger] self.enabled_interrupts@[j] == 0,
                self.handlers@ == old(self).handlers@,
                self.distributor_on == old(self).distributor_on,
                self.redistributor_awake == old(self).redistributor_awake,
                self.priority_mask == old(self).priority_mask,
                self.binary_point == old(self).binary_point,
                self.interface_on == old(self).interface_on,
                self.pending@ == old(self).pending@,
                self.active == old(self).active,
                self.claim_log@ == old(self).claim_log@,
                self.eoi_log@ == old(self).eoi_log@,
                self.sgi_log@ == old(self).sgi_log@,
            decreases 1024 - i,
        {
            self.priorities.set(i, 0x80);
            self.targets.set(i, 0x01);
            i = i + 1;
        }
        self.distributor_on = true;
    }

    /// Redistributor wake: clear the sleep bit and poll, within the
    /// iteration budget, for the core to report awake. `awoke` is what the
    /// wake register reported by the time the budget ran out; a core still
    /// asleep then is a `HardwareTimeout`.
    fn init_redistributor(&mut self, awoke: bool) -> (r: Result<(), KernelError>)
        requires
            old(self).wf(),
        ensures
            final(self).wf(),
            final(self).awake() == awoke,
            awoke ==> r is Ok,
            !awoke ==> r == Result::<(), KernelError>::Err(KernelError::HardwareTimeout),
            final(self).enable_words() == old(self).enable_words(),
            final(self).spec_priorities() == old(self).spec_priorities(),
            final(self).spec_targets() == old(self).spec_targets(),
            final(self).distributor_enabled() == old(self).distributor_enabled(),
            final(self).spec_priority_mask() == old(self).spec_priority_mask(),
            final(self).spec_binary_point() == old(self).spec_binary_point(),
            final(self).interface_enabled() == old(self).interface_enabled(),
            final(self).spec_pending() == old(self).spec_pending(),
            final(self).spec_active() == old(self).spec_active(),
            final(self).claims() == old(self).claims(),
            final(self).eois() == old(self).eois(),
            final(self).sgis() == old(self).sgis(),
            final(self).spec_handlers() == old(self).spec_handlers(),
    {
        self.redistributor_awake = awoke;
        if awoke {
            Ok(())
        } else {
            Err(KernelError::HardwareTimeout)
        }
    }

    /// CPU-interface setup: priority mask accepting every priority, binary
    /// point register set, interface enabled.
    fn init_cpu_interface(&mut self)
        requires
            old(self).wf(),
        ensures
            final(self).wf(),
            final(self).spec_priority_mask() == 0xFF,
            final(self).spec_binary_point() == 0x7,
            final(self).interface_enabled(),
            final(self).enable_words() == old(self).enable_words(),
            final(self).spec_priorities() == old(self).spec_priorities(),
            final(self).spec_targets() == old(self).spec_targets(),
            final(self).distributor_enabled() == old(self).distributor_enabled(),
            final(self).awake() == old(self).awake(),
            final(self).spec_pending() == old(self).spec_pending(),
            final(self).spec_active() == old(self).spec_active(),
            final(self).claims() == old(self).claims(),
            final(self).eois() == old(self).eois(),
            final(self).sgis() == old(self).sgis(),
            final(self).spec_handlers() == old(self).spec_handlers(),
    {
        self.priority_mask = 0xFF;
        self.binary_point = 0x7;
        self.interface_on = true;
    }

    /// Enables an interrupt at a priority: writes the per-interrupt priority,
    /// sets the enable bit, and mirrors it in the bitmap. Fails with
    /// `InvalidParameter` for an identifier of 1024 or more, and with
    /// `AlreadyInState` when the interrupt is already enabled at a different
    /// priority without having been disabled first; a failed call changes
    /// nothing.
    pub fn enable_interrupt(&mut self, interrupt_id: u32, priority: InterruptPriority) -> (r:
        Result<(), KernelError>)
        requires
            old(self).wf(),
        ensures
            final(self).wf(),
            interrupt_id >= 1024 ==> r == Result::<(), KernelError>::Err(
                KernelError::InvalidParameter,
            ) && *final(self) == *old(self),
            interrupt_id < 1024 && enabled_in(old(self).enable_words(), interrupt_id as int)
                && old(self).spec_priorities()[interrupt_id as int] != priority.spec_value() ==> r
                == Result::<(), KernelError>::Err(KernelError::AlreadyInState) && *final(self)
                == *old(self),
            interrupt_id < 1024 && (!enabled_in(old(self).enable_words(), interrupt_id as int)
                || old(self).spec_priorities()[interrupt_id as int] == priority.spec_value()) ==> {
                &&& r is Ok
                &&& enabled_in(final(self).enable_words(), interrupt_id as int)
                &&& forall|j: int|
                    0 <= j < 1024 && j != interrupt_id ==> enabled_in(
                        final(self).enable_words(),
                        j,
                    ) == enabled_in(old(self).enable_words(), j)
                &&& final(self).spec_priorities() == old(self).spec_priorities().update(
                    interrupt_id as int,
                    priority.spec_value(),
                )
                &&& final(self).spec_targets() == old(self).spec_targets()
                &&& final(self).spec_handlers() == old(self).spec_handlers()
                &&& final(self).spec_pending() == old(self).spec_pending()
                &&& final(self).spec_active() == old(self).spec_active()
                &&& final(self).claims() == old(self).claims()
                &&& final(self).eois() == old(self).eois()
                &&& final(self).sgis() == old(self).sgis()
                &&& final(self).distributor_enabled() == old(self).distributor_enabled()
                &&& final(self).awake() == old(self).awake()
                &&& final(self).interface_enabled() == old(self).interface_enabled()
            },
    {
        if interrupt_id >= 1024 {
            return Err(KernelError::InvalidParameter);
        }
        let already = self.is_interrupt_enabled(interrupt_id);
        let word = (interrupt_id / 32) as usize;
        let bit = interrupt_id % 32;
        if already && self.priorities[interrupt_id as usize] != priority.value() {
            return Err(KernelError::AlreadyInState);
        }
        self.priorities.set(interrupt_id as usize, priority.value());
        let mask = 1u32 << bit;
        self.enabled_interrupts[word] = self.enabled_interrupts[word] | mask;
        proof {
            lemma_word_bit_set(
                old(self).enable_words()[interrupt_id as int / 32],
                interrupt_id % 32,
                interrupt_id % 32,
            );
            assert forall|j: int| 0 <= j < 1024 && j != interrupt_id implies enabled_in(
                final(self).enable_words(),
                j,
            ) == enabled_in(old(self).enable_words(), j) by {
                if j / 32 == interrupt_id as int / 32 {
                    lemma_id_word_bit_distinct(j, interrupt_id as int);
                    lemma_word_bit_set(
                        old(self).enable_words()[interrupt_id as int / 32],
                        interrupt_id % 32,
                        (j % 32) as u32,
                    );
                }
            }
        }
        Ok(())
    }

    /// Disables an interrupt: clears the enable bit in the register and the
    /// mirror bitmap. Fails with `InvalidParameter` for an identifier of
    /// 1024 or more, changing nothing.
    pub fn disable_interrupt(&mut self, interrupt_id: u32) -> (r: Result<(), KernelError>)
        requires
            old(self).wf(),
        ensures
            final(self).wf(),
            interrupt_id >= 1024 ==> r == Result::<(), KernelError>::Err(
                KernelError::InvalidParameter,
            ) && *final(self) == *old(self),
            interrupt_id < 1024 ==> {
                &&& r is Ok
                &&& !enabled_in(final(self).enable_words(), interrupt_id as int)
                &&& forall|j: int|
                    0 <= j < 1024 && j != interrupt_id ==> enabled_in(
                        final(self).enable_words(),
                        j,
                    ) == enabled_in(old(self).enable_words(), j)
                &&& final(self).spec_priorities() == old(self).spec_priorities()
                &&& final(self).spec_targets() == old(self).spec_targets()
                &&& final(self).spec_handlers() == old(self).spec_handlers()
                &&& final(self).spec_pending() == old(self).spec_pending()
                &&& final(self).spec_active() == old(self).spec_active()
                &&& final(self).claims() == old(self).claims()
                &&& final(self).eois() == old(self).eois()
                &&& final(self).sgis() == old(self).sgis()
                &&& final(self).distributor_enabled() == old(self).distributor_enabled()
                &&& final(self).awake() == old(self).awake()
                &&& final(self).interface_enabled() == old(self).interface_enabled()
            },
    {
        if interrupt_id >= 1024 {
            return Err(KernelError::InvalidParameter);
        }
        let word = (interrupt_id / 32) as usize;
        let bit = interrupt_id % 32;
        let mask = 1u32 << bit;
        self.enabled_interrupts[word] = self.enabled_interrupts[word] & !mask;
        proof {
            lemma_word_bit_clear(
                old(self).enable_words()[interrupt_id as int / 32],
                interrupt_id % 32,
                interrupt_id % 32,
            );
            assert forall|j: int| 0 <= j < 1024 && j != interrupt_id implies enabled_in(
                final(self).enable_words(),
                j,
            ) == enabled_in(old(self).enable_words(), j) by {
                if j / 32 == interrupt_id as int / 32 {
                    lemma_id_word_bit_distinct(j, interrupt_id as int);
                    lemma_word_bit_clear(
                        old(self).enable_words()[interrupt_id as int / 32],
                        interrupt_id % 32,
                        (j % 32) as u32,
                    );
                }
            }
        }
        Ok(())
    }

    /// Whether an interrupt is enabled: a constant-time read of the mirror
    /// bitmap. Identifiers of 1024 or more are never enabled.
    pub fn is_interrupt_enabled(&self, interrupt_id: u32) -> (r: bool)
        ensures
            r == (interrupt_id < 1024 && enabled_in(self.enable_words(), interrupt_id as int)),
    {
        if interrupt_id >= 1024 {
            return false;
        }
        let word = (interrupt_id / 32) as usize;
        let bit = interrupt_id % 32;
        (self.enabled_interrupts[word] & (1u32 << bit)) != 0
    }

    /// Routes an interrupt at the cores set in `cpu_mask`. Fails with
    /// `InvalidParameter` for an identifier of 1024 or more, changing
    /// nothing.
    pub fn set_interrupt_target(&mut self, interrupt_id: u32, cpu_mask: u8) -> (r: Result<
        (),
        KernelError,
    >)
        requires
            old(self).wf(),
        ensures
            final(self).wf(),
            interrupt_id >= 1024 ==> r == Result::<(), KernelError>::Err(
                KernelError::InvalidParameter,
            ) && *final(self) == *old(self),
            interrupt_id < 1024 ==> {
                &&& r is Ok
                &&& final(self).spec_targets() == old(self).spec_targets().update(
                    interrupt_id as int,
                    cpu_mask,
                )
                &&& final(self).enable_words() == old(self).enable_words()
                &&& final(self).spec_priorities() == old(self).spec_priorities()
                &&& final(self).spec_pending() == old(self).spec_pending()
                &&& final(self).spec_active() == old(self).spec_active()
                &&& final(self).claims() == old(self).claims()
                &&& final(self).eois() == old(self).eois()
                &&& final(self).sgis() == old(self).sgis()
            },
    {
        if interrupt_id >= 1024 {
            return Err(KernelError::InvalidParameter);
        }
        self.targets.set(interrupt_id as usize, cpu_mask);
        Ok(())
    }

    /// Registers a handler for an interrupt identifier, so that a claimed
    /// interrupt with this identifier is dispatched rather than dropped.
    /// Fails with `InvalidParameter` for an identifier of 1024 or more.
    pub fn register_interrupt_handler(&mut self, interrupt_id: u32) -> (r: Result<
        (),
        KernelError,
    >)
        requires
            old(self).wf(),
        ensures
            final(self).wf(),
            interrupt_id >= 1024 ==> r == Result::<(), KernelError>::Err(
                KernelError::InvalidParameter,
            ) && *final(self) == *old(self),
            interrupt_id < 1024 ==> {
                &&& r is Ok
                &&& final(self).spec_handlers() == old(self).spec_handlers().update(
                    interrupt_id as int,
                    true,
                )
                &&& final(self).enable_words() == old(self).enable_words()
                &&& final(self).spec_priorities() == old(self).spec_priorities()
                &&& final(self).spec_targets() == old(self).spec_targets()
                &&& final(self).spec_pending() == old(self).spec_pending()
                &&& final(self).spec_active() == old(self).spec_active()
                &&& final(self).claims() == old(self).claims()
                &&& final(self).eois() == old(self).eois()
                &&& final(self).sgis() == old(self).sgis()
                &&& final(self).distributor_enabled() == old(self).distributor_enabled()
                &&& final(self).awake() == old(self).awake()
                &&& final(self).interface_enabled() == old(self).interface_enabled()
            },
    {
        if interrupt_id >= 1024 {
            return Err(KernelError::InvalidParameter);
        }
        self.handlers.set(interrupt_id as usize, true);
        Ok(())
    }

    /// The hardware raising an interrupt: the identifier joins the queue of
    /// pending interrupts in claim order.
    pub fn raise_interrupt(&mut self, interrupt_id: u32)
        requires
            old(self).wf(),
            interrupt_id < SPURIOUS_INTERRUPT,
        ensures
            final(self).wf(),
            final(self).spec_pending() == old(self).spec_pending().push(interrupt_id),
            final(self).spec_active() == old(self).spec_active(),
            final(self).claims() == old(self).claims(),
            final(self).eois() == old(self).eois(),
            final(self).sgis() == old(self).sgis(),
            final(self).enable_words() == old(self).enable_words(),
            final(self).spec_priorities() == old(self).spec_priorities(),
            final(self).spec_handlers() == old(self).spec_handlers(),
    {
        self.pending.push(interrupt_id);
        proof {
            lemma_pending_wf_push(old(self).spec_pending(), interrupt_id);
        }
    }

    /// Claims the oldest pending interrupt: reads the acknowledge register,
    /// which hands out the identifier and makes it this core's outstanding
    /// claim; no other core can claim the same pending interrupt. With
    /// nothing pending the spurious identifier 1023 comes back and no claim
    /// is made. A new claim requires the previous one to have been retired
    /// by `end_interrupt`.
    pub fn get_interrupt_id(&mut self) -> (id: u32)
        requires
            old(self).wf(),
            old(self).spec_active() is None,
        ensures
            final(self).wf(),
            old(self).spec_pending().len() == 0 ==> id == SPURIOUS_INTERRUPT && *final(self)
                == *old(self),
            old(self).spec_pending().len() > 0 ==> {
                &&& id == old(self).spec_pending()[0]
                &&& final(self).spec_pending() == old(self).spec_pending().subrange(
                    1,
                    old(self).spec_pending().len() as int,
                )
                &&& final(self).spec_active() == Option::Some(id)
                &&& final(self).claims() == old(self).claims().push(id)
                &&& final(self).eois() == old(self).eois()
                &&& final(self).sgis() == old(self).sgis()
                &&& final(self).enable_words() == old(self).enable_words()
                &&& final(self).spec_priorities() == old(self).spec_priorities()
                &&& final(self).spec_handlers() == old(self).spec_handlers()
            },
    {
        if self.pending.len() == 0 {
            return SPURIOUS_INTERRUPT;
        }
        let id = self.pending.remove(0);
        self.active = Some(id);
        self.claim_log.push(id);
        proof {
            assert(old(self).spec_pending()[0] < SPURIOUS_INTERRUPT);
            lemma_pending_wf_tail(old(self).spec_pending());
        }
        id
    }

    /// Retires the outstanding claim: writes the end-of-interrupt register
    /// with the same identifier that `get_interrupt_id` handed out. The
    /// pairing is mandatory: only the claimed identifier may be written, and
    /// only while its claim is outstanding.
    pub fn end_interrupt(&mut self, interrupt_id: u32)
        requires
            old(self).wf(),
            old(self).spec_active() == Option::Some(interrupt_id),
        ensures
            final(self).wf(),
            final(self).spec_active() is None,
            final(self).eois() == old(self).eois().push(interrupt_id),
            final(self).claims() == old(self).claims(),
            final(self).sgis() == old(self).sgis(),
            final(self).spec_pending() == old(self).spec_pending(),
            final(self).enable_words() == old(self).enable_words(),
            final(self).spec_priorities() == old(self).spec_priorities(),
            final(self).spec_handlers() == old(self).spec_handlers(),
    {
        self.eoi_log.push(interrupt_id);
        self.active = None;
    }

    /// One full acknowledge cycle: claim the oldest pending interrupt, look
    /// up whether a handler is registered (an unregistered identifier is
    /// reported unhandled and dropped), and retire the claim. Returns the
    /// identifier and whether it was dispatched, or nothing when the queue
    /// was empty.
    pub fn handle_interrupt(&mut self) -> (r: Option<(u32, bool)>)
        requires
            old(self).wf(),
            old(self).spec_active() is None,
        ensures
            final(self).wf(),
            final(self).spec_active() is None,
            old(self).spec_pending().len() == 0 ==> r is None && *final(self) == *old(self),
            old(self).spec_pending().len() > 0 ==> {
                &&& r == Option::<(u32, bool)>::Some(
                    (
                        old(self).spec_pending()[0],
                        old(self).spec_handlers()[old(self).spec_pending()[0] as int],
                    ),
                )
                &&& final(self).spec_pending() == old(self).spec_pending().subrange(
                    1,
                    old(self).spec_pending().len() as int,
                )
                &&& final(self).claims() == old(self).claims().push(old(self).spec_pending()[0])
                &&& final(self).eois() == old(self).eois().push(old(self).spec_pending()[0])
                &&& final(self).sgis() == old(self).sgis()
                &&& final(self).enable_words() == old(self).enable_words()
                &&& final(self).spec_priorities() == old(self).spec_priorities()
                &&& final(self).spec_handlers() == old(self).spec_handlers()
            },
    {
        let id = self.get_interrupt_id();
        if id == SPURIOUS_INTERRUPT {
            return None;
        }
        let handled = self.handlers[id as usize];
        self.end_interrupt(id);
        Some((id, handled))
    }

    /// Drains the pending queue through full acknowledge cycles: every
    /// raised interrupt is claimed and retired exactly once, in order, so
    /// the claim and end-of-interrupt logs both grow by exactly the queue
    /// that was pending, and by nothing else.
    pub fn handle_pending_interrupts(&mut self) -> (count: usize)
        requires
            old(self).wf(),
            old(self).spec_active() is None,
        ensures
            final(self).wf(),
            final(self).spec_active() is None,
            count == old(self).spec_pending().len(),
            final(self).spec_pending().len() == 0,
            final(self).claims() == old(self).claims() + old(self).spec_pending(),
            final(self).eois() == old(self).eois() + old(self).spec_pending(),
            final(self).sgis() == old(self).sgis(),
            final(self).enable_words() == old(self).enable_words(),
            final(self).spec_priorities() == old(self).spec_priorities(),
            final(self).spec_handlers() == old(self).spec_handlers(),
    {
        let count = self.pending.len();
        let ghost mut processed: int = 0;
        loop
            invariant
                self.wf(),
                self.spec_active() is None,
                count == old(self).spec_pending().len(),
                0 <= processed <= count,
                processed == old(self).spec_pending().len() - self.spec_pending().len(),
                self.spec_pending() == old(self).spec_pending().subrange(
                    processed,
                    old(self).spec_pending().len() as int,
                ),
                self.claims() == old(self).claims() + old(self).spec_pending().subrange(
                    0,
                    processed,
                ),
                self.eois() == old(self).eois() + old(self).spec_pending().subrange(0, processed),
                self.sgis() == old(self).sgis(),
                self.enable_words() == old(self).enable_words(),
                self.spec_priorities() == old(self).spec_priorities(),
                self.spec_handlers() == old(self).spec_handlers(),
            ensures
                self.spec_pending().len() == 0,
            decreases self.spec_pending().len(),
        {
            let ghost pending_before = self.spec_pending();
            let step = self.handle_interrupt();
            if step.is_none() {
                break ;
            }
            proof {
                assert(old(self).spec_pending().subrange(processed + 1, old(
                    self,
                ).spec_pending().len() as int) =~= pending_before.subrange(
                    1,
                    pending_before.len() as int,
                ));
                assert(old(self).spec_pending().subrange(0, processed + 1)
                    =~= old(self).spec_pending().subrange(0, processed).push(pending_before[0]));
                processed = processed + 1;
            }
        }
        proof {
            assert(old(self).spec_pending().subrange(0, processed) =~= old(self).spec_pending());
        }
        count
    }

    /// Sends a software-generated interrupt to a target core: the mechanism
    /// by which one core asks another to re-enter its rebalancing pass. The
    /// write to the software-interrupt register records the target-core mask
    /// and the identifier, and the interrupt joins the pending queue. Only
    /// identifiers 0 to 15, the software-generated range, are accepted;
    /// anything else fails with `InvalidParameter` and changes nothing.
    pub fn send_software_interrupt(&mut self, target_cpu: u8, interrupt_id: u8) -> (r: Result<
        (),
        KernelError,
    >)
        requires
            old(self).wf(),
        ensures
            final(self).wf(),
            interrupt_id < SGI_LIMIT ==> {
                &&& r is Ok
                &&& final(self).spec_pending() == old(self).spec_pending().push(
                    interrupt_id as u32,
                )
                &&& final(self).sgis() == old(self).sgis().push((target_cpu, interrupt_id))
                &&& final(self).spec_active() == old(self).spec_active()
                &&& final(self).claims() == old(self).claims()
                &&& final(self).eois() == old(self).eois()
            },
            interrupt_id >= SGI_LIMIT ==> r == Result::<(), KernelError>::Err(
                KernelError::InvalidParameter,
            ) && *final(self) == *old(self),
    {
        if interrupt_id < SGI_LIMIT {
            self.pending.push(interrupt_id as u32);
            self.sgi_log.push((target_cpu, interrupt_id));
            proof {
                lemma_pending_wf_push(old(self).spec_pending(), interrupt_id as u32);
            }
            Ok(())
        } else {
            Err(KernelError::InvalidParameter)
        }
    }

    /// How many interrupts are raised and not yet claimed.
    pub fn pending_count(&self) -> (n: usize)
        ensures
            n == self.spec_pending().len(),
    {
        self.pending.len()
    }

    /// How many claims have been made over the manager's lifetime.
    pub fn claim_count(&self) -> (n: usize)
        ensures
            n == self.claims().len(),
    {
        self.claim_log.len()
    }

    /// How many end-of-interrupt writes have been made over the manager's
    /// lifetime.
    pub fn eoi_count(&self) -> (n: usize)
        ensures
            n == self.eois().len(),
    {
        self.eoi_log.len()
    }

    /// The software-interrupt request at position `i` of the request log:
    /// the target-core mask and the identifier.
    pub fn sgi_request(&self, i: usize) -> (r: Option<(u8, u8)>)
        ensures
            i < self.sgis().len() ==> r == Some(self.sgis()[i as int]),
            i >= self.sgis().len() ==> r is None,
    {
        if i < self.sgi_log.len() {
            Some(self.sgi_log[i])
        } else {
            None
        }
    }

    /// How many software-interrupt requests have been made.
    pub fn sgi_count(&self) -> (n: usize)
        ensures
            n == self.sgis().len(),
    {
        self.sgi_log.len()
    }
}

/// No bit is set in a zero word.
proof fn lemma_zero_word_bit(k: u32)
    requires
        k < 32,
    ensures
        0u32 & (1u32 << k) == 0,
{
    assert(0u32 & (1u32 << k) == 0) by (bit_vector);
}

/// Two distinct identifiers in the same enable word use distinct bits.
proof fn lemma_id_word_bit_distinct(a: int, b: int)
    requires
        0 <= a,
        0 <= b,
        a != b,
        a / 32 == b / 32,
    ensures
        a % 32 != b % 32,
{
    vstd::arithmetic::div_mod::lemma_fundamental_div_mod(a, 32);
    vstd::arithmetic::div_mod::lemma_fundamental_div_mod(b, 32);
}

/// Boot-time interrupt-system initialisation: a fully initialised manager
/// with the platform's timer interrupt enabled at the most urgent priority
/// and the console interrupt enabled at the default priority, both with
/// registered handlers. The boot path treats the redistributor as
/// acknowledging its wake within the poll budget; a platform whose
/// redistributor times out fails `GicManager::init` instead.
pub fn init() -> (g: GicManager)
    ensures
        g.wf(),
        g.distributor_enabled(),
        g.awake(),
        g.interface_enabled(),
        enabled_in(g.enable_words(), 27),
        enabled_in(g.enable_words(), 32),
        g.spec_priorities()[27] == 0,
        g.spec_priorities()[32] == 0x80,
        g.spec_handlers()[27],
        g.spec_handlers()[32],
{
    let mut manager = GicManager::new();
    let _brought_up = manager.init(true);
    proof {
        lemma_zero_word_bit(27);
        lemma_zero_word_bit(0);
        assert(!enabled_in(manager.enable_words(), 27));
        assert(!enabled_in(manager.enable_words(), 32));
    }
    let _timer = manager.enable_interrupt(27, InterruptPriority::highest());
    let _console = manager.enable_interrupt(32, InterruptPriority::default_priority());
    let _timer_handler = manager.register_interrupt_handler(27);
    let _console_handler = manager.register_interrupt_handler(32);
    manager
}

} // verus!
