//! The DMA engine: buffer descriptors, lockable zero-copy buffers, channel
//! allocation and the transfer lifecycle, modelled at the register level.

use vstd::prelude::*;

verus! {

/// Direction of a transfer.
#[derive(Debug, Clone, Copy, PartialEq, Eq, Structural)]
pub enum DmaDirection {
    MemoryToMemory,
    MemoryToDevice,
    DeviceToMemory,
    DeviceToDevice,
}

/// Transfer shape.
#[derive(Debug, Clone, Copy, PartialEq, Eq, Structural)]
pub enum DmaMode {
    Single,
    Circular,
    ScatterGather,
}

/// The direction field of a descriptor's control word.
pub open spec fn direction_code(direction: DmaDirection) -> u32 {
    match direction {
        DmaDirection::MemoryToMemory => 0,
        DmaDirection::MemoryToDevice => 1,
        DmaDirection::DeviceToMemory => 2,
        DmaDirection::DeviceToDevice => 3,
    }
}

/// The mode field of a descriptor's control word, at bits 2 and 3.
pub open spec fn mode_code(mode: DmaMode) -> u32 {
    match mode {
        DmaMode::Single => 0,
        DmaMode::Circular => 1,
        DmaMode::ScatterGather => 2,
    }
}

/// A configured descriptor's control word: the direction field, the mode
/// field at bit 2, and the valid bit at bit 31.
pub open spec fn control_word(direction: DmaDirection, mode: DmaMode) -> u32 {
    direction_code(direction) | (mode_code(mode) << 2) | 0x8000_0000
}

/// A transfer descriptor, as the engine reads it.
#[derive(Debug, Clone, Copy, PartialEq, Eq, Structural)]
pub struct DmaDescriptor {
    pub source_addr: u64,
    pub destination_addr: u64,
    pub transfer_size: u32,
    pub control: u32,
    pub next_descriptor: u64,
    pub status: u32,
}

impl DmaDescriptor {
    /// A cleared descriptor.
    pub fn new() -> (d: DmaDescriptor)
        ensures
            d.source_addr == 0,
            d.destination_addr == 0,
            d.transfer_size == 0,
            d.control == 0,
            d.next_descriptor == 0,
            d.status == 0,
    {
        DmaDescriptor {
            source_addr: 0,
            destination_addr: 0,
            transfer_size: 0,
            control: 0,
            next_descriptor: 0,
            status: 0,
        }
    }

    /// Programs the descriptor: addresses, size, and the control word with
    /// direction, mode and the valid bit.
    pub fn configure(&mut self, source: u64, dest: u64, size: u32, direction: DmaDirection, mode: DmaMode)
        ensures
            final(self).source_addr == source,
            final(self).destination_addr == dest,
            final(self).transfer_size == size,
            final(self).control == control_word(direction, mode),
            final(self).next_descriptor == old(self).next_descriptor,
            final(self).status == old(self).status,
    {
        self.source_addr = source;
        self.destination_addr = dest;
        self.transfer_size = size;
        let dir_bits: u32 = match direction {
            DmaDirection::MemoryToMemory => 0,
            DmaDirection::MemoryToDevice => 1,
            DmaDirection::DeviceToMemory => 2,
            DmaDirection::DeviceToDevice => 3,
        };
        let mode_bits: u32 = match mode {
            DmaMode::Single => 0,
            DmaMode::Circular => 1,
            DmaMode::ScatterGather => 2,
        };
        self.control = dir_bits | (mode_bits << 2) | 0x8000_0000;
    }
}

/// A zero-copy transfer buffer: a block of device-visible memory with its
/// physical and virtual addresses and a lock that pins it during transfers.
pub struct DmaBuffer {
    physical_addr: u64,
    virtual_addr: u64,
    contents: Vec<u8>,
    locked: bool,
}

impl DmaBuffer {
    /// The buffer's physical address.
    pub closed spec fn spec_physical(&self) -> u64 {
        self.physical_addr
    }

    /// The buffer's virtual address.
    pub closed spec fn spec_virtual(&self) -> u64 {
        self.virtual_addr
    }

    /// The buffer's bytes.
    pub closed spec fn data(&self) -> Seq<u8> {
        self.contents@
    }

    /// Whether the buffer is pinned.
    pub closed spec fn spec_locked(&self) -> bool {
        self.locked
    }

    /// Allocates a zeroed, cache-line-aligned buffer of `size` bytes.
    pub fn new(size: usize) -> (r: Result<DmaBuffer, &'static str>)
        ensures
            r matches Ok(b) ==> b.data().len() == size && !b.spec_locked() && forall|i: int|
                0 <= i < size ==> #[trigger] b.data()[i] == 0,
    {
        let mut contents: Vec<u8> = Vec::new();
        let mut i: usize = 0;
        while i < size
            invariant
                0 <= i <= size,
                contents@.len() == i,
                forall|j: int| 0 <= j < i ==> #[trigger] contents@[j] == 0,
            decreases size - i,
        {
            contents.push(0);
            i = i + 1;
        }
        Ok(DmaBuffer { physical_addr: 0, virtual_addr: 0, contents, locked: false })
    }

    /// Pins the buffer so the transfer can rely on it staying resident.
    /// Fails when it is already pinned, changing nothing.
    pub fn lock(&mut self) -> (r: Result<(), &'static str>)
        ensures
            old(self).spec_locked() ==> r is Err && *final(self) == *old(self),
            !old(self).spec_locked() ==> r is Ok && final(self).spec_locked() && final(self).data()
                == old(self).data(),
    {
        if self.locked {
            return Err("buffer already locked");
        }
        self.locked = true;
        Ok(())
    }

    /// Unpins the buffer.
    pub fn unlock(&mut self)
        ensures
            !final(self).spec_locked(),
            final(self).data() == old(self).data(),
    {
        self.locked = false;
    }

    /// The buffer's physical address.
    pub fn physical_address(&self) -> (a: u64)
        ensures
            a == self.spec_physical(),
    {
        self.physical_addr
    }

    /// The buffer's virtual address.
    pub fn virtual_address(&self) -> (a: u64)
        ensures
            a == self.spec_virtual(),
    {
        self.virtual_addr
    }

    /// The buffer's size in bytes.
    pub fn size(&self) -> (s: usize)
        ensures
            s == self.data().len(),
    {
        self.contents.len()
    }

    /// Writes one byte of the buffer.
    pub fn write_byte(&mut self, offset: usize, value: u8)
        requires
            offset < old(self).data().len(),
        ensures
            final(self).data() == old(self).data().update(offset as int, value),
            final(self).spec_locked() == old(self).spec_locked(),
            final(self).spec_physical() == old(self).spec_physical(),
            final(self).spec_virtual() == old(self).spec_virtual(),
    {
        self.contents.set(offset, value);
    }

    /// Reads one byte of the buffer.
    pub fn read_byte(&self, offset: usize) -> (v: u8)
        requires
            offset < self.data().len(),
        ensures
            v == self.data()[offset as int],
    {
        self.contents[offset]
    }
}

/// A zero-copy transfer: one descriptor, one pinned buffer, one direction.
pub struct ZeroCopyTransfer {
    descriptor: DmaDescriptor,
    buffer: DmaBuffer,
    direction: DmaDirection,
    completed: bool,
}

impl ZeroCopyTransfer {
    /// The descriptor as programmed.
    pub closed spec fn spec_descriptor(&self) -> DmaDescriptor {
        self.descriptor
    }

    /// The transfer's direction.
    pub closed spec fn spec_direction(&self) -> DmaDirection {
        self.direction
    }

    /// Whether the engine has completed the transfer.
    pub closed spec fn spec_completed(&self) -> bool {
        self.completed
    }

    /// The pinned buffer's bytes.
    pub closed spec fn buffer_data(&self) -> Seq<u8> {
        self.buffer.data()
    }

    /// The pinned buffer.
    pub closed spec fn spec_buffer(&self) -> DmaBuffer {
        self.buffer
    }

    /// Allocates and pins a buffer for a transfer in `direction`.
    pub fn new(buffer_size: usize, direction: DmaDirection) -> (r: Result<
        ZeroCopyTransfer,
        &'static str,
    >)
        ensures
            r matches Ok(t) ==> t.spec_direction() == direction && t.buffer_data().len()
                == buffer_size && !t.spec_completed() && t.spec_descriptor().control == 0,
    {
        let mut buffer = match DmaBuffer::new(buffer_size) {
            Ok(b) => b,
            Err(e) => {
                return Err(e);
            },
        };
        match buffer.lock() {
            Ok(()) => {},
            Err(e) => {
                return Err(e);
            },
        }
        Ok(ZeroCopyTransfer { descriptor: DmaDescriptor::new(), buffer, direction, completed: false })
    }

    /// Programs the transfer's descriptor with the addresses, the size, the
    /// transfer's own direction and the given mode.
    pub fn configure(&mut self, source: u64, dest: u64, size: u32, mode: DmaMode)
        ensures
            final(self).spec_descriptor().source_addr == source,
            final(self).spec_descriptor().destination_addr == dest,
            final(self).spec_descriptor().transfer_size == size,
            final(self).spec_descriptor().control == control_word(
                old(self).spec_direction(),
                mode,
            ),
            final(self).spec_direction() == old(self).spec_direction(),
            final(self).buffer_data() == old(self).buffer_data(),
            final(self).spec_completed() == old(self).spec_completed(),
    {
        let direction = self.direction;
        self.descriptor.configure(source, dest, size, direction, mode);
    }

    /// Kicks the engine: the programmed block is moved and the transfer
    /// reports complete.
    pub fn start(&mut self) -> (r: Result<(), &'static str>)
        ensures
            r is Ok,
            final(self).spec_completed(),
            final(self).spec_descriptor() == old(self).spec_descriptor(),
            final(self).spec_direction() == old(self).spec_direction(),
            final(self).buffer_data() == old(self).buffer_data(),
    {
        self.completed = true;
        Ok(())
    }

    /// Waits, within the poll budget, for the engine to report completion.
    /// Fails with a timeout exactly when the transfer was never started.
    pub fn wait_completion(&self) -> (r: Result<(), &'static str>)
        ensures
            self.spec_completed() ==> r is Ok,
            !self.spec_completed() ==> r is Err,
    {
        if self.completed {
            Ok(())
        } else {
            Err("transfer timed out")
        }
    }

    /// The pinned buffer.
    pub fn buffer(&self) -> (b: &DmaBuffer)
        ensures
            b.data() == self.buffer_data(),
    {
        &self.buffer
    }

    /// The pinned buffer, writable.
    pub fn buffer_mut(&mut self) -> (b: &mut DmaBuffer)
        ensures
            *b == old(self).spec_buffer(),
            final(self).spec_buffer() == *final(b),
            final(self).spec_descriptor() == old(self).spec_descriptor(),
            final(self).spec_direction() == old(self).spec_direction(),
            final(self).spec_completed() == old(self).spec_completed(),
    {
        &mut self.buffer
    }
}

/// One transfer channel of the engine.
pub struct DmaChannel {
    channel_id: u8,
    busy: bool,
    current_transfer: Option<ZeroCopyTransfer>,
}

impl DmaChannel {
    /// The channel's number.
    pub closed spec fn spec_id(&self) -> u8 {
        self.channel_id
    }

    /// Whether a transfer is in flight.
    pub closed spec fn spec_busy(&self) -> bool {
        self.busy
    }

    /// The transfer in flight, if any.
    pub closed spec fn spec_current(&self) -> Option<ZeroCopyTransfer> {
        self.current_transfer
    }

    /// An idle channel.
    pub fn new(channel_id: u8) -> (c: DmaChannel)
        ensures
            c.spec_id() == channel_id,
            !c.spec_busy(),
            c.spec_current() is None,
    {
        DmaChannel { channel_id, busy: false, current_transfer: None }
    }

    /// Claims the channel and starts a zero-copy transfer on it. Fails,
    /// changing nothing, when the channel is already busy.
    pub fn start_zero_copy(&mut self, transfer: ZeroCopyTransfer) -> (r: Result<(), &'static str>)
        ensures
            old(self).spec_busy() ==> r is Err && final(self).spec_busy() && final(self).spec_id()
                == old(self).spec_id(),
            !old(self).spec_busy() ==> {
                &&& r is Ok
                &&& final(self).spec_busy()
                &&& final(self).spec_current() matches Some(t) && t.spec_completed()
                &&& final(self).spec_id() == old(self).spec_id()
            },
    {
        if self.busy {
            return Err("channel busy");
        }
        self.busy = true;
        let mut started = transfer;
        let _kicked = started.start();
        self.current_transfer = Some(started);
        Ok(())
    }

    /// Waits for the transfer in flight and releases the channel.
    pub fn wait_completion(&mut self) -> (r: Result<(), &'static str>)
        ensures
            r is Ok,
            !final(self).spec_busy(),
            final(self).spec_current() is None,
            final(self).spec_id() == old(self).spec_id(),
    {
        self.busy = false;
        self.current_transfer = None;
        Ok(())
    }

    /// Whether a transfer is in flight.
    pub fn is_busy(&self) -> (r: bool)
        ensures
            r == self.spec_busy(),
    {
        self.busy
    }
}

/// The DMA engine: eight channels behind one enable bit.
pub struct DmaController {
    channels: Vec<DmaChannel>,
    enabled: bool,
}

impl DmaController {
    /// The channels.
    pub closed spec fn spec_channels(&self) -> Seq<DmaChannel> {
        self.channels@
    }

    /// Whether the engine is enabled.
    pub closed spec fn spec_enabled(&self) -> bool {
        self.enabled
    }

    /// The engine always has its eight channels.
    pub open spec fn wf(&self) -> bool {
        self.spec_channels().len() == 8
    }

    /// A disabled engine with eight idle channels.
    pub fn new() -> (c: DmaController)
        ensures
            c.wf(),
            !c.spec_enabled(),
            forall|i: int| 0 <= i < 8 ==> !(#[trigger] c.spec_channels()[i]).spec_busy(),
            forall|i: int| 0 <= i < 8 ==> (#[trigger] c.spec_channels()[i]).spec_id() == i,
    {
        let mut channels: Vec<DmaChannel> = Vec::new();
        let mut i: u8 = 0;
        while i < 8
            invariant
                0 <= i <= 8,
                channels@.len() == i as int,
                forall|j: int| 0 <= j < i as int ==> !(#[trigger] channels@[j]).spec_busy(),
                forall|j: int| 0 <= j < i as int ==> (#[trigger] channels@[j]).spec_id() == j,
            decreases 8 - i,
        {
            channels.push(DmaChannel::new(i));
            i = i + 1;
        }
        DmaController { channels, enabled: false }
    }

    /// Enables the engine.
    pub fn init(&mut self) -> (r: Result<(), &'static str>)
        requires
            old(self).wf(),
        ensures
            r is Ok,
            final(self).wf(),
            final(self).spec_enabled(),
            final(self).spec_channels() == old(self).spec_channels(),
    {
        self.enabled = true;
        Ok(())
    }

    /// The number of the lowest idle channel, or nothing when every channel
    /// is busy.
    pub fn get_available_channel(&self) -> (r: Option<u8>)
        requires
            self.wf(),
        ensures
            match r {
                Some(id) => id < 8 && !self.spec_channels()[id as int].spec_busy(),
                None => forall|i: int|
                    0 <= i < 8 ==> (#[trigger] self.spec_channels()[i]).spec_busy(),
            },
    {
        let mut i: usize = 0;
        while i < 8
            invariant
                self.wf(),
                0 <= i <= 8,
                forall|j: int| 0 <= j < i ==> (#[trigger] self.spec_channels()[j]).spec_busy(),
            decreases 8 - i,
        {
            if !self.channels[i].is_busy() {
                return Some(i as u8);
            }
            i = i + 1;
        }
        None
    }

    /// A view of channel `channel_id`, when it exists.
    pub fn get_channel(&self, channel_id: u8) -> (r: Option<&DmaChannel>)
        requires
            self.wf(),
        ensures
            channel_id < 8 ==> (r matches Some(c) && *c == self.spec_channels()[
                channel_id as int
            ]),
            channel_id >= 8 ==> r is None,
    {
        if channel_id < 8 {
            Some(&self.channels[channel_id as usize])
        } else {
            None
        }
    }

    /// Claims channel `channel_id` and starts a transfer on it; see
    /// `DmaChannel::start_zero_copy`. Fails when the channel does not exist
    /// or is busy.
    pub fn start_on_channel(&mut self, channel_id: u8, transfer: ZeroCopyTransfer) -> (r: Result<
        (),
        &'static str,
    >)
        requires
            old(self).wf(),
        ensures
            final(self).wf(),
            final(self).spec_enabled() == old(self).spec_enabled(),
            channel_id < 8 && !old(self).spec_channels()[channel_id as int].spec_busy() ==> r
                is Ok && final(self).spec_channels()[channel_id as int].spec_busy(),
            channel_id >= 8 ==> r is Err && *final(self) == *old(self),
    {
        if channel_id >= 8 {
            return Err("no such channel");
        }
        let mut channel = self.channels.remove(channel_id as usize);
        let r = channel.start_zero_copy(transfer);
        self.channels.insert(channel_id as usize, channel);
        proof {
            assert(self.channels@.len() == 8);
        }
        r
    }

    /// Waits out the transfer on channel `channel_id` and releases it; see
    /// `DmaChannel::wait_completion`.
    pub fn wait_on_channel(&mut self, channel_id: u8) -> (r: Result<(), &'static str>)
        requires
            old(self).wf(),
        ensures
            final(self).wf(),
            final(self).spec_enabled() == old(self).spec_enabled(),
            channel_id < 8 ==> r is Ok && !final(self).spec_channels()[channel_id as int]
                .spec_busy(),
            channel_id >= 8 ==> r is Err && *final(self) == *old(self),
    {
        if channel_id >= 8 {
            return Err("no such channel");
        }
        let mut channel = self.channels.remove(channel_id as usize);
        let r = channel.wait_completion();
        self.channels.insert(channel_id as usize, channel);
        r
    }

    /// Whether the engine is enabled.
    pub fn is_enabled(&self) -> (r: bool)
        ensures
            r == self.spec_enabled(),
    {
        self.enabled
    }
}

/// The completion poll of an asynchronous transfer: ready exactly when the
/// polled channel has no transfer in flight.
pub struct DmaTransferFuture {
    channel_id: u8,
    completed: bool,
}

impl DmaTransferFuture {
    /// Whether the future has observed completion.
    pub closed spec fn spec_completed(&self) -> bool {
        self.completed
    }

    /// A poll handle over a channel, ready exactly when the channel is
    /// already idle.
    pub fn new(channel: &DmaChannel) -> (f: DmaTransferFuture)
        ensures
            f.spec_completed() == !channel.spec_busy(),
    {
        DmaTransferFuture { channel_id: channel.channel_id, completed: !channel.is_busy() }
    }

    /// One poll step: observes the channel and becomes ready when it is
    /// idle.
    pub fn poll_channel(&mut self, channel: &DmaChannel) -> (ready: bool)
        ensures
            ready == (old(self).spec_completed() || !channel.spec_busy()),
            final(self).spec_completed() == (old(self).spec_completed() || !channel.spec_busy()),
    {
        if self.completed {
            return true;
        }
        if !channel.is_busy() {
            self.completed = true;
            return true;
        }
        false
    }
}

/// Boot-time construction and enabling of the DMA engine.
pub fn init_dma_controller() -> (r: Result<DmaController, &'static str>)
    ensures
        r matches Ok(c) ==> c.wf() && c.spec_enabled(),
{
    let mut controller = DmaController::new();
    match controller.init() {
        Ok(()) => Ok(controller),
        Err(e) => Err(e),
    }
}

} // verus!
