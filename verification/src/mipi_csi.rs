//! The camera-interface driver: per-channel configuration, the streaming
//! lifecycle and zero-copy frame capture, modelled at the register level.

use vstd::prelude::*;
use crate::errors::KernelError;

verus! {

/// Pixel format on the serial camera lanes.
#[derive(Debug, Clone, Copy, PartialEq, Eq, Structural)]
pub enum PixelFormat {
    RAW8,
    RAW10,
    RAW12,
    RGB888,
    YUV422,
    YUV420,
}

/// Lifecycle state of one channel.
#[derive(Debug, Clone, Copy, PartialEq, Eq, Structural)]
pub enum CsiChannelState {
    Idle,
    Configuring,
    Streaming,
    Error,
}

/// Channel configuration.
#[derive(Debug, Clone, Copy, PartialEq, Eq, Structural)]
pub struct MipiCsiConfig {
    /// Serial lanes in use: 1, 2 or 4.
    pub lane_count: u8,
    /// Lane data rate in Mbps.
    pub data_rate: u32,
    pub image_width: u32,
    pub image_height: u32,
    pub pixel_format: PixelFormat,
    pub frame_rate: u32,
    /// Whether frames land in DMA buffers without a copy.
    pub zero_copy: bool,
    pub hdr_mode: bool,
}

/// Description of one captured frame.
#[derive(Debug, Clone, Copy, PartialEq, Eq, Structural)]
pub struct CsiFrameInfo {
    pub width: u32,
    pub height: u32,
    pub format: PixelFormat,
    pub timestamp: u64,
    pub frame_number: u32,
    /// Exposure in microseconds.
    pub exposure_time: u32,
}

/// Bytes each pixel of a format occupies in memory (sub-byte formats are
/// stored widened).
pub open spec fn pixel_bytes(format: PixelFormat) -> u32 {
    match format {
        PixelFormat::RAW8 => 1,
        PixelFormat::RAW10 => 2,
        PixelFormat::RAW12 => 2,
        PixelFormat::RGB888 => 3,
        PixelFormat::YUV422 => 2,
        PixelFormat::YUV420 => 1,
    }
}

/// Bytes one frame of a configuration occupies.
pub open spec fn frame_size_of(config: MipiCsiConfig) -> int {
    config.image_width * config.image_height * pixel_bytes(config.pixel_format)
}

/// One camera channel: configuration, lifecycle state and frame counter.
pub struct MipiCsiChannel {
    channel_id: u8,
    base_address: u64,
    config: MipiCsiConfig,
    state: CsiChannelState,
    dma_enabled: bool,
    current_frame: u32,
}

impl MipiCsiChannel {
    /// The channel number.
    pub closed spec fn spec_id(&self) -> u8 {
        self.channel_id
    }

    /// The configuration.
    pub closed spec fn spec_config(&self) -> MipiCsiConfig {
        self.config
    }

    /// The lifecycle state.
    pub closed spec fn spec_state(&self) -> CsiChannelState {
        self.state
    }

    /// Whether zero-copy DMA is enabled.
    pub closed spec fn spec_dma(&self) -> bool {
        self.dma_enabled
    }

    /// How many frames have been captured.
    pub closed spec fn spec_frames(&self) -> u32 {
        self.current_frame
    }

    /// A channel at a register base with a configuration, idle, no DMA, no
    /// frames captured.
    pub fn new(channel_id: u8, base_address: u64, config: MipiCsiConfig) -> (c: MipiCsiChannel)
        ensures
            c.spec_id() == channel_id,
            c.spec_config() == config,
            c.spec_state() == CsiChannelState::Idle,
            !c.spec_dma(),
            c.spec_frames() == 0,
    {
        MipiCsiChannel {
            channel_id,
            base_address,
            config,
            state: CsiChannelState::Idle,
            dma_enabled: false,
            current_frame: 0,
        }
    }

    /// Configures the channel hardware and, for a zero-copy configuration,
    /// enables DMA. Fails with `InvalidParameter`, changing nothing, unless
    /// the channel is idle.
    pub fn configure(&mut self) -> (r: Result<(), KernelError>)
        ensures
            old(self).spec_state() != CsiChannelState::Idle ==> r == Result::<
                (),
                KernelError,
            >::Err(KernelError::InvalidParameter) && *final(self) == *old(self),
            old(self).spec_state() == CsiChannelState::Idle ==> {
                &&& r is Ok
                &&& final(self).spec_state() == CsiChannelState::Idle
                &&& final(self).spec_dma() == old(self).spec_config().zero_copy
                &&& final(self).spec_config() == old(self).spec_config()
                &&& final(self).spec_frames() == old(self).spec_frames()
            },
    {
        if !matches!(self.state, CsiChannelState::Idle) {
            return Err(KernelError::InvalidParameter);
        }
        self.state = CsiChannelState::Configuring;
        if self.config.zero_copy {
            self.dma_enabled = true;
        } else {
            self.dma_enabled = false;
        }
        self.state = CsiChannelState::Idle;
        Ok(())
    }

    /// Starts streaming. Fails with `InvalidParameter`, changing nothing,
    /// unless the channel is idle.
    pub fn start_stream(&mut self) -> (r: Result<(), KernelError>)
        ensures
            old(self).spec_state() != CsiChannelState::Idle ==> r == Result::<
                (),
                KernelError,
            >::Err(KernelError::InvalidParameter) && *final(self) == *old(self),
            old(self).spec_state() == CsiChannelState::Idle ==> r is Ok && final(self).spec_state()
                == CsiChannelState::Streaming && final(self).spec_config() == old(
                self,
            ).spec_config() && final(self).spec_dma() == old(self).spec_dma() && final(self).spec_frames() == old(self).spec_frames(),
    {
        if !matches!(self.state, CsiChannelState::Idle) {
            return Err(KernelError::InvalidParameter);
        }
        self.state = CsiChannelState::Streaming;
        Ok(())
    }

    /// Stops streaming; stopping a channel that is not streaming is a no-op
    /// success.
    pub fn stop_stream(&mut self) -> (r: Result<(), KernelError>)
        ensures
            r is Ok,
            old(self).spec_state() == CsiChannelState::Streaming ==> final(self).spec_state()
                == CsiChannelState::Idle,
            old(self).spec_state() != CsiChannelState::Streaming ==> *final(self) == *old(self),
            final(self).spec_config() == old(self).spec_config(),
            final(self).spec_frames() == old(self).spec_frames(),
    {
        if !matches!(self.state, CsiChannelState::Streaming) {
            return Ok(());
        }
        self.state = CsiChannelState::Idle;
        Ok(())
    }

    /// Captures one frame over the zero-copy path and describes it. Fails
    /// with `InvalidParameter` unless the channel is streaming, and with
    /// `HardwareTimeout` when DMA was never enabled (the legacy copy path is
    /// not wired); a failed call changes nothing.
    pub fn capture_frame(&mut self, timestamp: u64) -> (r: Result<CsiFrameInfo, KernelError>)
        requires
            old(self).spec_frames() < u32::MAX,
        ensures
            old(self).spec_state() != CsiChannelState::Streaming ==> r == Result::<
                CsiFrameInfo,
                KernelError,
            >::Err(KernelError::InvalidParameter) && *final(self) == *old(self),
            old(self).spec_state() == CsiChannelState::Streaming && !old(self).spec_dma() ==> r
                == Result::<CsiFrameInfo, KernelError>::Err(KernelError::HardwareTimeout)
                && *final(self) == *old(self),
            old(self).spec_state() == CsiChannelState::Streaming && old(self).spec_dma() ==> {
                &&& final(self).spec_frames() == old(self).spec_frames() + 1
                &&& (r matches Ok(info) && info.width == old(self).spec_config().image_width
                    && info.height == old(self).spec_config().image_height && info.format == old(
                    self,
                ).spec_config().pixel_format && info.timestamp == timestamp && info.frame_number
                    == old(self).spec_frames() + 1)
                &&& final(self).spec_state() == CsiChannelState::Streaming
            },
    {
        if !matches!(self.state, CsiChannelState::Streaming) {
            return Err(KernelError::InvalidParameter);
        }
        if !self.dma_enabled {
            return Err(KernelError::HardwareTimeout);
        }
        self.current_frame = self.current_frame + 1;
        Ok(
            CsiFrameInfo {
                width: self.config.image_width,
                height: self.config.image_height,
                format: self.config.pixel_format,
                timestamp,
                frame_number: self.current_frame,
                exposure_time: 1000,
            },
        )
    }

    /// Enables the zero-copy DMA path. Fails, changing nothing, when the
    /// configuration did not ask for zero copy.
    pub fn enable_dma(&mut self) -> (r: Result<(), KernelError>)
        ensures
            !old(self).spec_config().zero_copy ==> r == Result::<(), KernelError>::Err(
                KernelError::InvalidParameter,
            ) && *final(self) == *old(self),
            old(self).spec_config().zero_copy ==> r is Ok && final(self).spec_dma() && final(self).spec_state() == old(self).spec_state() && final(self).spec_config() == old(
                self,
            ).spec_config() && final(self).spec_frames() == old(self).spec_frames(),
    {
        if !self.config.zero_copy {
            return Err(KernelError::InvalidParameter);
        }
        self.dma_enabled = true;
        Ok(())
    }

    /// The frame size of the current configuration, in bytes: width by
    /// height by the pixel's storage size.
    pub fn frame_size(&self) -> (s: u64)
        requires
            frame_size_of(self.spec_config()) <= u64::MAX,
        ensures
            s == frame_size_of(self.spec_config()),
    {
        let pixel_size: u32 = match self.config.pixel_format {
            PixelFormat::RAW8 => 1,
            PixelFormat::RAW10 => 2,
            PixelFormat::RAW12 => 2,
            PixelFormat::RGB888 => 3,
            PixelFormat::YUV422 => 2,
            PixelFormat::YUV420 => 1,
        };
        proof {
            let w = self.config.image_width as int;
            let h = self.config.image_height as int;
            let p = pixel_size as int;
            assert(w * h <= w * h * p && w * h * p == frame_size_of(self.spec_config()))
                by (nonlinear_arith)
                requires
                    0 <= w,
                    0 <= h,
                    1 <= p,
                    p == pixel_bytes(self.spec_config().pixel_format),
                    w == self.spec_config().image_width,
                    h == self.spec_config().image_height,
                    frame_size_of(self.spec_config()) == self.spec_config().image_width as int
                        * self.spec_config().image_height as int * pixel_bytes(
                        self.spec_config().pixel_format,
                    ),
            ;
        }
        let wide = self.config.image_width as u64 * self.config.image_height as u64;
        wide * pixel_size as u64
    }

    /// The lifecycle state.
    pub fn get_state(&self) -> (s: CsiChannelState)
        ensures
            s == self.spec_state(),
    {
        self.state
    }

    /// The configuration.
    pub fn get_config(&self) -> (c: &MipiCsiConfig)
        ensures
            *c == self.spec_config(),
    {
        &self.config
    }
}

/// The completion poll of an asynchronous capture: ready exactly when the
/// polled channel has left the streaming state or holds a frame.
pub struct CsiTransferFuture {
    channel_id: u8,
    completed: bool,
}

impl CsiTransferFuture {
    /// Whether the future has observed completion.
    pub closed spec fn spec_completed(&self) -> bool {
        self.completed
    }

    /// A poll handle over a channel, ready exactly when the channel is not
    /// streaming.
    pub fn new(channel: &MipiCsiChannel) -> (f: CsiTransferFuture)
        ensures
            f.spec_completed() == (channel.spec_state() != CsiChannelState::Streaming),
    {
        let streaming = matches!(channel.get_state(), CsiChannelState::Streaming);
        CsiTransferFuture { channel_id: channel.channel_id, completed: !streaming }
    }
}

/// The camera-interface manager: up to four registered channels.
pub struct MipiCsiManager {
    channels: Vec<Option<MipiCsiChannel>>,
    initialized: bool,
}

impl MipiCsiManager {
    /// The channel slots.
    pub closed spec fn spec_channels(&self) -> Seq<Option<MipiCsiChannel>> {
        self.channels@
    }

    /// Whether `init_all` has run.
    pub closed spec fn spec_initialized(&self) -> bool {
        self.initialized
    }

    /// The manager always has its four slots.
    pub open spec fn wf(&self) -> bool {
        self.spec_channels().len() == 4
    }

    /// A manager with four empty slots.
    pub fn new() -> (m: MipiCsiManager)
        ensures
            m.wf(),
            !m.spec_initialized(),
            forall|i: int| 0 <= i < 4 ==> (#[trigger] m.spec_channels()[i]) is None,
    {
        let mut channels: Vec<Option<MipiCsiChannel>> = Vec::new();
        channels.push(None);
        channels.push(None);
        channels.push(None);
        channels.push(None);
        MipiCsiManager { channels, initialized: false }
    }

    /// Installs a channel in slot `channel_id`. Fails with
    /// `InvalidParameter`, changing nothing, for a slot beyond 3.
    pub fn register_channel(&mut self, channel_id: u8, channel: MipiCsiChannel) -> (r: Result<
        (),
        KernelError,
    >)
        requires
            old(self).wf(),
        ensures
            final(self).wf(),
            channel_id >= 4 ==> r == Result::<(), KernelError>::Err(KernelError::InvalidParameter)
                && *final(self) == *old(self),
            channel_id < 4 ==> {
                &&& r is Ok
                &&& (final(self).spec_channels()[channel_id as int] matches Some(c) && c.spec_id()
                    == channel.spec_id())
                &&& forall|j: int|
                    0 <= j < 4 && j != channel_id ==> #[trigger] final(self).spec_channels()[j]
                        == old(self).spec_channels()[j]
                &&& final(self).spec_initialized() == old(self).spec_initialized()
            },
    {
        if channel_id >= 4 {
            return Err(KernelError::InvalidParameter);
        }
        self.channels.set(channel_id as usize, Some(channel));
        Ok(())
    }

    /// A view of the channel in slot `channel_id`, when one is installed.
    pub fn get_channel(&self, channel_id: u8) -> (r: Option<&MipiCsiChannel>)
        requires
            self.wf(),
        ensures
            channel_id >= 4 ==> r is None,
            channel_id < 4 ==> (r is Some) == (self.spec_channels()[channel_id as int] is Some),
    {
        if channel_id < 4 {
            self.channels[channel_id as usize].as_ref()
        } else {
            None
        }
    }

    /// Marks every installed channel initialised.
    pub fn init_all(&mut self) -> (r: Result<(), KernelError>)
        requires
            old(self).wf(),
        ensures
            r is Ok,
            final(self).wf(),
            final(self).spec_initialized(),
            final(self).spec_channels() == old(self).spec_channels(),
    {
        self.initialized = true;
        Ok(())
    }

    /// Whether `init_all` has run.
    pub fn is_initialized(&self) -> (r: bool)
        ensures
            r == self.spec_initialized(),
    {
        self.initialized
    }
}

/// The conventional camera configuration: four lanes at 1.5 Gbps, 1080p
/// RAW10 at 30 frames per second, zero copy on.
pub fn create_default_config() -> (c: MipiCsiConfig)
    ensures
        c.lane_count == 4,
        c.data_rate == 1500,
        c.image_width == 1920,
        c.image_height == 1080,
        c.pixel_format == PixelFormat::RAW10,
        c.frame_rate == 30,
        c.zero_copy,
        !c.hdr_mode,
{
    MipiCsiConfig {
        lane_count: 4,
        data_rate: 1500,
        image_width: 1920,
        image_height: 1080,
        pixel_format: PixelFormat::RAW10,
        frame_rate: 30,
        zero_copy: true,
        hdr_mode: false,
    }
}

} // verus!
