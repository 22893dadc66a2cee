//! The USB controller driver: endpoint configuration, the DMA-backed bulk
//! transfer path, and the camera device built on top of it.

use vstd::prelude::*;
use crate::errors::KernelError;

verus! {

/// The class of an attached device.
#[derive(Debug, Clone, Copy, PartialEq, Eq, Structural)]
pub enum UsbDeviceType {
    Camera,
    Storage,
    Audio,
    Network,
    Custom,
}

/// The four transfer classes of the bus.
#[derive(Debug, Clone, Copy, PartialEq, Eq, Structural)]
pub enum UsbTransferType {
    Control,
    Isochronous,
    Bulk,
    Interrupt,
}

/// Video format of a camera stream.
#[derive(Debug, Clone, Copy, PartialEq, Eq, Structural)]
pub enum UsbVideoFormat {
    MJPEG,
    YUYV,
    H264,
    RGB24,
}

/// Camera stream configuration.
#[derive(Debug, Clone, Copy, PartialEq, Eq, Structural)]
pub struct UsbCameraConfig {
    pub width: u32,
    pub height: u32,
    pub format: UsbVideoFormat,
    pub frame_rate: u32,
    pub zero_copy: bool,
}

/// One endpoint descriptor.
#[derive(Debug, Clone, Copy, PartialEq, Eq, Structural)]
pub struct UsbEndpoint {
    pub address: u8,
    pub transfer_type: UsbTransferType,
    pub max_packet_size: u16,
    pub interval: u8,
}

/// Static summary of an attached device.
#[derive(Debug, Clone, Copy, PartialEq, Eq, Structural)]
pub struct UsbDeviceInfo {
    pub device_type: UsbDeviceType,
    pub dma_enabled: bool,
    pub zero_copy_supported: bool,
    pub endpoint_count: usize,
}

/// How many endpoints a configured endpoint table holds.
pub open spec fn endpoint_count_of(endpoints: Seq<Option<UsbEndpoint>>) -> int
    decreases endpoints.len(),
{
    if endpoints.len() == 0 {
        0
    } else {
        endpoint_count_of(endpoints.drop_last()) + (if endpoints.last() is Some {
            1int
        } else {
            0int
        })
    }
}

/// The controller driver: sixteen endpoint slots, an initialisation flag
/// and the DMA switch, with the log of every byte sent over the bulk path.
pub struct UsbDriver {
    controller_base: u64,
    device_type: UsbDeviceType,
    endpoints: Vec<Option<UsbEndpoint>>,
    initialized: bool,
    dma_enabled: bool,
    zero_copy_supported: bool,
    tx_log: Vec<u8>,
}

impl UsbDriver {
    /// The attached device's class.
    pub closed spec fn spec_device_type(&self) -> UsbDeviceType {
        self.device_type
    }

    /// The endpoint table.
    pub closed spec fn spec_endpoints(&self) -> Seq<Option<UsbEndpoint>> {
        self.endpoints@
    }

    /// Whether `init` has run.
    pub closed spec fn spec_initialized(&self) -> bool {
        self.initialized
    }

    /// Whether DMA transfers are enabled.
    pub closed spec fn spec_dma(&self) -> bool {
        self.dma_enabled
    }

    /// Every byte sent over the bulk path, in order.
    pub closed spec fn tx(&self) -> Seq<u8> {
        self.tx_log@
    }

    /// The endpoint table always has its sixteen slots.
    pub open spec fn wf(&self) -> bool {
        self.spec_endpoints().len() == 16
    }

    /// A driver for a controller base and device class: no endpoints, not
    /// initialised, DMA off, zero copy supported.
    pub fn new(controller_base: u64, device_type: UsbDeviceType) -> (d: UsbDriver)
        ensures
            d.wf(),
            d.spec_device_type() == device_type,
            !d.spec_initialized(),
            !d.spec_dma(),
            forall|i: int| 0 <= i < 16 ==> (#[trigger] d.spec_endpoints()[i]) is None,
            d.tx().len() == 0,
    {
        let mut endpoints: Vec<Option<UsbEndpoint>> = Vec::new();
        let mut i: usize = 0;
        while i < 16
            invariant
                0 <= i <= 16,
                endpoints@.len() == i,
                forall|j: int| 0 <= j < i ==> (#[trigger] endpoints@[j]) is None,
            decreases 16 - i,
        {
            endpoints.push(None);
            i = i + 1;
        }
        UsbDriver {
            controller_base,
            device_type,
            endpoints,
            initialized: false,
            dma_enabled: false,
            zero_copy_supported: true,
            tx_log: Vec::new(),
        }
    }

    /// Brings the controller up; a second call changes nothing.
    pub fn init(&mut self) -> (r: Result<(), KernelError>)
        requires
            old(self).wf(),
        ensures
            r is Ok,
            final(self).wf(),
            final(self).spec_initialized(),
            final(self).spec_endpoints() == old(self).spec_endpoints(),
            final(self).spec_dma() == old(self).spec_dma(),
            final(self).tx() == old(self).tx(),
            final(self).spec_device_type() == old(self).spec_device_type(),
    {
        self.initialized = true;
        Ok(())
    }

    /// Installs an endpoint descriptor in the slot its address names. Fails
    /// with `InvalidParameter`, changing nothing, for an address beyond 15.
    pub fn configure_endpoint(&mut self, endpoint: UsbEndpoint) -> (r: Result<(), KernelError>)
        requires
            old(self).wf(),
        ensures
            final(self).wf(),
            endpoint.address >= 16 ==> r == Result::<(), KernelError>::Err(
                KernelError::InvalidParameter,
            ) && *final(self) == *old(self),
            endpoint.address < 16 ==> {
                &&& r is Ok
                &&& final(self).spec_endpoints() == old(self).spec_endpoints().update(
                    endpoint.address as int,
                    Some(endpoint),
                )
                &&& final(self).spec_initialized() == old(self).spec_initialized()
                &&& final(self).spec_dma() == old(self).spec_dma()
                &&& final(self).tx() == old(self).tx()
            },
    {
        if endpoint.address >= 16 {
            return Err(KernelError::InvalidParameter);
        }
        self.endpoints.set(endpoint.address as usize, Some(endpoint));
        Ok(())
    }

    /// Switches DMA transfers on. Fails with `InvalidParameter`, changing
    /// nothing, before `init`.
    pub fn enable_dma(&mut self) -> (r: Result<(), KernelError>)
        requires
            old(self).wf(),
        ensures
            final(self).wf(),
            !old(self).spec_initialized() ==> r == Result::<(), KernelError>::Err(
                KernelError::InvalidParameter,
            ) && *final(self) == *old(self),
            old(self).spec_initialized() ==> r is Ok && final(self).spec_dma() && final(self).spec_endpoints() == old(self).spec_endpoints() && final(self).spec_initialized()
                && final(self).tx() == old(self).tx(),
    {
        if !self.initialized {
            return Err(KernelError::InvalidParameter);
        }
        self.dma_enabled = true;
        Ok(())
    }

    /// Sends a block over the bulk path of an endpoint: the bytes go out in
    /// order through a DMA transfer. Fails with `InvalidParameter` for an
    /// unknown or unconfigured endpoint and with `HardwareTimeout` when DMA
    /// was never enabled (the legacy path is not wired); a failed call
    /// changes nothing.
    pub fn bulk_transfer(&mut self, endpoint_addr: u8, data: &[u8]) -> (r: Result<
        usize,
        KernelError,
    >)
        requires
            old(self).wf(),
        ensures
            final(self).wf(),
            endpoint_addr >= 16 || old(self).spec_endpoints()[endpoint_addr as int] is None ==> r
                == Result::<usize, KernelError>::Err(KernelError::InvalidParameter) && *final(self)
                == *old(self),
            endpoint_addr < 16 && old(self).spec_endpoints()[endpoint_addr as int] is Some && !old(
                self,
            ).spec_dma() ==> r == Result::<usize, KernelError>::Err(KernelError::HardwareTimeout)
                && *final(self) == *old(self),
            endpoint_addr < 16 && old(self).spec_endpoints()[endpoint_addr as int] is Some && old(
                self,
            ).spec_dma() ==> {
                &&& r == Result::<usize, KernelError>::Ok(data@.len() as usize)
                &&& final(self).tx() == old(self).tx() + data@
                &&& final(self).spec_endpoints() == old(self).spec_endpoints()
                &&& final(self).spec_dma()
                &&& final(self).spec_initialized() == old(self).spec_initialized()
            },
    {
        if endpoint_addr >= 16 {
            return Err(KernelError::InvalidParameter);
        }
        if self.endpoints[endpoint_addr as usize].is_none() {
            return Err(KernelError::InvalidParameter);
        }
        if !self.dma_enabled {
            return Err(KernelError::HardwareTimeout);
        }
        let mut i: usize = 0;
        while i < data.len()
            invariant
                0 <= i <= data@.len(),
                self.tx_log@ == old(self).tx_log@ + data@.subrange(0, i as int),
                self.endpoints@ == old(self).endpoints@,
                self.initialized == old(self).initialized,
                self.dma_enabled,
                self.zero_copy_supported == old(self).zero_copy_supported,
                self.controller_base == old(self).controller_base,
                self.device_type == old(self).device_type,
            decreases data@.len() - i,
        {
            self.tx_log.push(data[i]);
            proof {
                assert(self.tx_log@ =~= old(self).tx_log@ + data@.subrange(0, i as int + 1));
            }
            i = i + 1;
        }
        proof {
            assert(data@.subrange(0, data@.len() as int) =~= data@);
        }
        Ok(data.len())
    }

    /// The device summary: its class, the DMA and zero-copy switches, and
    /// how many endpoints are configured.
    pub fn get_device_info(&self) -> (info: UsbDeviceInfo)
        requires
            self.wf(),
        ensures
            info.device_type == self.spec_device_type(),
            info.dma_enabled == self.spec_dma(),
            info.endpoint_count == endpoint_count_of(self.spec_endpoints()),
    {
        let mut count: usize = 0;
        let mut i: usize = 0;
        while i < 16
            invariant
                self.wf(),
                0 <= i <= 16,
                count == endpoint_count_of(self.spec_endpoints().subrange(0, i as int)),
                count <= i,
            decreases 16 - i,
        {
            if self.endpoints[i].is_some() {
                count = count + 1;
            }
            proof {
                assert(self.spec_endpoints().subrange(0, i as int + 1).drop_last()
                    =~= self.spec_endpoints().subrange(0, i as int));
                assert(self.spec_endpoints().subrange(0, i as int + 1).last()
                    == self.spec_endpoints()[i as int]);
            }
            i = i + 1;
        }
        proof {
            assert(self.spec_endpoints().subrange(0, 16) =~= self.spec_endpoints());
        }
        UsbDeviceInfo {
            device_type: self.device_type,
            dma_enabled: self.dma_enabled,
            zero_copy_supported: self.zero_copy_supported,
            endpoint_count: count,
        }
    }
}

/// The completion poll of an asynchronous transfer on one endpoint: the
/// modelled transfer completes within the call, reporting one full packet.
pub struct UsbTransferFuture {
    endpoint_address: u8,
    completed: bool,
}

impl UsbTransferFuture {
    /// Whether the future has observed completion.
    pub closed spec fn spec_completed(&self) -> bool {
        self.completed
    }

    /// A poll handle over an endpoint, not yet completed.
    pub fn new(endpoint: &UsbEndpoint) -> (f: UsbTransferFuture)
        ensures
            !f.spec_completed(),
    {
        UsbTransferFuture { endpoint_address: endpoint.address, completed: false }
    }

    /// One poll step: the modelled transfer completes at once and reports
    /// the endpoint's packet size in bytes.
    pub fn poll_transfer(&mut self, endpoint: &UsbEndpoint) -> (r: usize)
        ensures
            final(self).spec_completed(),
            r == endpoint.max_packet_size,
    {
        self.completed = true;
        endpoint.max_packet_size as usize
    }
}

/// A camera on the bus: the controller driver beneath a stream lifecycle.
pub struct UsbCameraDriver {
    usb_driver: UsbDriver,
    config: UsbCameraConfig,
    streaming: bool,
}

impl UsbCameraDriver {
    /// The stream configuration.
    pub closed spec fn spec_config(&self) -> UsbCameraConfig {
        self.config
    }

    /// Whether the stream is running.
    pub closed spec fn spec_streaming(&self) -> bool {
        self.streaming
    }

    /// The controller driver beneath the camera.
    pub closed spec fn spec_driver(&self) -> UsbDriver {
        self.usb_driver
    }

    /// A camera at a controller base with a stream configuration, not
    /// streaming.
    pub fn new(controller_base: u64, config: UsbCameraConfig) -> (c: UsbCameraDriver)
        ensures
            c.spec_config() == config,
            !c.spec_streaming(),
            c.spec_driver().wf(),
            c.spec_driver().spec_device_type() == UsbDeviceType::Camera,
    {
        UsbCameraDriver {
            usb_driver: UsbDriver::new(controller_base, UsbDeviceType::Camera),
            config,
            streaming: false,
        }
    }

    /// Starts the stream: initialises the controller, installs the video
    /// endpoint and enables DMA. Starting a running stream is a no-op
    /// success.
    pub fn start_stream(&mut self) -> (r: Result<(), KernelError>)
        requires
            old(self).spec_driver().wf(),
        ensures
            r is Ok,
            final(self).spec_streaming(),
            final(self).spec_config() == old(self).spec_config(),
            final(self).spec_driver().wf(),
            old(self).spec_streaming() ==> *final(self) == *old(self),
            !old(self).spec_streaming() ==> final(self).spec_driver().spec_dma(),
    {
        if self.streaming {
            return Ok(());
        }
        let init_result = self.usb_driver.init();
        let video_endpoint = UsbEndpoint {
            address: 1,
            transfer_type: UsbTransferType::Isochronous,
            max_packet_size: 1024,
            interval: 1,
        };
        let configured = self.usb_driver.configure_endpoint(video_endpoint);
        let dma = self.usb_driver.enable_dma();
        self.streaming = true;
        Ok(())
    }

    /// Stops the stream; stopping a stopped stream is a no-op success.
    pub fn stop_stream(&mut self) -> (r: Result<(), KernelError>)
        ensures
            r is Ok,
            !final(self).spec_streaming(),
            final(self).spec_config() == old(self).spec_config(),
            final(self).spec_driver() == old(self).spec_driver(),
    {
        self.streaming = false;
        Ok(())
    }

    /// The stream configuration.
    pub fn get_config(&self) -> (c: &UsbCameraConfig)
        ensures
            *c == self.spec_config(),
    {
        &self.config
    }
}

} // verus!
