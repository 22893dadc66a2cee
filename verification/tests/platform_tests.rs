//! Tests for the platform peripherals, the accelerator drivers, the process
//! scheduler, the kernel services and the shared helpers.

use starry_core::cpu_rk3588::{CoreType, CPUState, RK3588CPUManager};
use starry_core::dma::{
    DmaBuffer, DmaChannel, DmaController, DmaDescriptor, DmaDirection, DmaMode, DmaTransferFuture,
    ZeroCopyTransfer,
};
use starry_core::errors::KernelError;
use starry_core::gpio::{GpioBank, GpioConfig, GpioError, GpioInterrupt, GpioMode, GpioPin,
    GpioPull, Rk3588Gpio};
use starry_core::i2c::{AddressingMode, I2cConfig, I2cDevice, I2cError, Rk3588I2c, I2C0_BASE};
use starry_core::kernel::{handle_syscall, KernelInfo, Syscall, SystemError};
use starry_core::mipi_csi::{create_default_config, CsiChannelState, MipiCsiChannel,
    MipiCsiManager, PixelFormat};
use starry_core::npu::{NpuManager, NpuState, ModelInfo, Precision};
use starry_core::npu_detect::{detect_available_npus, get_recommended_npu, NPUDevice};
use starry_core::performance::{AlgorithmOptimizer, CacheOptimized, MemoryPool,
    PerformanceMonitor};
use starry_core::rk3588_drivers::{Dht22Sensor, Esp32Wifi, RK3588DriverManager, ServoController,
    ServoError, WifiError};
use starry_core::scheduler::{ProcessState, Scheduler, TaskInfo};
use starry_core::soc::{PerformanceMode, RK3588Cpu, RK3588Npu, RK3588SystemController};
use starry_core::spi::{Rk3588Spi, SpiConfig, SpiDevice, SpiError, SPI0_BASE};
use starry_core::uart::{debug_println, Rk3588Uart, UartConfig, UartError, UART2_BASE};
use starry_core::usb::{UsbCameraConfig, UsbCameraDriver, UsbDeviceType, UsbDriver, UsbEndpoint,
    UsbTransferFuture, UsbTransferType, UsbVideoFormat};
use starry_core::common::{level_enabled, LogLevel};
use starry_core::error::{AIError, DriverError, SystemError as SharedSystemError};
use starry_core::utils::{align_up, clamp, count_elements, quick_sort, quicksort, safe_divide};

#[test]
fn test_device_detection() {
    let devices = detect_available_npus();
    assert!(!devices.is_empty());
}

#[test]
fn test_task_info() {
    let task_info = TaskInfo {
        id: 1,
        name: "test_task",
        priority: 5,
        stack_size: 1024,
    };

    assert_eq!(task_info.id, 1);
    assert_eq!(task_info.name, "test_task");
    assert_eq!(task_info.priority, 5);
    assert_eq!(task_info.stack_size, 1024);
}

#[test]
fn recommended_accelerator_is_the_on_chip_one() {
    assert_eq!(get_recommended_npu(), Some(NPUDevice::RockchipRK3588));
}

#[test]
fn uart_requires_initialisation() {
    let mut uart = Rk3588Uart::new(UART2_BASE, UartConfig::console());
    assert_eq!(uart.send_byte(0x41), Err(UartError::NotInitialized));
    uart.init().unwrap();
    assert_eq!(uart.init(), Err(UartError::AlreadyInitialized));
    uart.send_byte(0x41).unwrap();
    uart.send_bytes(&[0x42, 0x43]).unwrap();
    assert_eq!(uart.is_tx_empty(), Ok(true));
}

#[test]
fn uart_receive_follows_the_wire() {
    let mut uart = Rk3588Uart::new(UART2_BASE, UartConfig::console());
    uart.init().unwrap();
    assert_eq!(uart.has_data(), Ok(false));
    assert_eq!(uart.receive_byte(), Err(UartError::Timeout));
    uart.receive_input(0x10);
    uart.receive_input(0x20);
    uart.receive_input(0x30);
    assert_eq!(uart.has_data(), Ok(true));
    assert_eq!(uart.receive_byte(), Ok(0x10));
    let mut buffer = vec![0u8; 2];
    assert_eq!(uart.receive_bytes(&mut buffer), Ok(2));
    assert_eq!(buffer, vec![0x20, 0x30]);
}

#[test]
fn uart_rejects_a_bad_baud_rate() {
    let mut config = UartConfig::console();
    config.baud_rate = 0;
    let mut uart = Rk3588Uart::new(UART2_BASE, config);
    assert_eq!(uart.init(), Err(UartError::InvalidBaudRate));
}

#[test]
fn debug_line_carries_its_terminator() {
    let mut uart = Rk3588Uart::new(UART2_BASE, UartConfig::console());
    uart.init().unwrap();
    debug_println(&mut uart, b"ok").unwrap();
}

#[test]
fn gpio_drives_and_reads_levels() {
    let mut gpio = Rk3588Gpio::new();
    let pin = GpioPin::new(GpioBank::GPIO2, 7);
    assert_eq!(gpio.set_mode(pin, GpioMode::Output), Err(GpioError::NotInitialized));
    gpio.init().unwrap();
    gpio.set_mode(pin, GpioMode::Output).unwrap();
    gpio.set_level(pin, true).unwrap();
    assert_eq!(gpio.get_level(pin), Ok(true));
    gpio.toggle(pin).unwrap();
    assert_eq!(gpio.get_level(pin), Ok(false));
    let bad = GpioPin::new(GpioBank::GPIO0, 32);
    assert!(!bad.is_valid());
    assert_eq!(gpio.set_level(bad, true), Err(GpioError::InvalidPin));
}

#[test]
fn gpio_interrupts_configure_and_clear() {
    let mut gpio = Rk3588Gpio::new();
    gpio.init().unwrap();
    let pin = GpioPin::new(GpioBank::GPIO1, 3);
    assert_eq!(
        gpio.set_interrupt(pin, GpioInterrupt::BothEdges),
        Err(GpioError::InterruptNotSupported)
    );
    gpio.set_interrupt(pin, GpioInterrupt::RisingEdge).unwrap();
    assert_eq!(gpio.has_interrupt(pin), Ok(false));
    gpio.clear_interrupt(pin).unwrap();
    gpio.external_drive(pin, true).unwrap();
    assert_eq!(gpio.get_level(pin), Ok(true));
}

#[test]
fn gpio_builder_applies_every_choice() {
    let mut gpio = Rk3588Gpio::new();
    gpio.init().unwrap();
    let pin = GpioPin::new(GpioBank::GPIO4, 1);
    GpioConfig::new(pin)
        .mode(GpioMode::Output)
        .pull(GpioPull::Up)
        .initial_level(true)
        .interrupt(GpioInterrupt::HighLevel)
        .apply(&mut gpio)
        .unwrap();
    assert_eq!(gpio.get_level(pin), Ok(true));
}

#[test]
fn spi_transfers_full_duplex() {
    let mut spi = Rk3588Spi::new(SPI0_BASE, SpiConfig::standard());
    assert_eq!(spi.write(&[1]), Err(SpiError::NotInitialized));
    spi.init().unwrap();
    spi.receive_input(0xA0);
    spi.receive_input(0xA1);
    let mut rx = vec![0u8; 2];
    spi.transfer(&[0x51, 0x52], &mut rx).unwrap();
    assert_eq!(rx, vec![0xA0, 0xA1]);
    assert_eq!(spi.is_bus_busy(), Ok(false));
    // a transfer with mismatched buffers is refused
    let mut short = vec![0u8; 1];
    assert_eq!(spi.transfer(&[1, 2], &mut short), Err(SpiError::BufferOverflow));
    // a transfer the slave cannot feed times out
    let mut hungry = vec![0u8; 3];
    assert_eq!(spi.transfer(&[1, 2, 3], &mut hungry), Err(SpiError::Timeout));
}

#[test]
fn spi_device_reads_registers_past_the_address_byte() {
    let mut spi = Rk3588Spi::new(SPI0_BASE, SpiConfig::standard());
    spi.init().unwrap();
    for byte in [0xFF, 0x11, 0x22] {
        spi.receive_input(byte);
    }
    let mut device = SpiDevice::new(spi, 0);
    let mut data = vec![0u8; 2];
    device.read_register(0x3B, &mut data).unwrap();
    assert_eq!(data, vec![0x11, 0x22]);
}

#[test]
fn spi_rejects_an_unprogrammable_clock() {
    let mut config = SpiConfig::standard();
    config.clock_speed = 0;
    let mut spi = Rk3588Spi::new(SPI0_BASE, config);
    assert_eq!(spi.init(), Err(SpiError::HardwareError));
}

#[test]
fn i2c_validates_addresses_by_mode() {
    let mut i2c = Rk3588I2c::new(I2C0_BASE, I2cConfig::standard());
    i2c.init().unwrap();
    assert_eq!(i2c.write(0x80, &[1]), Err(I2cError::InvalidAddress));
    assert!(i2c.write(0x50, &[1, 2]).is_ok());
    let mut config = I2cConfig::standard();
    config.addressing_mode = AddressingMode::TenBit;
    let mut wide = Rk3588I2c::new(I2C0_BASE, config);
    wide.init().unwrap();
    assert!(wide.write(0x80, &[1]).is_ok());
    assert_eq!(wide.write(0x400, &[1]), Err(I2cError::InvalidAddress));
}

#[test]
fn i2c_device_write_then_read_round_trips() {
    let mut i2c = Rk3588I2c::new(I2C0_BASE, I2cConfig::standard());
    i2c.init().unwrap();
    i2c.receive_input(0x99);
    let mut device = I2cDevice::new(i2c, 0x1A);
    let mut answer = vec![0u8; 1];
    device.read_register(0x0F, &mut answer).unwrap();
    assert_eq!(answer, vec![0x99]);
    device.write_register(0x10, &[0x42]).unwrap();
}

#[test]
fn i2c_read_times_out_without_data() {
    let mut i2c = Rk3588I2c::new(I2C0_BASE, I2cConfig::standard());
    i2c.init().unwrap();
    let mut buffer = vec![0u8; 4];
    assert_eq!(i2c.read(0x2A, &mut buffer), Err(I2cError::Timeout));
}

#[test]
fn dma_descriptor_encodes_direction_and_mode() {
    let mut descriptor = DmaDescriptor::new();
    descriptor.configure(0x1000, 0x2000, 256, DmaDirection::MemoryToDevice, DmaMode::Single);
    assert_eq!(descriptor.source_addr, 0x1000);
    assert_eq!(descriptor.destination_addr, 0x2000);
    assert_eq!(descriptor.transfer_size, 256);
    assert_eq!(descriptor.control, 1 | 0x8000_0000);
    let mut scatter = DmaDescriptor::new();
    scatter.configure(0, 0, 1, DmaDirection::DeviceToMemory, DmaMode::ScatterGather);
    assert_eq!(scatter.control, 2 | (2 << 2) | 0x8000_0000);
}

#[test]
fn dma_buffers_lock_once() {
    let mut buffer = DmaBuffer::new(64).unwrap();
    assert_eq!(buffer.size(), 64);
    assert_eq!(buffer.read_byte(10), 0);
    buffer.write_byte(10, 0x5A);
    assert_eq!(buffer.read_byte(10), 0x5A);
    assert!(buffer.lock().is_ok());
    assert!(buffer.lock().is_err());
    buffer.unlock();
    assert!(buffer.lock().is_ok());
}

#[test]
fn dma_channels_refuse_double_starts() {
    let mut channel = DmaChannel::new(3);
    assert!(!channel.is_busy());
    let transfer = ZeroCopyTransfer::new(32, DmaDirection::MemoryToMemory).unwrap();
    channel.start_zero_copy(transfer).unwrap();
    assert!(channel.is_busy());
    let second = ZeroCopyTransfer::new(32, DmaDirection::MemoryToMemory).unwrap();
    assert!(channel.start_zero_copy(second).is_err());
    channel.wait_completion().unwrap();
    assert!(!channel.is_busy());
}

#[test]
fn dma_controller_hands_out_channels() {
    let mut controller = starry_core::dma::init_dma_controller().unwrap();
    assert!(controller.is_enabled());
    assert_eq!(controller.get_available_channel(), Some(0));
    let transfer = ZeroCopyTransfer::new(16, DmaDirection::MemoryToDevice).unwrap();
    controller.start_on_channel(0, transfer).unwrap();
    assert_eq!(controller.get_available_channel(), Some(1));
    controller.wait_on_channel(0).unwrap();
    assert_eq!(controller.get_available_channel(), Some(0));
    assert!(controller.get_channel(8).is_none());
    let idle = controller.get_channel(2).unwrap();
    let future = DmaTransferFuture::new(idle);
    let _ = future;
}

#[test]
fn zero_copy_transfer_completes_after_start() {
    let mut transfer = ZeroCopyTransfer::new(8, DmaDirection::MemoryToMemory).unwrap();
    assert!(transfer.wait_completion().is_err());
    transfer.configure(0x100, 0x200, 8, DmaMode::Single);
    transfer.start().unwrap();
    assert!(transfer.wait_completion().is_ok());
    assert_eq!(transfer.buffer().size(), 8);
    transfer.buffer_mut().write_byte(0, 7);
    assert_eq!(transfer.buffer().read_byte(0), 7);
}

#[test]
fn csi_channel_lifecycle_and_capture() {
    let config = create_default_config();
    assert_eq!(config.pixel_format, PixelFormat::RAW10);
    let mut channel = MipiCsiChannel::new(0, 0xFE86_0000, config);
    assert_eq!(channel.get_state(), CsiChannelState::Idle);
    channel.configure().unwrap();
    channel.start_stream().unwrap();
    assert_eq!(channel.get_state(), CsiChannelState::Streaming);
    // a second start while streaming is refused
    assert_eq!(channel.start_stream(), Err(KernelError::InvalidParameter));
    let frame = channel.capture_frame(123456).unwrap();
    assert_eq!(frame.width, 1920);
    assert_eq!(frame.height, 1080);
    assert_eq!(frame.frame_number, 1);
    assert_eq!(frame.timestamp, 123456);
    channel.stop_stream().unwrap();
    assert_eq!(channel.get_state(), CsiChannelState::Idle);
}

#[test]
fn csi_capture_without_dma_times_out() {
    let mut config = create_default_config();
    config.zero_copy = false;
    let mut channel = MipiCsiChannel::new(1, 0xFE87_0000, config);
    channel.configure().unwrap();
    channel.start_stream().unwrap();
    assert_eq!(channel.capture_frame(1), Err(KernelError::HardwareTimeout));
    assert_eq!(channel.enable_dma(), Err(KernelError::InvalidParameter));
}

#[test]
fn csi_manager_registers_four_channels_at_most() {
    let mut manager = MipiCsiManager::new();
    assert!(!manager.is_initialized());
    let channel = MipiCsiChannel::new(2, 0xFE88_0000, create_default_config());
    manager.register_channel(2, channel).unwrap();
    assert!(manager.get_channel(2).is_some());
    assert!(manager.get_channel(3).is_none());
    let overflow = MipiCsiChannel::new(4, 0xFE89_0000, create_default_config());
    assert_eq!(manager.register_channel(4, overflow), Err(KernelError::InvalidParameter));
    manager.init_all().unwrap();
    assert!(manager.is_initialized());
}

#[test]
fn platform_drivers_come_up_together() {
    let mut manager = RK3588DriverManager::new();
    manager.init_all_drivers().unwrap();
    manager.connect_wifi("lab", "secret").unwrap();
    assert_eq!(manager.get_environment_data_tenths(), Ok((0, 0)));
}

#[test]
fn dht22_reports_fixed_point_samples() {
    let mut sensor = Dht22Sensor::new(18);
    assert!(sensor.read_data_tenths().is_err());
    sensor.init().unwrap();
    sensor.record_sample(-125, 603);
    assert_eq!(sensor.read_data_tenths(), Ok((-125, 603)));
}

#[test]
fn wifi_guards_its_lifecycle() {
    let mut wifi = Esp32Wifi::new(0, 8);
    assert_eq!(wifi.send_data(&[1]), Err(WifiError::NotInitialized));
    wifi.init().unwrap();
    assert_eq!(wifi.send_data(&[1]), Err(WifiError::NotConnected));
    wifi.connect("lab", "secret").unwrap();
    assert!(wifi.is_connected());
    wifi.send_data(&[0xDE, 0xAD]).unwrap();
    wifi.receive_input(0x77);
    let mut buffer = vec![0u8; 4];
    assert_eq!(wifi.receive_data(&mut buffer), Ok(1));
    assert_eq!(buffer[0], 0x77);
}

#[test]
fn servo_accepts_angles_up_to_straight() {
    let mut servo = ServoController::new(0);
    assert_eq!(servo.set_angle_degrees(90), Err(ServoError::NotInitialized));
    servo.init().unwrap();
    servo.set_angle_degrees(180).unwrap();
    assert_eq!(servo.set_angle_degrees(181), Err(ServoError::InvalidAngle));
}

#[test]
fn accelerator_manager_guards_its_lifecycle() {
    let mut npu = NpuManager::new();
    assert_eq!(npu.get_state(), NpuState::Idle);
    let model = ModelInfo {
        name: "classifier",
        input_shape: [1, 224, 224, 3],
        output_shape: [1, 1000, 1, 1],
        precision: Precision::INT8,
        memory_usage: 0x10_0000,
    };
    assert_eq!(npu.load_model(model), Err(starry_core::npu::NpuError::NotInitialized));
    npu.init().unwrap();
    assert!(npu.run_inference().is_err());
    npu.load_model(model).unwrap();
    npu.run_inference().unwrap();
    npu.run_inference().unwrap();
    assert_eq!(npu.get_performance_stats().inference_count, 2);
    npu.unload_model().unwrap();
    assert!(npu.get_current_model().is_none());
}

#[test]
fn oversized_model_is_refused() {
    let mut npu = NpuManager::new();
    npu.init().unwrap();
    let huge = ModelInfo {
        name: "too_big",
        input_shape: [1, 1, 1, 1],
        output_shape: [1, 1, 1, 1],
        precision: Precision::FP16,
        memory_usage: usize::MAX,
    };
    assert_eq!(npu.load_model(huge), Err(starry_core::npu::NpuError::InvalidModel));
}

#[test]
fn cpu_complex_tracks_core_power() {
    let mut manager = RK3588CPUManager::new();
    assert!(manager.start_all_cores().is_err());
    manager.init().unwrap();
    manager.start_all_cores().unwrap();
    let core = manager.get_core_state(0).unwrap();
    assert!(core.is_running());
    assert_eq!(manager.get_core_state(9), None);
    let info = manager.get_topology();
    assert_eq!(info.total_cores, 8);
    assert_eq!(info.max_frequency_big, 2400);
    let mut one = CPUState::new(CoreType::Little);
    assert!(!one.is_running());
    one.start().unwrap();
    one.start().unwrap();
    one.stop().unwrap();
    assert!(!one.is_running());
}

#[test]
fn soc_controller_brings_the_system_up() {
    let mut controller = RK3588SystemController::new();
    controller.init_system().unwrap();
    let mut cpu = RK3588Cpu::new();
    cpu.init_all_cores();
    cpu.set_performance_mode(PerformanceMode::PowerSave);
    cpu.set_performance_mode(PerformanceMode::Performance);
    let topology = cpu.get_topology();
    assert_eq!(topology.big_core_freq, 2400);
    let mut npu = RK3588Npu::new();
    npu.init().unwrap();
    let model = vec![0u8; 2048];
    npu.load_model(&model).unwrap();
    let tiny = vec![0u8; 16];
    assert!(npu.load_model(&tiny).is_err());
}

#[test]
fn round_robin_scheduler_cycles_through_processes() {
    let mut scheduler = Scheduler::new();
    assert!(scheduler.schedule().is_none());
    let first = scheduler.add_process(0x8000_0000);
    let second = scheduler.add_process(0x8000_1000);
    let third = scheduler.add_process(0x8000_2000);
    assert_eq!(first, 1);
    assert_eq!(second, 2);
    assert_eq!(third, 3);
    assert_eq!(scheduler.schedule(), Some(first));
    assert_eq!(scheduler.schedule(), Some(second));
    assert_eq!(scheduler.schedule(), Some(third));
    // the rotation wraps back to the head
    assert_eq!(scheduler.schedule(), Some(first));
    assert_eq!(scheduler.process_state(0), Some(ProcessState::Ready));
    assert!(scheduler.current_process().is_some());
}

#[test]
fn syscall_dispatch_reports_support() {
    assert_eq!(handle_syscall(Syscall::Exit, [0; 6]), 0);
    assert_eq!(handle_syscall(Syscall::Read, [1, 2, 3, 0, 0, 0]), 0);
    assert_eq!(handle_syscall(Syscall::Write, [1, 2, 3, 0, 0, 0]), 0);
    assert_eq!(handle_syscall(Syscall::Fork, [0; 6]), 6);
    assert_eq!(SystemError::NotSupported.code(), 6);
    assert_eq!(SystemError::Success.code(), 0);
    let info = KernelInfo::get(48_000_000, 24_000_000, 3);
    assert_eq!(info.uptime, 2);
    assert_eq!(info.task_count, 3);
}

#[test]
fn helpers_align_count_divide_and_clamp() {
    assert_eq!(align_up(13, 8), 16);
    assert_eq!(align_up(16, 8), 16);
    assert_eq!(align_up(1, 4096), 4096);
    assert_eq!(count_elements::<u32>(&[0u8; 10]), 2);
    assert_eq!(safe_divide(10, 3), Some(3));
    assert_eq!(safe_divide(-7, 2), Some(-3));
    assert_eq!(safe_divide(7, -2), Some(-3));
    assert_eq!(safe_divide(5, 0), None);
    assert_eq!(clamp(15, 0, 10), 10);
    assert_eq!(clamp(-5, 0, 10), 0);
    assert_eq!(clamp(5, 0, 10), 5);
}

#[test]
fn sorting_orders_values_and_keeps_them() {
    let mut values = vec![9u64, 1, 8, 1, 7, 0];
    quick_sort(&mut values);
    assert_eq!(values, vec![0, 1, 1, 7, 8, 9]);
    let mut more = vec![3u64, 3, 2];
    quicksort(&mut more);
    assert_eq!(more, vec![2, 3, 3]);
    let mut same = vec![5u64];
    AlgorithmOptimizer::quick_sort(&mut same);
    assert_eq!(same, vec![5]);
}

#[test]
fn binary_search_finds_present_values_only() {
    let sorted_values = vec![2u64, 4, 6, 8, 10];
    assert_eq!(AlgorithmOptimizer::binary_search(&sorted_values, 6), Some(2));
    assert_eq!(AlgorithmOptimizer::binary_search(&sorted_values, 2), Some(0));
    assert_eq!(AlgorithmOptimizer::binary_search(&sorted_values, 10), Some(4));
    assert_eq!(AlgorithmOptimizer::binary_search(&sorted_values, 5), None);
    assert_eq!(AlgorithmOptimizer::binary_search(&vec![], 5), None);
}

#[test]
fn performance_monitor_averages_durations() {
    let mut monitor = PerformanceMonitor::new();
    assert_eq!(monitor.average_duration(), 0);
    monitor.start_timing(100);
    assert_eq!(monitor.stop_timing(160), 60);
    monitor.start_timing(200);
    assert_eq!(monitor.stop_timing(240), 40);
    assert_eq!(monitor.average_duration(), 50);
    // closing without an open measurement is a harmless zero
    assert_eq!(monitor.stop_timing(999), 0);
}

#[test]
fn memory_pool_allocates_until_full() {
    let mut pool = MemoryPool::new();
    assert_eq!(pool.allocate(1000), Some(0));
    assert_eq!(pool.allocate(24), Some(1000));
    assert_eq!(pool.allocate(1), None);
    pool.reset();
    assert_eq!(pool.allocate(1), Some(0));
}

#[test]
fn log_levels_filter_by_severity() {
    assert!(level_enabled(LogLevel::Error, LogLevel::Warn));
    assert!(level_enabled(LogLevel::Warn, LogLevel::Warn));
    assert!(!level_enabled(LogLevel::Trace, LogLevel::Info));
}

#[test]
fn shared_errors_describe_themselves() {
    assert_eq!(SharedSystemError::Timeout.message(), "operation timed out");
    assert_eq!(DriverError::DeviceBusy.message(), "device busy");
    assert_eq!(AIError::InvalidInput.message(), "invalid input");
    assert_ne!(SharedSystemError::Unknown, SharedSystemError::Timeout);
}

#[test]
fn usb_bulk_transfers_need_a_configured_endpoint_and_dma() {
    let mut usb = UsbDriver::new(0xFC00_0000, UsbDeviceType::Storage);
    let endpoint = UsbEndpoint {
        address: 2,
        transfer_type: UsbTransferType::Bulk,
        max_packet_size: 512,
        interval: 0,
    };
    assert_eq!(usb.enable_dma(), Err(KernelError::InvalidParameter));
    usb.init().unwrap();
    usb.configure_endpoint(endpoint).unwrap();
    // DMA still off: the bulk path times out
    assert_eq!(usb.bulk_transfer(2, &[1, 2, 3]), Err(KernelError::HardwareTimeout));
    usb.enable_dma().unwrap();
    assert_eq!(usb.bulk_transfer(2, &[1, 2, 3]), Ok(3));
    // an endpoint that was never configured is refused
    assert_eq!(usb.bulk_transfer(5, &[1]), Err(KernelError::InvalidParameter));
    assert_eq!(usb.bulk_transfer(16, &[1]), Err(KernelError::InvalidParameter));
    let info = usb.get_device_info();
    assert_eq!(info.endpoint_count, 1);
    assert!(info.dma_enabled);
    let bad = UsbEndpoint { address: 16, ..endpoint };
    assert_eq!(usb.configure_endpoint(bad), Err(KernelError::InvalidParameter));
    let mut future = UsbTransferFuture::new(&endpoint);
    assert_eq!(future.poll_transfer(&endpoint), 512);
}

#[test]
fn usb_camera_stream_lifecycle() {
    let config = UsbCameraConfig {
        width: 1280,
        height: 720,
        format: UsbVideoFormat::MJPEG,
        frame_rate: 30,
        zero_copy: true,
    };
    let mut camera = UsbCameraDriver::new(0xFC40_0000, config);
    assert_eq!(camera.get_config().width, 1280);
    camera.start_stream().unwrap();
    camera.start_stream().unwrap();
    camera.stop_stream().unwrap();
    camera.stop_stream().unwrap();
}

#[test]
fn cache_wrapper_counts_accesses() {
    let mut cached = CacheOptimized::new(314u32);
    assert_eq!(cached.access_stats(), (0, 0));
    assert_eq!(*cached.get(500), 314);
    assert_eq!(*cached.get(600), 314);
    assert_eq!(cached.access_stats(), (600, 2));
}
