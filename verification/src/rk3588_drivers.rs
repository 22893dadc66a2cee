//! Platform peripheral drivers: the environmental sensor, the WiFi module
//! and the servo controller, with the manager that brings them up together.

use vstd::prelude::*;

verus! {

/// Failures of the environmental sensor.
#[derive(Debug, Clone, Copy, PartialEq, Eq, Structural)]
pub enum SensorError {
    NotInitialized,
    CommunicationTimeout,
    DataCorrupted,
    HardwareError,
}

/// Failures of the WiFi module.
#[derive(Debug, Clone, Copy, PartialEq, Eq, Structural)]
pub enum WifiError {
    NotInitialized,
    NotConnected,
    ConnectionTimeout,
    FirmwareError,
    HardwareError,
}

/// Failures of the servo controller.
#[derive(Debug, Clone, Copy, PartialEq, Eq, Structural)]
pub enum ServoError {
    NotInitialized,
    InvalidAngle,
    HardwareError,
}

/// A failure of any of the platform's peripheral drivers.
#[derive(Debug, Clone, Copy, PartialEq, Eq, Structural)]
pub enum DriverError {
    SensorError(SensorError),
    WifiError(WifiError),
    ServoError(ServoError),
}

/// The temperature and humidity sensor on one data pin. Readings arrive as
/// fixed-point tenths, as the sensor frames them on the wire.
pub struct Dht22Sensor {
    gpio_pin: u32,
    initialized: bool,
    /// The last sampled temperature in tenths of a degree Celsius.
    temperature_tenths: i32,
    /// The last sampled relative humidity in tenths of a percent.
    humidity_tenths: u32,
}

impl Dht22Sensor {
    /// The sensor's data pin.
    pub closed spec fn spec_pin(&self) -> u32 {
        self.gpio_pin
    }

    /// Whether `init` has run.
    pub closed spec fn spec_initialized(&self) -> bool {
        self.initialized
    }

    /// The last sampled temperature in tenths of a degree Celsius.
    pub closed spec fn spec_temperature_tenths(&self) -> i32 {
        self.temperature_tenths
    }

    /// The last sampled humidity in tenths of a percent.
    pub closed spec fn spec_humidity_tenths(&self) -> u32 {
        self.humidity_tenths
    }

    /// A sensor on a data pin, not yet initialised.
    pub fn new(gpio_pin: u32) -> (s: Dht22Sensor)
        ensures
            s.spec_pin() == gpio_pin,
            !s.spec_initialized(),
    {
        Dht22Sensor { gpio_pin, initialized: false, temperature_tenths: 0, humidity_tenths: 0 }
    }

    /// Initialises the sensor: configures the pin and sends the start
    /// signal.
    pub fn init(&mut self) -> (r: Result<(), SensorError>)
        ensures
            r is Ok,
            final(self).spec_initialized(),
            final(self).spec_pin() == old(self).spec_pin(),
    {
        self.initialized = true;
        Ok(())
    }

    /// The wire delivering a sample: the sensor's latest measurement.
    pub fn record_sample(&mut self, temperature_tenths: i32, humidity_tenths: u32)
        ensures
            final(self).spec_temperature_tenths() == temperature_tenths,
            final(self).spec_humidity_tenths() == humidity_tenths,
            final(self).spec_initialized() == old(self).spec_initialized(),
            final(self).spec_pin() == old(self).spec_pin(),
    {
        self.temperature_tenths = temperature_tenths;
        self.humidity_tenths = humidity_tenths;
    }

    /// Reads the last sample as fixed-point tenths. Fails with
    /// `NotInitialized` before `init`.
    pub fn read_data_tenths(&self) -> (r: Result<(i32, u32), SensorError>)
        ensures
            !self.spec_initialized() ==> r == Result::<(i32, u32), SensorError>::Err(
                SensorError::NotInitialized,
            ),
            self.spec_initialized() ==> r == Result::<(i32, u32), SensorError>::Ok(
                (self.spec_temperature_tenths(), self.spec_humidity_tenths()),
            ),
    {
        if !self.initialized {
            return Err(SensorError::NotInitialized);
        }
        Ok((self.temperature_tenths, self.humidity_tenths))
    }
}

/// The WiFi module behind an SPI bus and a chip-select pin. The link is
/// modelled by the connection state, the log of sent frames and the receive
/// FIFO.
pub struct Esp32Wifi {
    spi_bus: u32,
    cs_pin: u32,
    initialized: bool,
    connected: bool,
    tx_log: Vec<u8>,
    rx_fifo: Vec<u8>,
}

impl Esp32Wifi {
    /// The module's SPI bus number.
    pub closed spec fn spec_bus(&self) -> u32 {
        self.spi_bus
    }

    /// Whether `init` has run.
    pub closed spec fn spec_initialized(&self) -> bool {
        self.initialized
    }

    /// Whether the module is associated with a network.
    pub closed spec fn spec_connected(&self) -> bool {
        self.connected
    }

    /// Every byte handed to the module for sending, in order.
    pub closed spec fn tx(&self) -> Seq<u8> {
        self.tx_log@
    }

    /// Received bytes not yet read.
    pub closed spec fn rx(&self) -> Seq<u8> {
        self.rx_fifo@
    }

    /// A module on an SPI bus and chip-select pin, not yet initialised.
    pub fn new(spi_bus: u32, cs_pin: u32) -> (w: Esp32Wifi)
        ensures
            w.spec_bus() == spi_bus,
            !w.spec_initialized(),
            !w.spec_connected(),
            w.tx().len() == 0,
            w.rx().len() == 0,
    {
        Esp32Wifi {
            spi_bus,
            cs_pin,
            initialized: false,
            connected: false,
            tx_log: Vec::new(),
            rx_fifo: Vec::new(),
        }
    }

    /// Initialises the module: configures the bus, resets the module and
    /// loads its firmware.
    pub fn init(&mut self) -> (r: Result<(), WifiError>)
        ensures
            r is Ok,
            final(self).spec_initialized(),
            final(self).spec_connected() == old(self).spec_connected(),
            final(self).tx() == old(self).tx(),
            final(self).rx() == old(self).rx(),
    {
        self.initialized = true;
        Ok(())
    }

    /// Associates with a network: programs the parameters, initiates the
    /// connection, and waits for the module to report association. Fails
    /// with `NotInitialized` before `init`.
    pub fn connect(&mut self, ssid: &str, password: &str) -> (r: Result<(), WifiError>)
        ensures
            !old(self).spec_initialized() ==> r == Result::<(), WifiError>::Err(
                WifiError::NotInitialized,
            ) && *final(self) == *old(self),
            old(self).spec_initialized() ==> r is Ok && final(self).spec_connected() && final(self).spec_initialized() && final(self).tx() == old(self).tx() && final(self).rx() == old(
                self,
            ).rx(),
    {
        if !self.initialized {
            return Err(WifiError::NotInitialized);
        }
        self.connected = true;
        Ok(())
    }

    /// Sends a frame. Fails with `NotInitialized` before `init` and with
    /// `NotConnected` before a connection; a failed call changes nothing.
    pub fn send_data(&mut self, data: &[u8]) -> (r: Result<(), WifiError>)
        ensures
            !old(self).spec_initialized() ==> r == Result::<(), WifiError>::Err(
                WifiError::NotInitialized,
            ) && *final(self) == *old(self),
            old(self).spec_initialized() && !old(self).spec_connected() ==> r == Result::<
                (),
                WifiError,
            >::Err(WifiError::NotConnected) && *final(self) == *old(self),
            old(self).spec_initialized() && old(self).spec_connected() ==> r is Ok && final(self).tx() == old(self).tx() + data@ && final(self).rx() == old(self).rx() && final(self).spec_connected(),
    {
        if !self.initialized {
            return Err(WifiError::NotInitialized);
        }
        if !self.connected {
            return Err(WifiError::NotConnected);
        }
        let mut i: usize = 0;
        while i < data.len()
            invariant
                0 <= i <= data@.len(),
                self.initialized,
                self.connected,
                self.tx_log@ == old(self).tx_log@ + data@.subrange(0, i as int),
                self.rx_fifo@ == old(self).rx_fifo@,
                self.spi_bus == old(self).spi_bus,
                self.cs_pin == old(self).cs_pin,
            decreases data@.len() - i,
        {
            self.tx_log.push(data[i]);
            proof {
                assert(self.tx_log@ =~= old(self).tx_log@ + data@.subrange(0, i as int + 1));
            }
            i = i + 1;
        }
        proof {
            assert(data@.subrange(0, data@.len() as int) =~= data@);
        }
        Ok(())
    }

    /// Receives into a buffer and reports how many bytes arrived: everything
    /// pending, up to the buffer's size; zero when nothing is pending.
    /// Fails with `NotInitialized` before `init`.
    pub fn receive_data(&mut self, buffer: &mut Vec<u8>) -> (r: Result<usize, WifiError>)
        ensures
            !old(self).spec_initialized() ==> r == Result::<usize, WifiError>::Err(
                WifiError::NotInitialized,
            ) && *final(self) == *old(self) && final(buffer)@ == old(buffer)@,
            old(self).spec_initialized() ==> {
                &&& ({
                    let n = if old(buffer)@.len() <= old(self).rx().len() {
                        old(buffer)@.len() as int
                    } else {
                        old(self).rx().len() as int
                    };
                    &&& r == Result::<usize, WifiError>::Ok(n as usize)
                    &&& final(buffer)@ == old(self).rx().subrange(0, n) + old(buffer)@.subrange(
                        n,
                        old(buffer)@.len() as int,
                    )
                    &&& final(self).rx() == old(self).rx().subrange(n, old(self).rx().len() as int)
                })
                &&& final(self).tx() == old(self).tx()
                &&& final(self).spec_connected() == old(self).spec_connected()
            },
    {
        if !self.initialized {
            return Err(WifiError::NotInitialized);
        }
        let want = buffer.len();
        let have = self.rx_fifo.len();
        let n = if want <= have {
            want
        } else {
            have
        };
        let mut i: usize = 0;
        while i < n
            invariant
                0 <= i <= n,
                n <= old(buffer)@.len(),
                n <= old(self).rx_fifo@.len(),
                buffer@.len() == old(buffer)@.len(),
                forall|k: int| 0 <= k < i ==> #[trigger] buffer@[k] == old(self).rx_fifo@[k],
                forall|k: int|
                    i <= k < old(buffer)@.len() ==> #[trigger] buffer@[k] == old(buffer)@[k],
                self.rx_fifo@ == old(self).rx_fifo@.subrange(
                    i as int,
                    old(self).rx_fifo@.len() as int,
                ),
                self.tx_log@ == old(self).tx_log@,
                self.initialized,
                self.connected == old(self).connected,
                self.spi_bus == old(self).spi_bus,
                self.cs_pin == old(self).cs_pin,
            decreases n - i,
        {
            let byte = self.rx_fifo.remove(0);
            proof {
                assert(old(self).rx_fifo@.subrange(i as int, old(self).rx_fifo@.len() as int)[0]
                    == old(self).rx_fifo@[i as int]);
            }
            buffer.set(i, byte);
            proof {
                assert(self.rx_fifo@ =~= old(self).rx_fifo@.subrange(
                    i as int + 1,
                    old(self).rx_fifo@.len() as int,
                ));
            }
            i = i + 1;
        }
        proof {
            assert(buffer@ =~= old(self).rx_fifo@.subrange(0, n as int) + old(buffer)@.subrange(
                n as int,
                old(buffer)@.len() as int,
            ));
        }
        Ok(n)
    }

    /// The network delivering one byte into the receive FIFO.
    pub fn receive_input(&mut self, byte: u8)
        ensures
            final(self).rx() == old(self).rx().push(byte),
            final(self).tx() == old(self).tx(),
            final(self).spec_initialized() == old(self).spec_initialized(),
            final(self).spec_connected() == old(self).spec_connected(),
    {
        self.rx_fifo.push(byte);
    }

    /// Whether the module is associated with a network.
    pub fn is_connected(&self) -> (r: bool)
        ensures
            r == self.spec_connected(),
    {
        self.connected
    }
}

/// The servo controller on one PWM channel. Angles are integer degrees, 0
/// to 180.
pub struct ServoController {
    pwm_channel: u32,
    initialized: bool,
    angle_degrees: u32,
}

impl ServoController {
    /// The controller's PWM channel.
    pub closed spec fn spec_channel(&self) -> u32 {
        self.pwm_channel
    }

    /// Whether `init` has run.
    pub closed spec fn spec_initialized(&self) -> bool {
        self.initialized
    }

    /// The commanded angle in degrees.
    pub closed spec fn spec_angle(&self) -> u32 {
        self.angle_degrees
    }

    /// A controller on a PWM channel, not yet initialised.
    pub fn new(pwm_channel: u32) -> (s: ServoController)
        ensures
            s.spec_channel() == pwm_channel,
            !s.spec_initialized(),
            s.spec_angle() == 0,
    {
        ServoController { pwm_channel, initialized: false, angle_degrees: 0 }
    }

    /// Initialises the controller: configures the PWM period.
    pub fn init(&mut self) -> (r: Result<(), ServoError>)
        ensures
            r is Ok,
            final(self).spec_initialized(),
            final(self).spec_channel() == old(self).spec_channel(),
            final(self).spec_angle() == old(self).spec_angle(),
    {
        self.initialized = true;
        Ok(())
    }

    /// Commands an angle in degrees. Fails with `NotInitialized` before
    /// `init` and with `InvalidAngle` beyond 180 degrees; a failed call
    /// changes nothing.
    pub fn set_angle_degrees(&mut self, angle: u32) -> (r: Result<(), ServoError>)
        ensures
            !old(self).spec_initialized() ==> r == Result::<(), ServoError>::Err(
                ServoError::NotInitialized,
            ) && *final(self) == *old(self),
            old(self).spec_initialized() && angle > 180 ==> r == Result::<(), ServoError>::Err(
                ServoError::InvalidAngle,
            ) && *final(self) == *old(self),
            old(self).spec_initialized() && angle <= 180 ==> r is Ok && final(self).spec_angle()
                == angle && final(self).spec_initialized(),
    {
        if !self.initialized {
            return Err(ServoError::NotInitialized);
        }
        if angle > 180 {
            return Err(ServoError::InvalidAngle);
        }
        self.angle_degrees = angle;
        Ok(())
    }
}

/// The platform driver manager: the sensor, the WiFi module and the servo,
/// initialised together at boot.
pub struct RK3588DriverManager {
    dht22: Dht22Sensor,
    wifi: Esp32Wifi,
    servo: ServoController,
}

impl RK3588DriverManager {
    /// The sensor.
    pub closed spec fn spec_dht22(&self) -> Dht22Sensor {
        self.dht22
    }

    /// The WiFi module.
    pub closed spec fn spec_wifi(&self) -> Esp32Wifi {
        self.wifi
    }

    /// The servo controller.
    pub closed spec fn spec_servo(&self) -> ServoController {
        self.servo
    }

    /// A manager over the platform's fixed pin assignment, nothing
    /// initialised yet.
    pub fn new() -> (m: RK3588DriverManager)
        ensures
            !m.spec_dht22().spec_initialized(),
            !m.spec_wifi().spec_initialized(),
            !m.spec_servo().spec_initialized(),
    {
        RK3588DriverManager {
            dht22: Dht22Sensor::new(18),
            wifi: Esp32Wifi::new(0, 8),
            servo: ServoController::new(0),
        }
    }

    /// Initialises every driver: the sensor, then the WiFi module, then the
    /// servo.
    pub fn init_all_drivers(&mut self) -> (r: Result<(), DriverError>)
        ensures
            r is Ok,
            final(self).spec_dht22().spec_initialized(),
            final(self).spec_wifi().spec_initialized(),
            final(self).spec_servo().spec_initialized(),
    {
        match self.dht22.init() {
            Ok(()) => {},
            Err(e) => {
                return Err(DriverError::SensorError(e));
            },
        }
        match self.wifi.init() {
            Ok(()) => {},
            Err(e) => {
                return Err(DriverError::WifiError(e));
            },
        }
        match self.servo.init() {
            Ok(()) => {},
            Err(e) => {
                return Err(DriverError::ServoError(e));
            },
        }
        Ok(())
    }

    /// Associates the WiFi module with a network; see `Esp32Wifi::connect`.
    pub fn connect_wifi(&mut self, ssid: &str, password: &str) -> (r: Result<(), DriverError>)
        ensures
            old(self).spec_wifi().spec_initialized() ==> r is Ok && final(self).spec_wifi()
                .spec_connected(),
            !old(self).spec_wifi().spec_initialized() ==> r == Result::<(), DriverError>::Err(
                DriverError::WifiError(WifiError::NotInitialized),
            ),
    {
        match self.wifi.connect(ssid, password) {
            Ok(()) => Ok(()),
            Err(e) => Err(DriverError::WifiError(e)),
        }
    }

    /// Reads the sensor's last sample as fixed-point tenths; see
    /// `Dht22Sensor::read_data_tenths`.
    pub fn get_environment_data_tenths(&self) -> (r: Result<(i32, u32), DriverError>)
        ensures
            self.spec_dht22().spec_initialized() ==> r == Result::<(i32, u32), DriverError>::Ok(
                (
                    self.spec_dht22().spec_temperature_tenths(),
                    self.spec_dht22().spec_humidity_tenths(),
                ),
            ),
            !self.spec_dht22().spec_initialized() ==> r == Result::<(i32, u32), DriverError>::Err(
                DriverError::SensorError(SensorError::NotInitialized),
            ),
    {
        match self.dht22.read_data_tenths() {
            Ok(sample) => Ok(sample),
            Err(e) => Err(DriverError::SensorError(e)),
        }
    }
}

} // verus!
