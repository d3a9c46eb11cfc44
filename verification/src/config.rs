//! Connection configuration for reaching the module from the host.
//!
//! These values describe the serial device and the control lines the
//! surrounding application opens before a session starts. Loading them from
//! a file is the application's business; the core only defines the shape,
//! an example instance and the validation of the stop-bit count.

use vstd::prelude::*;

verus! {

/// Host-side UART parity used when opening the serial port.
#[derive(Clone, Copy, Debug, PartialEq, Eq, Structural)]
pub enum Parity {
    /// No parity bit.
    ParityNone,
    /// Even parity.
    ParityEven,
    /// Odd parity.
    ParityOdd,
}

/// Number of stop bits used when opening the serial port.
#[derive(Clone, Copy, Debug, PartialEq, Eq, Structural)]
pub enum StopBits {
    /// One stop bit.
    Stop1,
    /// Two stop bits.
    Stop2,
}

impl StopBits {
    /// Validate a stop-bit count read from external input.
    /// Only the counts 1 and 2 name a real setting; anything else is refused.
    pub fn from_count(value: u8) -> (r: Option<StopBits>)
        ensures
            r == (if value == 1 {
                Some(StopBits::Stop1)
            } else if value == 2 {
                Some(StopBits::Stop2)
            } else {
                None::<StopBits>
            }),
    {
        match value {
            1 => Some(StopBits::Stop1),
            2 => Some(StopBits::Stop2),
            _ => None,
        }
    }
}

/// Configuration for connecting to the module.
#[derive(Clone, Debug, PartialEq, Eq)]
pub struct Config {
    /// Path of the serial device.
    pub serial_path: String,
    /// Host-side UART baud rate.
    pub baudrate: u32,
    /// Host-side UART parity.
    pub parity: Parity,
    /// Bits per character on the serial line.
    pub data_bits: u8,
    /// Stop bits on the serial line (validated by [`StopBits::from_count`]).
    pub stop_bits: u8,
    /// Path of the GPIO character device holding the control lines.
    pub gpiochip_path: String,
    /// Line number of the readiness input.
    pub aux_pin: u32,
    /// Line number of the first mode-select output.
    pub m0_pin: u32,
    /// Line number of the second mode-select output.
    pub m1_pin: u32,
}

impl Config {
    /// Example configuration, shown to the operator when theirs cannot be read.
    pub fn example() -> (c: Self)
        ensures
            c.serial_path@ == "dev/ttyAMA0"@,
            c.baudrate == 9600,
            c.parity == Parity::ParityNone,
            c.data_bits == 8,
            c.stop_bits == 1,
            c.gpiochip_path@ == "/dev/gpiochip0"@,
            c.aux_pin == 18,
            c.m0_pin == 23,
            c.m1_pin == 24,
    {
        Config {
            serial_path: "dev/ttyAMA0".to_owned(),
            baudrate: 9600,
            parity: Parity::ParityNone,
            data_bits: 8,
            stop_bits: 1,
            gpiochip_path: "/dev/gpiochip0".to_owned(),
            aux_pin: 18,
            m0_pin: 23,
            m1_pin: 24,
        }
    }
}

} // verus!
