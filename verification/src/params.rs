//! Value types for the module's protocol-level operating parameters.
//!
//! A [`DeviceParameters`] value aggregates everything the module keeps in its
//! parameter store. Reconciliation compares whole values: the set is always
//! written atomically, so structural equality is the only comparison used.

use vstd::prelude::*;

verus! {

/// UART parity setting of the module's serial side.
#[derive(Clone, Copy, Debug, PartialEq, Eq, Structural)]
pub enum Parity {
    /// No parity bit.
    NoParity,
    /// Odd parity.
    Odd,
    /// Even parity.
    Even,
}

/// Host-side (UART) byte rate of the module.
#[derive(Clone, Copy, Debug, PartialEq, Eq, Structural)]
pub enum BaudRate {
    Bps1200,
    Bps2400,
    Bps4800,
    Bps9600,
    Bps19200,
    Bps38400,
    Bps57600,
    Bps115200,
}

/// Radio-side (air) byte rate of the module.
#[derive(Clone, Copy, Debug, PartialEq, Eq, Structural)]
pub enum AirBaudRate {
    Bps300,
    Bps1200,
    Bps2400,
    Bps4800,
    Bps9600,
    Bps19200,
}

/// How the module routes transmissions.
#[derive(Clone, Copy, Debug, PartialEq, Eq, Structural)]
pub enum TransmissionMode {
    /// Every byte is broadcast transparently.
    Transparent,
    /// Transmissions carry an explicit target address and channel.
    Fixed,
}

/// Electrical drive mode of the module's readiness line.
#[derive(Clone, Copy, Debug, PartialEq, Eq, Structural)]
pub enum IoDriveMode {
    PushPull,
    OpenCollector,
}

/// Wireless wakeup interval.
#[derive(Clone, Copy, Debug, PartialEq, Eq, Structural)]
pub enum WakeupTime {
    Ms250,
    Ms500,
    Ms750,
    Ms1000,
    Ms1250,
    Ms1500,
    Ms1750,
    Ms2000,
}

/// Whether forward error correction is applied to transmissions.
#[derive(Clone, Copy, Debug, PartialEq, Eq, Structural)]
pub enum ForwardErrorCorrectionMode {
    On,
    Off,
}

/// Radio transmission power.
#[derive(Clone, Copy, Debug, PartialEq, Eq, Structural)]
pub enum TransmissionPower {
    Dbm30,
    Dbm27,
    Dbm24,
    Dbm21,
}

/// Whether a committed parameter set survives a power cycle on the module.
#[derive(Clone, Copy, Debug, PartialEq, Eq, Structural)]
pub enum Persistence {
    /// The parameters are lost when the module loses power.
    Temporary,
    /// The parameters are kept across power cycles.
    Permanent,
}

/// The module's complete protocol-level parameter set.
///
/// A "desired" instance is built once from external input and stays
/// immutable; a "current" instance is fetched from the device at session
/// start; an "actual" instance is fetched again right after a commit.
#[derive(Clone, Copy, Debug, PartialEq, Eq, Structural)]
pub struct DeviceParameters {
    /// Module address (16 bit).
    pub address: u16,
    /// Radio channel (8 bit).
    pub channel: u8,
    /// UART parity.
    pub uart_parity: Parity,
    /// UART baud rate.
    pub uart_rate: BaudRate,
    /// Air baud rate.
    pub air_rate: AirBaudRate,
    /// Transmission mode.
    pub transmission_mode: TransmissionMode,
    /// Drive mode of the readiness line.
    pub io_drive_mode: IoDriveMode,
    /// Wireless wakeup time.
    pub wakeup_time: WakeupTime,
    /// Forward error correction mode.
    pub fec: ForwardErrorCorrectionMode,
    /// Transmission power.
    pub transmission_power: TransmissionPower,
}

/// Read-only descriptor of the module: model, version and capability bits.
/// The core only carries it through to the operator.
#[derive(Clone, Copy, Debug, PartialEq, Eq, Structural)]
pub struct ModelInfo {
    pub model: u8,
    pub version: u8,
    pub features: u8,
}

impl Default for Parity {
    /// No parity bit unless the operator chose otherwise.
    fn default() -> (r: Self)
        ensures
            r == Parity::NoParity,
    {
        Parity::NoParity
    }
}

impl Default for BaudRate {
    /// 9600 baud unless the operator chose otherwise.
    fn default() -> (r: Self)
        ensures
            r == BaudRate::Bps9600,
    {
        BaudRate::Bps9600
    }
}

impl Default for AirBaudRate {
    /// 2400 bps over the air unless the operator chose otherwise.
    fn default() -> (r: Self)
        ensures
            r == AirBaudRate::Bps2400,
    {
        AirBaudRate::Bps2400
    }
}

impl Default for TransmissionMode {
    /// Transparent transmission unless the operator chose otherwise.
    fn default() -> (r: Self)
        ensures
            r == TransmissionMode::Transparent,
    {
        TransmissionMode::Transparent
    }
}

impl Default for IoDriveMode {
    /// Push-pull drive unless the operator chose otherwise.
    fn default() -> (r: Self)
        ensures
            r == IoDriveMode::PushPull,
    {
        IoDriveMode::PushPull
    }
}

impl Default for WakeupTime {
    /// 250 ms wakeup unless the operator chose otherwise.
    fn default() -> (r: Self)
        ensures
            r == WakeupTime::Ms250,
    {
        WakeupTime::Ms250
    }
}

impl Default for ForwardErrorCorrectionMode {
    /// Forward error correction on unless the operator chose otherwise.
    fn default() -> (r: Self)
        ensures
            r == ForwardErrorCorrectionMode::On,
    {
        ForwardErrorCorrectionMode::On
    }
}

impl Default for TransmissionPower {
    /// Full power unless the operator chose otherwise.
    fn default() -> (r: Self)
        ensures
            r == TransmissionPower::Dbm30,
    {
        TransmissionPower::Dbm30
    }
}

impl Default for Persistence {
    /// Commits are temporary unless the operator chose otherwise.
    fn default() -> (r: Self)
        ensures
            r == Persistence::Temporary,
    {
        Persistence::Temporary
    }
}

} // verus!
