//! The register map: addresses and the auto-increment command flag.

use vstd::prelude::*;

use crate::data_types::Port;

verus! {

/// The fifteen device registers: five kinds, one register per port each.
///
/// Addresses are non-contiguous across kinds but contiguous within a kind
/// across its three ports, which is what makes auto-increment batching valid
/// for same-kind multi-port transfers.
#[derive(Debug, Clone, Copy, PartialEq, Eq, Structural)]
pub enum Register {
    /// Input port 0 (address 0x00).
    InputPort0,
    /// Input port 1 (address 0x01).
    InputPort1,
    /// Input port 2 (address 0x02).
    InputPort2,
    /// Output port 0 (address 0x04).
    OutputPort0,
    /// Output port 1 (address 0x05).
    OutputPort1,
    /// Output port 2 (address 0x06).
    OutputPort2,
    /// Polarity inversion port 0 (address 0x08).
    PolarityInversionPort0,
    /// Polarity inversion port 1 (address 0x09).
    PolarityInversionPort1,
    /// Polarity inversion port 2 (address 0x0A).
    PolarityInversionPort2,
    /// Configuration (direction) port 0 (address 0x0C).
    ConfigurationPort0,
    /// Configuration (direction) port 1 (address 0x0D).
    ConfigurationPort1,
    /// Configuration (direction) port 2 (address 0x0E).
    ConfigurationPort2,
    /// Interrupt mask port 0 (address 0x10).
    InterruptMaskPort0,
    /// Interrupt mask port 1 (address 0x11).
    InterruptMaskPort1,
    /// Interrupt mask port 2 (address 0x12).
    InterruptMaskPort2,
}

/// The five register kinds, each realized as three per-port registers.
#[derive(Debug, Clone, Copy, PartialEq, Eq, Structural)]
pub enum RegisterKind {
    /// Input port registers: live pin levels, read-only at this layer.
    Input,
    /// Output port registers: driven levels for pins configured as outputs.
    Output,
    /// Polarity inversion registers: a `1` bit inverts the read input level.
    PolarityInversion,
    /// Configuration registers: a `1` bit makes the pin an input.
    Configuration,
    /// Interrupt mask registers: a `1` bit masks (disables) the interrupt.
    InterruptMask,
}

/// The fixed 7-bit device address of each register.
pub open spec fn register_address(register: Register) -> u8 {
    match register {
        Register::InputPort0 => 0x00,
        Register::InputPort1 => 0x01,
        Register::InputPort2 => 0x02,
        Register::OutputPort0 => 0x04,
        Register::OutputPort1 => 0x05,
        Register::OutputPort2 => 0x06,
        Register::PolarityInversionPort0 => 0x08,
        Register::PolarityInversionPort1 => 0x09,
        Register::PolarityInversionPort2 => 0x0A,
        Register::ConfigurationPort0 => 0x0C,
        Register::ConfigurationPort1 => 0x0D,
        Register::ConfigurationPort2 => 0x0E,
        Register::InterruptMaskPort0 => 0x10,
        Register::InterruptMaskPort1 => 0x11,
        Register::InterruptMaskPort2 => 0x12,
    }
}

/// The register of a given kind that belongs to a given port.
///
/// The mapping is total: with the kinds and ports closed enumerations, no
/// invalid combination is representable.
pub open spec fn register_for(kind: RegisterKind, port: Port) -> Register {
    match kind {
        RegisterKind::Input => match port {
            Port::Port0 => Register::InputPort0,
            Port::Port1 => Register::InputPort1,
            Port::Port2 => Register::InputPort2,
        },
        RegisterKind::Output => match port {
            Port::Port0 => Register::OutputPort0,
            Port::Port1 => Register::OutputPort1,
            Port::Port2 => Register::OutputPort2,
        },
        RegisterKind::PolarityInversion => match port {
            Port::Port0 => Register::PolarityInversionPort0,
            Port::Port1 => Register::PolarityInversionPort1,
            Port::Port2 => Register::PolarityInversionPort2,
        },
        RegisterKind::Configuration => match port {
            Port::Port0 => Register::ConfigurationPort0,
            Port::Port1 => Register::ConfigurationPort1,
            Port::Port2 => Register::ConfigurationPort2,
        },
        RegisterKind::InterruptMask => match port {
            Port::Port0 => Register::InterruptMaskPort0,
            Port::Port1 => Register::InterruptMaskPort1,
            Port::Port2 => Register::InterruptMaskPort2,
        },
    }
}

/// The 7-bit device address of a register.
pub fn address_of(register: Register) -> (a: u8)
    ensures
        a == register_address(register),
        a < 0x80,
{
    match register {
        Register::InputPort0 => 0x00,
        Register::InputPort1 => 0x01,
        Register::InputPort2 => 0x02,
        Register::OutputPort0 => 0x04,
        Register::OutputPort1 => 0x05,
        Register::OutputPort2 => 0x06,
        Register::PolarityInversionPort0 => 0x08,
        Register::PolarityInversionPort1 => 0x09,
        Register::PolarityInversionPort2 => 0x0A,
        Register::ConfigurationPort0 => 0x0C,
        Register::ConfigurationPort1 => 0x0D,
        Register::ConfigurationPort2 => 0x0E,
        Register::InterruptMaskPort0 => 0x10,
        Register::InterruptMaskPort1 => 0x11,
        Register::InterruptMaskPort2 => 0x12,
    }
}

/// The register of a given kind that belongs to a given port.
pub fn lookup_register(kind: RegisterKind, port: Port) -> (r: Register)
    ensures
        r == register_for(kind, port),
{
    match kind {
        RegisterKind::Input => match port {
            Port::Port0 => Register::InputPort0,
            Port::Port1 => Register::InputPort1,
            Port::Port2 => Register::InputPort2,
        },
        RegisterKind::Output => match port {
            Port::Port0 => Register::OutputPort0,
            Port::Port1 => Register::OutputPort1,
            Port::Port2 => Register::OutputPort2,
        },
        RegisterKind::PolarityInversion => match port {
            Port::Port0 => Register::PolarityInversionPort0,
            Port::Port1 => Register::PolarityInversionPort1,
            Port::Port2 => Register::PolarityInversionPort2,
        },
        RegisterKind::Configuration => match port {
            Port::Port0 => Register::ConfigurationPort0,
            Port::Port1 => Register::ConfigurationPort1,
            Port::Port2 => Register::ConfigurationPort2,
        },
        RegisterKind::InterruptMask => match port {
            Port::Port0 => Register::InterruptMaskPort0,
            Port::Port1 => Register::InterruptMaskPort1,
            Port::Port2 => Register::InterruptMaskPort2,
        },
    }
}

} // verus!
