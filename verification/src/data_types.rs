//! Logical pin, port, direction and level types for the expander.

use vstd::prelude::*;

verus! {

/// Direction of a single expander pin.
///
/// In the configuration register a bit value of `1` selects [`Input`] and `0`
/// selects [`Output`]; the inverted sense is fixed by the device.
///
/// [`Input`]: PinDirection::Input
/// [`Output`]: PinDirection::Output
#[derive(Debug, Clone, Copy, PartialEq, Eq, Structural)]
pub enum PinDirection {
    /// Input direction (a `1` bit in the configuration register).
    Input,
    /// Output direction (a `0` bit in the configuration register).
    Output,
}

/// Level of a single expander pin, used for both input and output registers.
///
/// `High` is a `1` bit in the register, `Low` a `0` bit.
#[derive(Debug, Clone, Copy, PartialEq, Eq, Structural)]
pub enum PinState {
    /// Low level (a `0` bit).
    Low,
    /// High level (a `1` bit).
    High,
}

/// One of the 24 I/O lines of the expander.
///
/// Pins are grouped into three 8-bit ports: port 0 holds P00-P07, port 1
/// holds P10-P17, and port 2 holds P20-P27. Keeping the pins a closed
/// enumeration makes an out-of-range pin unrepresentable, so decomposing a
/// pin into its port and bit position is total.
#[derive(Debug, Clone, Copy, PartialEq, Eq, Structural)]
pub enum Pin {
    /// Port 0, bit 0.
    P00,
    /// Port 0, bit 1.
    P01,
    /// Port 0, bit 2.
    P02,
    /// Port 0, bit 3.
    P03,
    /// Port 0, bit 4.
    P04,
    /// Port 0, bit 5.
    P05,
    /// Port 0, bit 6.
    P06,
    /// Port 0, bit 7.
    P07,
    /// Port 1, bit 0.
    P10,
    /// Port 1, bit 1.
    P11,
    /// Port 1, bit 2.
    P12,
    /// Port 1, bit 3.
    P13,
    /// Port 1, bit 4.
    P14,
    /// Port 1, bit 5.
    P15,
    /// Port 1, bit 6.
    P16,
    /// Port 1, bit 7.
    P17,
    /// Port 2, bit 0.
    P20,
    /// Port 2, bit 1.
    P21,
    /// Port 2, bit 2.
    P22,
    /// Port 2, bit 3.
    P23,
    /// Port 2, bit 4.
    P24,
    /// Port 2, bit 5.
    P25,
    /// Port 2, bit 6.
    P26,
    /// Port 2, bit 7.
    P27,
}

/// One of the three 8-bit ports of the expander.
#[derive(Debug, Clone, Copy, PartialEq, Eq, Structural)]
pub enum Port {
    /// Port 0 (pins P00-P07).
    Port0,
    /// Port 1 (pins P10-P17).
    Port1,
    /// Port 2 (pins P20-P27).
    Port2,
}

/// The position of a pin in the flat 0..24 numbering: port * 8 + bit.
pub open spec fn pin_index(pin: Pin) -> u8 {
    match pin {
        Pin::P00 => 0,
        Pin::P01 => 1,
        Pin::P02 => 2,
        Pin::P03 => 3,
        Pin::P04 => 4,
        Pin::P05 => 5,
        Pin::P06 => 6,
        Pin::P07 => 7,
        Pin::P10 => 8,
        Pin::P11 => 9,
        Pin::P12 => 10,
        Pin::P13 => 11,
        Pin::P14 => 12,
        Pin::P15 => 13,
        Pin::P16 => 14,
        Pin::P17 => 15,
        Pin::P20 => 16,
        Pin::P21 => 17,
        Pin::P22 => 18,
        Pin::P23 => 19,
        Pin::P24 => 20,
        Pin::P25 => 21,
        Pin::P26 => 22,
        Pin::P27 => 23,
    }
}

/// The port that owns a pin: index / 8.
pub open spec fn pin_port(pin: Pin) -> Port {
    if pin_index(pin) < 8 {
        Port::Port0
    } else if pin_index(pin) < 16 {
        Port::Port1
    } else {
        Port::Port2
    }
}

/// The bit position of a pin inside its port's registers: index % 8.
pub open spec fn pin_bit(pin: Pin) -> u8 {
    pin_index(pin) % 8
}

/// The configuration register bit that encodes a direction: `1` is input,
/// `0` is output.
pub open spec fn direction_bit(d: PinDirection) -> bool {
    d is Input
}

/// The direction a configuration register bit decodes to.
pub open spec fn direction_of_bit(b: bool) -> PinDirection {
    if b {
        PinDirection::Input
    } else {
        PinDirection::Output
    }
}

/// The register bit that encodes a level: `1` is high, `0` is low.
pub open spec fn state_bit(s: PinState) -> bool {
    s is High
}

/// The level a register bit decodes to.
pub open spec fn state_of_bit(b: bool) -> PinState {
    if b {
        PinState::High
    } else {
        PinState::Low
    }
}

/// Position of a pin in the flat 0..24 numbering.
pub fn pin_index_of(pin: Pin) -> (i: u8)
    ensures
        i == pin_index(pin),
        i < 24,
{
    match pin {
        Pin::P00 => 0,
        Pin::P01 => 1,
        Pin::P02 => 2,
        Pin::P03 => 3,
        Pin::P04 => 4,
        Pin::P05 => 5,
        Pin::P06 => 6,
        Pin::P07 => 7,
        Pin::P10 => 8,
        Pin::P11 => 9,
        Pin::P12 => 10,
        Pin::P13 => 11,
        Pin::P14 => 12,
        Pin::P15 => 13,
        Pin::P16 => 14,
        Pin::P17 => 15,
        Pin::P20 => 16,
        Pin::P21 => 17,
        Pin::P22 => 18,
        Pin::P23 => 19,
        Pin::P24 => 20,
        Pin::P25 => 21,
        Pin::P26 => 22,
        Pin::P27 => 23,
    }
}

/// The port that owns a pin.
pub fn port_of_pin(pin: Pin) -> (p: Port)
    ensures
        p == pin_port(pin),
{
    let i = pin_index_of(pin);
    if i < 8 {
        Port::Port0
    } else if i < 16 {
        Port::Port1
    } else {
        Port::Port2
    }
}

/// The bit position of a pin inside its port's registers.
pub fn bit_of_pin(pin: Pin) -> (b: u8)
    ensures
        b == pin_bit(pin),
        b < 8,
{
    pin_index_of(pin) % 8
}

} // verus!
