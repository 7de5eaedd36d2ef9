//! Driver for the TCA6424 24-bit I2C I/O expander.
//!
//! The expander exposes 24 I/O lines as three 8-bit ports, each with an
//! input, output, polarity inversion, configuration (direction) and
//! interrupt mask register. This driver maps logical pin and port
//! operations onto that register file over a caller-supplied byte-oriented
//! bus transport, one-bit-at-a-time through read-modify-write sequences or
//! port-at-a-time, and batches multi-register transfers into single
//! transactions through the device's auto-increment addressing.
//!
//! Every operation's contract pins down the exact frames put on the wire,
//! stated over the transport's ghost transaction history, and how returned
//! values decode the bytes the device sent back. Transport failures are
//! wrapped and propagated unchanged; nothing is retried and no register
//! state is cached.

use vstd::prelude::*;

pub mod bits;
pub mod bus;
pub mod data_types;
pub mod errors;
pub mod laws;
pub mod registers;

pub use data_types::{Pin, PinDirection, PinState, Port};
pub use errors::Error;
pub use registers::{Register, RegisterKind};

use bits::{get_bit, read_bit, update_bit, write_bit};
use bus::{
    ai_command, batch_payload, batch_read_transaction, batch_write_transaction, is_read_step,
    is_rmw_step, read_transaction, rmw_transactions, write_transaction, I2cBus, Transaction,
};
use data_types::{
    bit_of_pin, direction_bit, direction_of_bit, pin_bit, pin_port, port_of_pin, state_bit,
    state_of_bit,
};
use registers::{address_of, lookup_register, register_address, register_for};

verus! {

/// Default 7-bit device address, with both address-select pins tied low.
pub const DEFAULT_ADDRESS: u8 = 0x22;

/// Driver for the TCA6424 24-bit I2C I/O expander.
///
/// The driver owns one bus transport handle and the fixed 7-bit address of
/// one device, and keeps no other state: every operation is a fresh bus
/// transaction reflecting live device state. Its contracts describe, over
/// the transport's transaction history, exactly which frames each operation
/// puts on the wire and how the returned values relate to the bytes the
/// device sent back.
pub struct Tca6424<B> {
    /// The bus transport handle, exclusively owned for the driver's
    /// lifetime; no other user may issue traffic on it concurrently.
    pub i2c: B,
    /// The fixed 7-bit device address, supplied at construction.
    pub address: u8,
}

impl<B: I2cBus> Tca6424<B> {
    /// The bus transactions issued through this driver's handle, oldest
    /// first.
    pub open spec fn history(&self) -> Seq<Transaction> {
        self.i2c.history()
    }

    /// Creates a driver instance over a bus handle and a device address.
    ///
    /// Construction touches the bus in no way and cannot fail.
    pub fn new(i2c: B, address: u8) -> (r: Result<Self, Error<B::BusError>>)
        ensures
            r matches Ok(d) && d.address == address && d.i2c == i2c,
    {
        Ok(Self { i2c, address })
    }

    /// Writes a single byte to the given register.
    ///
    /// The frame is `[register_address, value]` with the auto-increment
    /// flag clear, so exactly one register is targeted.
    pub fn write_register(&mut self, register: Register, value: u8) -> (r: Result<
        (),
        Error<B::BusError>,
    >)
        ensures
            final(self).address == old(self).address,
            match r {
                Ok(_) => final(self).history() == old(self).history().push(
                    write_transaction(old(self).address, register, value),
                ),
                Err(e) => e is I2c && final(self).history() == old(self).history(),
            },
    {
        let command_byte = address_of(register);
        let mut frame: Vec<u8> = Vec::new();
        frame.push(command_byte);
        frame.push(value);
        proof {
            assert(frame@ =~= seq![register_address(register), value]);
        }
        match self.i2c.write(self.address, frame.as_slice()) {
            Ok(_) => Ok(()),
            Err(e) => Err(Error::I2c(e)),
        }
    }

    /// Reads a single byte from the given register.
    ///
    /// The command byte `[register_address]` is written with the
    /// auto-increment flag clear, then one byte is read back via a repeated
    /// start.
    pub fn read_register(&mut self, register: Register) -> (r: Result<u8, Error<B::BusError>>)
        ensures
            final(self).address == old(self).address,
            match r {
                Ok(v) => final(self).history() == old(self).history().push(
                    read_transaction(old(self).address, register, v),
                ),
                Err(e) => e is I2c && final(self).history() == old(self).history(),
            },
    {
        let command_byte = address_of(register);
        let mut command: Vec<u8> = Vec::new();
        command.push(command_byte);
        let mut read_buffer: Vec<u8> = Vec::new();
        read_buffer.push(0);
        proof {
            assert(command@ =~= seq![register_address(register)]);
        }
        match self.i2c.write_read(self.address, command.as_slice(), read_buffer.as_mut_slice()) {
            Ok(_) => {
                let value = read_buffer[0];
                proof {
                    assert(read_buffer@ =~= seq![value]);
                }
                Ok(value)
            },
            Err(e) => Err(Error::I2c(e)),
        }
    }

    /// Writes up to three consecutive registers in one transaction, using
    /// the device's auto-increment addressing.
    ///
    /// The frame is `[start_address | 0x80, values[0..n]]` with
    /// `n = min(values.len(), 3)`: no register kind spans more than three
    /// consecutive registers, so longer slices are truncated silently.
    pub fn write_registers_ai(&mut self, start_register: Register, values: &[u8]) -> (r: Result<
        (),
        Error<B::BusError>,
    >)
        ensures
            final(self).address == old(self).address,
            match r {
                Ok(_) => final(self).history() == old(self).history().push(
                    batch_write_transaction(old(self).address, start_register, values@),
                ),
                Err(e) => e is I2c && final(self).history() == old(self).history(),
            },
    {
        let command_byte = address_of(start_register) | 0x80;
        let len = if values.len() < 3 {
            values.len()
        } else {
            3
        };
        let mut frame: Vec<u8> = Vec::new();
        frame.push(command_byte);
        let mut i: usize = 0;
        while i < len
            invariant
                i <= len,
                len <= values@.len(),
                len <= 3,
                frame@ == seq![command_byte] + values@.subrange(0, i as int),
            decreases len - i,
        {
            frame.push(values[i]);
            i = i + 1;
            proof {
                assert(frame@ =~= seq![command_byte] + values@.subrange(0, i as int));
            }
        }
        proof {
            assert(frame@ =~= seq![ai_command(start_register)] + batch_payload(values@));
        }
        match self.i2c.write(self.address, frame.as_slice()) {
            Ok(_) => Ok(()),
            Err(e) => Err(Error::I2c(e)),
        }
    }

    /// Reads `buffer.len()` consecutive registers in one transaction, using
    /// the device's auto-increment addressing.
    ///
    /// The command byte `[start_address | 0x80]` is written, then the whole
    /// buffer is filled via a repeated start, one byte per register in
    /// address order. The buffer's length is trusted: asking for more
    /// registers than the kind group holds is a caller error the device
    /// leaves undefined.
    pub fn read_registers_ai(&mut self, start_register: Register, buffer: &mut [u8]) -> (r: Result<
        (),
        Error<B::BusError>,
    >)
        ensures
            final(self).address == old(self).address,
            final(buffer)@.len() == old(buffer)@.len(),
            match r {
                Ok(_) => final(self).history() == old(self).history().push(
                    batch_read_transaction(old(self).address, start_register, final(buffer)@),
                ),
                Err(e) => e is I2c && final(self).history() == old(self).history(),
            },
    {
        let command_byte = address_of(start_register) | 0x80;
        let mut command: Vec<u8> = Vec::new();
        command.push(command_byte);
        proof {
            assert(command@ =~= seq![ai_command(start_register)]);
        }
        match self.i2c.write_read(self.address, command.as_slice(), buffer) {
            Ok(_) => Ok(()),
            Err(e) => Err(Error::I2c(e)),
        }
    }

    /// Reads a register, forces one bit of it to `desired`, and writes the
    /// byte back: two transactions, not atomic at the device level. A
    /// failure on the read half never attempts the write half.
    fn rmw_register_bit(&mut self, register: Register, bit: u8, desired: bool) -> (r: Result<
        (),
        Error<B::BusError>,
    >)
        requires
            bit < 8,
        ensures
            final(self).address == old(self).address,
            match r {
                Ok(_) => is_rmw_step(
                    old(self).history(),
                    final(self).history(),
                    old(self).address,
                    register,
                    bit,
                    desired,
                ),
                Err(e) => e is I2c && (final(self).history() == old(self).history() || is_read_step(
                    old(self).history(),
                    final(self).history(),
                    old(self).address,
                    register,
                )),
            },
    {
        let current = match self.read_register(register) {
            Ok(v) => v,
            Err(e) => {
                return Err(e);
            },
        };
        let updated = write_bit(current, bit, desired);
        match self.write_register(register, updated) {
            Ok(_) => {
                proof {
                    assert(self.history() =~= old(self).history() + rmw_transactions(
                        old(self).address,
                        register,
                        current,
                        update_bit(current, bit, desired),
                    ));
                }
                Ok(())
            },
            Err(e) => Err(e),
        }
    }

    /// Reads a register and extracts one bit of the returned byte.
    fn read_register_bit(&mut self, register: Register, bit: u8) -> (r: Result<
        bool,
        Error<B::BusError>,
    >)
        requires
            bit < 8,
        ensures
            final(self).address == old(self).address,
            match r {
                Ok(b) => exists|v: u8|
                    final(self).history() == old(self).history().push(
                        #[trigger] read_transaction(old(self).address, register, v),
                    ) && b == get_bit(v, bit),
                Err(e) => e is I2c && final(self).history() == old(self).history(),
            },
    {
        let value = match self.read_register(register) {
            Ok(v) => v,
            Err(e) => {
                return Err(e);
            },
        };
        Ok(read_bit(value, bit))
    }

    /// Sets the direction of a single pin by read-modify-write of its
    /// port's configuration register: the current byte is read, exactly the
    /// pin's bit is forced (`1` for input, `0` for output), and the byte is
    /// written back.
    ///
    /// The two transactions are not atomic at the device level: a
    /// concurrent external modification of the same register between them
    /// is lost, an inherent risk of a device without bit-level writes.
    pub fn set_pin_direction(&mut self, pin: Pin, direction: PinDirection) -> (r: Result<
        (),
        Error<B::BusError>,
    >)
        ensures
            final(self).address == old(self).address,
            ({
                let reg = register_for(RegisterKind::Configuration, pin_port(pin));
                match r {
                    Ok(_) => is_rmw_step(
                        old(self).history(),
                        final(self).history(),
                        old(self).address,
                        reg,
                        pin_bit(pin),
                        direction_bit(direction),
                    ),
                    Err(e) => e is I2c && (final(self).history() == old(self).history()
                        || is_read_step(
                        old(self).history(),
                        final(self).history(),
                        old(self).address,
                        reg,
                    )),
                }
            }),
    {
        let register = lookup_register(RegisterKind::Configuration, port_of_pin(pin));
        let bit = bit_of_pin(pin);
        let desired = match direction {
            PinDirection::Input => true,
            PinDirection::Output => false,
        };
        self.rmw_register_bit(register, bit, desired)
    }

    /// Gets the direction of a single pin from its port's configuration
    /// register: a `1` bit is input, a `0` bit output.
    pub fn get_pin_direction(&mut self, pin: Pin) -> (r: Result<PinDirection, Error<B::BusError>>)
        ensures
            final(self).address == old(self).address,
            ({
                let reg = register_for(RegisterKind::Configuration, pin_port(pin));
                match r {
                    Ok(d) => exists|v: u8|
                        final(self).history() == old(self).history().push(
                            #[trigger] read_transaction(old(self).address, reg, v),
                        ) && d == direction_of_bit(get_bit(v, pin_bit(pin))),
                    Err(e) => e is I2c && final(self).history() == old(self).history(),
                }
            }),
    {
        let register = lookup_register(RegisterKind::Configuration, port_of_pin(pin));
        let bit = bit_of_pin(pin);
        match self.read_register_bit(register, bit) {
            Ok(b) => Ok(
                if b {
                    PinDirection::Input
                } else {
                    PinDirection::Output
                },
            ),
            Err(e) => Err(e),
        }
    }

    /// Sets the output level of a single pin by read-modify-write of its
    /// port's output register: exactly the pin's bit is forced (`1` for
    /// high, `0` for low). Only pins configured as outputs drive the new
    /// level on the wire.
    ///
    /// The two transactions are not atomic at the device level; see
    /// [`Self::set_pin_direction`].
    pub fn set_pin_output(&mut self, pin: Pin, state: PinState) -> (r: Result<
        (),
        Error<B::BusError>,
    >)
        ensures
            final(self).address == old(self).address,
            ({
                let reg = register_for(RegisterKind::Output, pin_port(pin));
                match r {
                    Ok(_) => is_rmw_step(
                        old(self).history(),
                        final(self).history(),
                        old(self).address,
                        reg,
                        pin_bit(pin),
                        state_bit(state),
                    ),
                    Err(e) => e is I2c && (final(self).history() == old(self).history()
                        || is_read_step(
                        old(self).history(),
                        final(self).history(),
                        old(self).address,
                        reg,
                    )),
                }
            }),
    {
        let register = lookup_register(RegisterKind::Output, port_of_pin(pin));
        let bit = bit_of_pin(pin);
        let desired = match state {
            PinState::High => true,
            PinState::Low => false,
        };
        self.rmw_register_bit(register, bit, desired)
    }

    /// Gets the level a single pin's output register holds: the register
    /// value, not the physical pin level, which agrees with it only for
    /// pins configured as outputs.
    pub fn get_pin_output_state(&mut self, pin: Pin) -> (r: Result<PinState, Error<B::BusError>>)
        ensures
            final(self).address == old(self).address,
            ({
                let reg = register_for(RegisterKind::Output, pin_port(pin));
                match r {
                    Ok(s) => exists|v: u8|
                        final(self).history() == old(self).history().push(
                            #[trigger] read_transaction(old(self).address, reg, v),
                        ) && s == state_of_bit(get_bit(v, pin_bit(pin))),
                    Err(e) => e is I2c && final(self).history() == old(self).history(),
                }
            }),
    {
        let register = lookup_register(RegisterKind::Output, port_of_pin(pin));
        let bit = bit_of_pin(pin);
        match self.read_register_bit(register, bit) {
            Ok(b) => Ok(
                if b {
                    PinState::High
                } else {
                    PinState::Low
                },
            ),
            Err(e) => Err(e),
        }
    }

    /// Gets the live physical level of a single pin from its port's input
    /// register, whatever the pin's configured direction.
    pub fn get_pin_input_state(&mut self, pin: Pin) -> (r: Result<PinState, Error<B::BusError>>)
        ensures
            final(self).address == old(self).address,
            ({
                let reg = register_for(RegisterKind::Input, pin_port(pin));
                match r {
                    Ok(s) => exists|v: u8|
                        final(self).history() == old(self).history().push(
                            #[trigger] read_transaction(old(self).address, reg, v),
                        ) && s == state_of_bit(get_bit(v, pin_bit(pin))),
                    Err(e) => e is I2c && final(self).history() == old(self).history(),
                }
            }),
    {
        let register = lookup_register(RegisterKind::Input, port_of_pin(pin));
        let bit = bit_of_pin(pin);
        match self.read_register_bit(register, bit) {
            Ok(b) => Ok(
                if b {
                    PinState::High
                } else {
                    PinState::Low
                },
            ),
            Err(e) => Err(e),
        }
    }

    /// Sets the polarity inversion of a single pin by read-modify-write of
    /// its port's polarity inversion register: a `1` bit inverts the level
    /// read from the input register, a `0` bit reads it as-is.
    ///
    /// The two transactions are not atomic at the device level; see
    /// [`Self::set_pin_direction`].
    pub fn set_pin_polarity_inversion(&mut self, pin: Pin, invert: bool) -> (r: Result<
        (),
        Error<B::BusError>,
    >)
        ensures
            final(self).address == old(self).address,
            ({
                let reg = register_for(RegisterKind::PolarityInversion, pin_port(pin));
                match r {
                    Ok(_) => is_rmw_step(
                        old(self).history(),
                        final(self).history(),
                        old(self).address,
                        reg,
                        pin_bit(pin),
                        invert,
                    ),
                    Err(e) => e is I2c && (final(self).history() == old(self).history()
                        || is_read_step(
                        old(self).history(),
                        final(self).history(),
                        old(self).address,
                        reg,
                    )),
                }
            }),
    {
        let register = lookup_register(RegisterKind::PolarityInversion, port_of_pin(pin));
        let bit = bit_of_pin(pin);
        self.rmw_register_bit(register, bit, invert)
    }

    /// Gets the polarity inversion of a single pin from its port's polarity
    /// inversion register: `true` when the pin's bit is `1` (inverted).
    pub fn get_pin_polarity_inversion(&mut self, pin: Pin) -> (r: Result<bool, Error<B::BusError>>)
        ensures
            final(self).address == old(self).address,
            ({
                let reg = register_for(RegisterKind::PolarityInversion, pin_port(pin));
                match r {
                    Ok(b) => exists|v: u8|
                        final(self).history() == old(self).history().push(
                            #[trigger] read_transaction(old(self).address, reg, v),
                        ) && b == get_bit(v, pin_bit(pin)),
                    Err(e) => e is I2c && final(self).history() == old(self).history(),
                }
            }),
    {
        let register = lookup_register(RegisterKind::PolarityInversion, port_of_pin(pin));
        let bit = bit_of_pin(pin);
        self.read_register_bit(register, bit)
    }

    /// Sets the interrupt mask of a single pin by read-modify-write of its
    /// port's interrupt mask register: a `1` bit masks (disables) the
    /// interrupt, a `0` bit enables it.
    ///
    /// The two transactions are not atomic at the device level; see
    /// [`Self::set_pin_direction`].
    pub fn set_pin_interrupt_mask(&mut self, pin: Pin, mask: bool) -> (r: Result<
        (),
        Error<B::BusError>,
    >)
        ensures
            final(self).address == old(self).address,
            ({
                let reg = register_for(RegisterKind::InterruptMask, pin_port(pin));
                match r {
                    Ok(_) => is_rmw_step(
                        old(self).history(),
                        final(self).history(),
                        old(self).address,
                        reg,
                        pin_bit(pin),
                        mask,
                    ),
                    Err(e) => e is I2c && (final(self).history() == old(self).history()
                        || is_read_step(
                        old(self).history(),
                        final(self).history(),
                        old(self).address,
                        reg,
                    )),
                }
            }),
    {
        let register = lookup_register(RegisterKind::InterruptMask, port_of_pin(pin));
        let bit = bit_of_pin(pin);
        self.rmw_register_bit(register, bit, mask)
    }

    /// Gets the interrupt mask of a single pin from its port's interrupt
    /// mask register: `true` when the pin's bit is `1` (masked).
    pub fn get_pin_interrupt_mask(&mut self, pin: Pin) -> (r: Result<bool, Error<B::BusError>>)
        ensures
            final(self).address == old(self).address,
            ({
                let reg = register_for(RegisterKind::InterruptMask, pin_port(pin));
                match r {
                    Ok(b) => exists|v: u8|
                        final(self).history() == old(self).history().push(
                            #[trigger] read_transaction(old(self).address, reg, v),
                        ) && b == get_bit(v, pin_bit(pin)),
                    Err(e) => e is I2c && final(self).history() == old(self).history(),
                }
            }),
    {
        let register = lookup_register(RegisterKind::InterruptMask, port_of_pin(pin));
        let bit = bit_of_pin(pin);
        self.read_register_bit(register, bit)
    }

    /// Sets the direction of all 8 pins of a port at once by writing its
    /// configuration register: each `1` bit makes the pin an input, each
    /// `0` bit an output. No read-modify-write is needed, the caller
    /// supplies the whole byte.
    pub fn set_port_direction(&mut self, port: Port, direction_mask: u8) -> (r: Result<
        (),
        Error<B::BusError>,
    >)
        ensures
            final(self).address == old(self).address,
            match r {
                Ok(_) => final(self).history() == old(self).history().push(
                    write_transaction(
                        old(self).address,
                        register_for(RegisterKind::Configuration, port),
                        direction_mask,
                    ),
                ),
                Err(e) => e is I2c && final(self).history() == old(self).history(),
            },
    {
        self.write_register(lookup_register(RegisterKind::Configuration, port), direction_mask)
    }

    /// Gets the direction mask of a port from its configuration register:
    /// each `1` bit is an input pin, each `0` bit an output pin.
    pub fn get_port_direction(&mut self, port: Port) -> (r: Result<u8, Error<B::BusError>>)
        ensures
            final(self).address == old(self).address,
            match r {
                Ok(m) => final(self).history() == old(self).history().push(
                    read_transaction(
                        old(self).address,
                        register_for(RegisterKind::Configuration, port),
                        m,
                    ),
                ),
                Err(e) => e is I2c && final(self).history() == old(self).history(),
            },
    {
        self.read_register(lookup_register(RegisterKind::Configuration, port))
    }

    /// Sets the output levels of all 8 pins of a port at once by writing
    /// its output register: each `1` bit drives high, each `0` bit low.
    /// Only pins configured as outputs drive the level on the wire.
    pub fn set_port_output(&mut self, port: Port, output_mask: u8) -> (r: Result<
        (),
        Error<B::BusError>,
    >)
        ensures
            final(self).address == old(self).address,
            match r {
                Ok(_) => final(self).history() == old(self).history().push(
                    write_transaction(
                        old(self).address,
                        register_for(RegisterKind::Output, port),
                        output_mask,
                    ),
                ),
                Err(e) => e is I2c && final(self).history() == old(self).history(),
            },
    {
        self.write_register(lookup_register(RegisterKind::Output, port), output_mask)
    }

    /// Gets the output mask a port's output register holds: the register
    /// value, not the physical pin levels.
    pub fn get_port_output_state(&mut self, port: Port) -> (r: Result<u8, Error<B::BusError>>)
        ensures
            final(self).address == old(self).address,
            match r {
                Ok(m) => final(self).history() == old(self).history().push(
                    read_transaction(
                        old(self).address,
                        register_for(RegisterKind::Output, port),
                        m,
                    ),
                ),
                Err(e) => e is I2c && final(self).history() == old(self).history(),
            },
    {
        self.read_register(lookup_register(RegisterKind::Output, port))
    }

    /// Gets the live physical levels of all 8 pins of a port from its input
    /// register, whatever the pins' configured directions.
    pub fn get_port_input_state(&mut self, port: Port) -> (r: Result<u8, Error<B::BusError>>)
        ensures
            final(self).address == old(self).address,
            match r {
                Ok(m) => final(self).history() == old(self).history().push(
                    read_transaction(
                        old(self).address,
                        register_for(RegisterKind::Input, port),
                        m,
                    ),
                ),
                Err(e) => e is I2c && final(self).history() == old(self).history(),
            },
    {
        self.read_register(lookup_register(RegisterKind::Input, port))
    }

    /// Sets the polarity inversion of all 8 pins of a port at once by
    /// writing its polarity inversion register: each `1` bit inverts the
    /// level read from the input register.
    pub fn set_port_polarity_inversion(&mut self, port: Port, inversion_mask: u8) -> (r: Result<
        (),
        Error<B::BusError>,
    >)
        ensures
            final(self).address == old(self).address,
            match r {
                Ok(_) => final(self).history() == old(self).history().push(
                    write_transaction(
                        old(self).address,
                        register_for(RegisterKind::PolarityInversion, port),
                        inversion_mask,
                    ),
                ),
                Err(e) => e is I2c && final(self).history() == old(self).history(),
            },
    {
        self.write_register(
            lookup_register(RegisterKind::PolarityInversion, port),
            inversion_mask,
        )
    }

    /// Gets the polarity inversion mask of a port from its polarity
    /// inversion register: each `1` bit is an inverted pin.
    pub fn get_port_polarity_inversion(&mut self, port: Port) -> (r: Result<u8, Error<B::BusError>>)
        ensures
            final(self).address == old(self).address,
            match r {
                Ok(m) => final(self).history() == old(self).history().push(
                    read_transaction(
                        old(self).address,
                        register_for(RegisterKind::PolarityInversion, port),
                        m,
                    ),
                ),
                Err(e) => e is I2c && final(self).history() == old(self).history(),
            },
    {
        self.read_register(lookup_register(RegisterKind::PolarityInversion, port))
    }

    /// Sets the interrupt mask of all 8 pins of a port at once by writing
    /// its interrupt mask register: each `1` bit masks (disables) the pin's
    /// interrupt, each `0` bit enables it.
    pub fn set_port_interrupt_mask(&mut self, port: Port, mask_value: u8) -> (r: Result<
        (),
        Error<B::BusError>,
    >)
        ensures
            final(self).address == old(self).address,
            match r {
                Ok(_) => final(self).history() == old(self).history().push(
                    write_transaction(
                        old(self).address,
                        register_for(RegisterKind::InterruptMask, port),
                        mask_value,
                    ),
                ),
                Err(e) => e is I2c && final(self).history() == old(self).history(),
            },
    {
        self.write_register(lookup_register(RegisterKind::InterruptMask, port), mask_value)
    }

    /// Gets the interrupt mask of a port from its interrupt mask register:
    /// each `1` bit is a masked (disabled) pin.
    pub fn get_port_interrupt_mask(&mut self, port: Port) -> (r: Result<u8, Error<B::BusError>>)
        ensures
            final(self).address == old(self).address,
            match r {
                Ok(m) => final(self).history() == old(self).history().push(
                    read_transaction(
                        old(self).address,
                        register_for(RegisterKind::InterruptMask, port),
                        m,
                    ),
                ),
                Err(e) => e is I2c && final(self).history() == old(self).history(),
            },
    {
        self.read_register(lookup_register(RegisterKind::InterruptMask, port))
    }

    /// Sets the direction masks of up to three consecutive ports in one
    /// auto-increment write starting at `start_port`; the number of ports
    /// written is the number of masks supplied, truncated to three.
    pub fn set_ports_direction_ai(&mut self, start_port: Port, direction_masks: &[u8]) -> (r:
        Result<(), Error<B::BusError>>)
        ensures
            final(self).address == old(self).address,
            match r {
                Ok(_) => final(self).history() == old(self).history().push(
                    batch_write_transaction(
                        old(self).address,
                        register_for(RegisterKind::Configuration, start_port),
                        direction_masks@,
                    ),
                ),
                Err(e) => e is I2c && final(self).history() == old(self).history(),
            },
    {
        self.write_registers_ai(
            lookup_register(RegisterKind::Configuration, start_port),
            direction_masks,
        )
    }

    /// Reads the direction masks of `buffer.len()` consecutive ports in one
    /// auto-increment read starting at `start_port`, one byte per port in
    /// port order.
    pub fn get_ports_direction_ai(&mut self, start_port: Port, buffer: &mut [u8]) -> (r: Result<
        (),
        Error<B::BusError>,
    >)
        ensures
            final(self).address == old(self).address,
            final(buffer)@.len() == old(buffer)@.len(),
            match r {
                Ok(_) => final(self).history() == old(self).history().push(
                    batch_read_transaction(
                        old(self).address,
                        register_for(RegisterKind::Configuration, start_port),
                        final(buffer)@,
                    ),
                ),
                Err(e) => e is I2c && final(self).history() == old(self).history(),
            },
    {
        self.read_registers_ai(lookup_register(RegisterKind::Configuration, start_port), buffer)
    }

    /// Sets the output masks of up to three consecutive ports in one
    /// auto-increment write starting at `start_port`; the number of ports
    /// written is the number of masks supplied, truncated to three.
    pub fn set_ports_output_ai(&mut self, start_port: Port, output_masks: &[u8]) -> (r: Result<
        (),
        Error<B::BusError>,
    >)
        ensures
            final(self).address == old(self).address,
            match r {
                Ok(_) => final(self).history() == old(self).history().push(
                    batch_write_transaction(
                        old(self).address,
                        register_for(RegisterKind::Output, start_port),
                        output_masks@,
                    ),
                ),
                Err(e) => e is I2c && final(self).history() == old(self).history(),
            },
    {
        self.write_registers_ai(lookup_register(RegisterKind::Output, start_port), output_masks)
    }

    /// Reads the output register masks of `buffer.len()` consecutive ports
    /// in one auto-increment read starting at `start_port`.
    pub fn get_ports_output_state_ai(&mut self, start_port: Port, buffer: &mut [u8]) -> (r: Result<
        (),
        Error<B::BusError>,
    >)
        ensures
            final(self).address == old(self).address,
            final(buffer)@.len() == old(buffer)@.len(),
            match r {
                Ok(_) => final(self).history() == old(self).history().push(
                    batch_read_transaction(
                        old(self).address,
                        register_for(RegisterKind::Output, start_port),
                        final(buffer)@,
                    ),
                ),
                Err(e) => e is I2c && final(self).history() == old(self).history(),
            },
    {
        self.read_registers_ai(lookup_register(RegisterKind::Output, start_port), buffer)
    }

    /// Reads the live input levels of `buffer.len()` consecutive ports in
    /// one auto-increment read starting at `start_port`, one byte per port
    /// in port order.
    pub fn get_ports_input_state_ai(&mut self, start_port: Port, buffer: &mut [u8]) -> (r: Result<
        (),
        Error<B::BusError>,
    >)
        ensures
            final(self).address == old(self).address,
            final(buffer)@.len() == old(buffer)@.len(),
            match r {
                Ok(_) => final(self).history() == old(self).history().push(
                    batch_read_transaction(
                        old(self).address,
                        register_for(RegisterKind::Input, start_port),
                        final(buffer)@,
                    ),
                ),
                Err(e) => e is I2c && final(self).history() == old(self).history(),
            },
    {
        self.read_registers_ai(lookup_register(RegisterKind::Input, start_port), buffer)
    }

    /// Sets the polarity inversion masks of up to three consecutive ports
    /// in one auto-increment write starting at `start_port`; the number of
    /// ports written is the number of masks supplied, truncated to three.
    pub fn set_ports_polarity_inversion_ai(
        &mut self,
        start_port: Port,
        inversion_masks: &[u8],
    ) -> (r: Result<(), Error<B::BusError>>)
        ensures
            final(self).address == old(self).address,
            match r {
                Ok(_) => final(self).history() == old(self).history().push(
                    batch_write_transaction(
                        old(self).address,
                        register_for(RegisterKind::PolarityInversion, start_port),
                        inversion_masks@,
                    ),
                ),
                Err(e) => e is I2c && final(self).history() == old(self).history(),
            },
    {
        self.write_registers_ai(
            lookup_register(RegisterKind::PolarityInversion, start_port),
            inversion_masks,
        )
    }

    /// Reads the polarity inversion masks of `buffer.len()` consecutive
    /// ports in one auto-increment read starting at `start_port`.
    pub fn get_ports_polarity_inversion_ai(&mut self, start_port: Port, buffer: &mut [u8]) -> (r:
        Result<(), Error<B::BusError>>)
        ensures
            final(self).address == old(self).address,
            final(buffer)@.len() == old(buffer)@.len(),
            match r {
                Ok(_) => final(self).history() == old(self).history().push(
                    batch_read_transaction(
                        old(self).address,
                        register_for(RegisterKind::PolarityInversion, start_port),
                        final(buffer)@,
                    ),
                ),
                Err(e) => e is I2c && final(self).history() == old(self).history(),
            },
    {
        self.read_registers_ai(
            lookup_register(RegisterKind::PolarityInversion, start_port),
            buffer,
        )
    }

    /// Sets the interrupt masks of up to three consecutive ports in one
    /// auto-increment write starting at `start_port`; the number of ports
    /// written is the number of masks supplied, truncated to three.
    pub fn set_ports_interrupt_mask_ai(&mut self, start_port: Port, mask_masks: &[u8]) -> (r:
        Result<(), Error<B::BusError>>)
        ensures
            final(self).address == old(self).address,
            match r {
                Ok(_) => final(self).history() == old(self).history().push(
                    batch_write_transaction(
                        old(self).address,
                        register_for(RegisterKind::InterruptMask, start_port),
                        mask_masks@,
                    ),
                ),
                Err(e) => e is I2c && final(self).history() == old(self).history(),
            },
    {
        self.write_registers_ai(
            lookup_register(RegisterKind::InterruptMask, start_port),
            mask_masks,
        )
    }

    /// Reads the interrupt masks of `buffer.len()` consecutive ports in one
    /// auto-increment read starting at `start_port`.
    pub fn get_ports_interrupt_mask_ai(&mut self, start_port: Port, buffer: &mut [u8]) -> (r:
        Result<(), Error<B::BusError>>)
        ensures
            final(self).address == old(self).address,
            final(buffer)@.len() == old(buffer)@.len(),
            match r {
                Ok(_) => final(self).history() == old(self).history().push(
                    batch_read_transaction(
                        old(self).address,
                        register_for(RegisterKind::InterruptMask, start_port),
                        final(buffer)@,
                    ),
                ),
                Err(e) => e is I2c && final(self).history() == old(self).history(),
            },
    {
        self.read_registers_ai(lookup_register(RegisterKind::InterruptMask, start_port), buffer)
    }

    /// Sets the power-up output state of all three ports in one
    /// auto-increment write to the output registers starting at port 0.
    ///
    /// On the wire this is exactly the three-port batch write
    /// `write_registers_ai(OutputPort0, [port0_mask, port1_mask,
    /// port2_mask])`: the frame is `[0x84, port0_mask, port1_mask,
    /// port2_mask]`.
    pub fn set_initial_output_state(
        &mut self,
        port0_mask: u8,
        port1_mask: u8,
        port2_mask: u8,
    ) -> (r: Result<(), Error<B::BusError>>)
        ensures
            final(self).address == old(self).address,
            match r {
                Ok(_) => final(self).history() == old(self).history().push(
                    batch_write_transaction(
                        old(self).address,
                        Register::OutputPort0,
                        seq![port0_mask, port1_mask, port2_mask],
                    ),
                ),
                Err(e) => e is I2c && final(self).history() == old(self).history(),
            },
    {
        let mut masks: Vec<u8> = Vec::new();
        masks.push(port0_mask);
        masks.push(port1_mask);
        masks.push(port2_mask);
        proof {
            assert(masks@ =~= seq![port0_mask, port1_mask, port2_mask]);
        }
        self.write_registers_ai(Register::OutputPort0, masks.as_slice())
    }
}

} // verus!
