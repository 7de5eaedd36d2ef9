//! Driver-level laws: proofs that tie the operations' contracts together.

use vstd::prelude::*;

use crate::bits::{
    get_bit, lemma_update_bit_preserves_others, lemma_update_bit_reads_back, update_bit,
};
use crate::bus::{batch_payload, batch_write_transaction, write_transaction, Transaction};
use crate::data_types::{
    direction_bit, direction_of_bit, pin_bit, pin_index, pin_port, Pin, PinDirection, Port,
};
use crate::registers::{register_for, Register, RegisterKind};

verus! {

/// Law: setting a pin's direction and reading it back returns the direction
/// set, absent intervening mutation of the port register. The byte that
/// `set_pin_direction` writes to the configuration register decodes, at the
/// same pin's bit, back to the direction written, whatever the register
/// held before.
pub proof fn lemma_set_get_direction_round_trip(previous: u8, pin: Pin, direction: PinDirection)
    ensures
        direction_of_bit(
            get_bit(update_bit(previous, pin_bit(pin), direction_bit(direction)), pin_bit(pin)),
        ) == direction,
{
    lemma_update_bit_reads_back(previous, pin_bit(pin), direction_bit(direction));
}

/// Law: setting a pin's polarity inversion and reading it back returns the
/// flag set, absent intervening mutation of the port register. The byte
/// that `set_pin_polarity_inversion` writes to the polarity inversion
/// register decodes, at the same pin's bit, back to the flag written.
pub proof fn lemma_set_get_polarity_round_trip(previous: u8, pin: Pin, invert: bool)
    ensures
        get_bit(update_bit(previous, pin_bit(pin), invert), pin_bit(pin)) == invert,
{
    lemma_update_bit_reads_back(previous, pin_bit(pin), invert);
}

/// Law: a single-pin read-modify-write never mutates bits outside the
/// target bit. The byte it writes back agrees with the byte it read at
/// every other pin of the same port.
pub proof fn lemma_rmw_preserves_other_pins(previous: u8, pin: Pin, other: Pin, b: bool)
    requires
        pin_port(pin) == pin_port(other),
        pin != other,
    ensures
        get_bit(update_bit(previous, pin_bit(pin), b), pin_bit(other)) == get_bit(
            previous,
            pin_bit(other),
        ),
{
    assert(pin_index(pin) != pin_index(other));
    assert(pin_bit(pin) != pin_bit(other));
    lemma_update_bit_preserves_others(previous, pin_bit(pin), pin_bit(other), b);
}

/// Law: the power-up convenience write is byte-identical on the wire to the
/// general three-port batch write of the output registers starting at port
/// 0, and that common frame is exactly `[0x84, port0, port1, port2]`.
pub proof fn lemma_initial_output_is_batch_write(device: u8, port0: u8, port1: u8, port2: u8)
    ensures
        batch_write_transaction(device, Register::OutputPort0, seq![port0, port1, port2])
            == batch_write_transaction(
            device,
            register_for(RegisterKind::Output, Port::Port0),
            seq![port0, port1, port2],
        ),
        batch_write_transaction(device, Register::OutputPort0, seq![port0, port1, port2]) == (
        Transaction::Write { addr: device, data: seq![0x84u8, port0, port1, port2] }),
{
    assert(0x04u8 | 0x80u8 == 0x84u8) by (bit_vector);
    assert(batch_payload(seq![port0, port1, port2]) == seq![port0, port1, port2]);
    assert(seq![0x84u8] + seq![port0, port1, port2] =~= seq![0x84u8, port0, port1, port2]);
}

/// Law: issuing the same single-register write twice appends two
/// byte-identical write transactions; no caching suppresses the second.
/// The two histories are the starting history followed by the same frame
/// twice.
pub proof fn lemma_repeated_register_write_is_idempotent(
    h0: Seq<Transaction>,
    h1: Seq<Transaction>,
    h2: Seq<Transaction>,
    device: u8,
    register: Register,
    value: u8,
)
    requires
        h1 == h0.push(write_transaction(device, register, value)),
        h2 == h1.push(write_transaction(device, register, value)),
    ensures
        h2.len() == h0.len() + 2,
        h2[h0.len() as int] == h2[h0.len() as int + 1],
        h2 == h0 + seq![
            write_transaction(device, register, value),
            write_transaction(device, register, value),
        ],
{
    assert(h2 =~= h0 + seq![
        write_transaction(device, register, value),
        write_transaction(device, register, value),
    ]);
}

} // verus!
