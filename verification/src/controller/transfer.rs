//! The payloads of the bus transactions: which bytes to write for a change
//! of a register, which registers to read, and what the bytes read mean.

use crate::buffer::{buffer_bytes, buffer_new, buffer_push};
use crate::common::{Register, RegisterType, AB};
use crate::util::{
    any_in_bank, bank_bits, bank_has_any, bit_of_byte, bits_of_byte, byte_of_bits,
    lemma_pack_is_injective, pack_bank, IntoBits,
};
use vstd::prelude::*;

verus! {

/// The bus address of a device whose three address inputs are all low.
pub const BASE_ADDRESS: u8 = 0x20;

/// What is written to IOCON at startup: MIRROR and ODR, so that either
/// bank's interrupt pulls one shared open-drain line.
pub const IOCON_STARTUP: u8 = 0b01000100;

/// For how long, at least, the reset output is held low at startup, in
/// microseconds.
pub const RESET_PULSE_US: u32 = 1;

/// The bus address of the device: `0x20` with the three address inputs in
/// its low bits, `address_lower_bits[i]` in bit `i`.
pub open spec fn device_address(address_lower_bits: Seq<bool>) -> int {
    0x20 + (if address_lower_bits[0] {
        1int
    } else {
        0int
    }) + (if address_lower_bits[1] {
        2int
    } else {
        0int
    }) + (if address_lower_bits[2] {
        4int
    } else {
        0int
    })
}

pub fn address(address_lower_bits: [bool; 3]) -> (address: u8)
    ensures
        address == device_address(address_lower_bits@),
{
    let mut address = BASE_ADDRESS;
    if address_lower_bits[0] {
        address = address + 1;
    }
    if address_lower_bits[1] {
        address = address + 2;
    }
    if address_lower_bits[2] {
        address = address + 4;
    }
    address
}

/// The payload of the startup write: the address of IOCON in bank A, and
/// [`IOCON_STARTUP`].
pub open spec fn startup_payload() -> Seq<u8> {
    seq![
        (Register { _type: RegisterType::IOCON, ab: AB::A }).spec_address(false) as u8,
        IOCON_STARTUP,
    ]
}

/// The payload of the one write that follows the reset pulse at startup.
pub fn startup_write() -> (payload: heapless::Vec<u8, 3>)
    ensures
        buffer_bytes(payload) == startup_payload(),
{
    let mut buffer = buffer_new();
    let _ = buffer_push(
        &mut buffer,
        (Register { _type: RegisterType::IOCON, ab: AB::A }).address(false),
    );
    let _ = buffer_push(&mut buffer, IOCON_STARTUP);
    assert(buffer_bytes(buffer) =~= startup_payload());
    buffer
}

/// The payload of the write that brings a kind of register from
/// `current_values` to `new_values`, one bit per pin: nothing where no bank
/// changes; the address of the one bank that changes and its new byte; or,
/// where both change, the address of bank A and both new bytes, A's first,
/// the device's pointer going from A to B by itself.
pub open spec fn write_payload(
    register: RegisterType,
    current_values: Seq<bool>,
    new_values: Seq<bool>,
) -> Option<Seq<u8>> {
    let write_a = bank_bits(current_values, AB::A) != bank_bits(new_values, AB::A);
    let write_b = bank_bits(current_values, AB::B) != bank_bits(new_values, AB::B);
    let address_a = (Register { _type: register, ab: AB::A }).spec_address(false) as u8;
    let address_b = (Register { _type: register, ab: AB::B }).spec_address(false) as u8;
    let new_a_byte = byte_of_bits(bank_bits(new_values, AB::A)) as u8;
    let new_b_byte = byte_of_bits(bank_bits(new_values, AB::B)) as u8;
    if write_a && write_b {
        Some(seq![address_a, new_a_byte, new_b_byte])
    } else if write_a {
        Some(seq![address_a, new_a_byte])
    } else if write_b {
        Some(seq![address_b, new_b_byte])
    } else {
        None
    }
}

/// Writes to A, B, both, or none, depending on which banks change: returns
/// the payload of the one bus write that is needed, if any.
pub fn write_registers(
    register: RegisterType,
    current_values: &[bool; 16],
    new_values: &[bool; 16],
) -> (payload: Option<heapless::Vec<u8, 3>>)
    ensures
        payload is Some <==> write_payload(register, current_values@, new_values@) is Some,
        payload matches Some(buffer) ==> Some(buffer_bytes(buffer)) == write_payload(
            register,
            current_values@,
            new_values@,
        ),
{
    let new_a_byte = pack_bank(new_values, AB::A);
    let new_b_byte = pack_bank(new_values, AB::B);
    let write_a = pack_bank(current_values, AB::A) != new_a_byte;
    let write_b = pack_bank(current_values, AB::B) != new_b_byte;
    proof {
        lemma_pack_is_injective(
            bank_bits(current_values@, AB::A),
            bank_bits(new_values@, AB::A),
        );
        lemma_pack_is_injective(
            bank_bits(current_values@, AB::B),
            bank_bits(new_values@, AB::B),
        );
    }
    if !write_a && !write_b {
        return None;
    }
    let first = if write_a {
        AB::A
    } else {
        AB::B
    };
    let mut buffer = buffer_new();
    let _ = buffer_push(&mut buffer, (Register { _type: register, ab: first }).address(false));
    if write_a {
        let _ = buffer_push(&mut buffer, new_a_byte);
    }
    if write_b {
        let _ = buffer_push(&mut buffer, new_b_byte);
    }
    assert(Some(buffer_bytes(buffer)) =~= write_payload(register, current_values@, new_values@));
    Some(buffer)
}

/// A read of one kind of register: the address to set the pointer to, and
/// the number of bytes to read from there, one per bank.
#[derive(Debug, Clone, Copy, PartialEq, Eq, Structural)]
pub struct ReadRequest {
    pub address: u8,
    pub count: usize,
}

/// Whether a value is wanted for each pin.
pub open spec fn wanted(values: Seq<Option<bool>>) -> Seq<bool> {
    Seq::new(16, |i: int| values[i] is Some)
}

/// The read that brings a kind of register for the banks in which `wanted`
/// names a pin: none where it names no pin; otherwise from the first such
/// bank on, one byte per such bank.
pub open spec fn read_request_for(register: RegisterType, wanted: Seq<bool>) -> Option<
    ReadRequest,
> {
    let read_a = any_in_bank(wanted, AB::A);
    let read_b = any_in_bank(wanted, AB::B);
    if read_a {
        Some(
            ReadRequest {
                address: (Register { _type: register, ab: AB::A }).spec_address(false) as u8,
                count: if read_b {
                    2
                } else {
                    1
                },
            },
        )
    } else if read_b {
        Some(
            ReadRequest {
                address: (Register { _type: register, ab: AB::B }).spec_address(false) as u8,
                count: 1,
            },
        )
    } else {
        None
    }
}

/// The place that a bank's byte has among the bytes read, if the bank was
/// read and the byte is there.
pub open spec fn byte_index(wanted: Seq<bool>, ab: AB, len: int) -> Option<int> {
    let index = if ab == AB::B && any_in_bank(wanted, AB::A) {
        1int
    } else {
        0int
    };
    if any_in_bank(wanted, ab) && index < len {
        Some(index)
    } else {
        None
    }
}

/// The values after a read: each value that was wanted and whose bank's
/// byte came is the pin's bit in that byte; every other one is as before.
pub open spec fn read_values(values: Seq<Option<bool>>, bytes: Seq<u8>) -> Seq<Option<bool>> {
    Seq::new(
        16,
        |i: int|
            match byte_index(wanted(values), AB::of_pin(i), bytes.len() as int) {
                Some(index) if values[i] is Some => Some(bit_of_byte(bytes[index], i % 8)),
                _ => values[i],
            },
    )
}

/// Which pins a value is wanted of.
fn wanted_pins(values: &[Option<bool>; 16]) -> (pins: [bool; 16])
    ensures
        pins@ == wanted(values@),
{
    let mut pins = [false; 16];
    let mut i: usize = 0;
    while i < 16
        invariant
            i <= 16,
            forall|k: int| 0 <= k < i ==> #[trigger] pins@[k] == (values@[k] is Some),
        decreases 16 - i,
    {
        pins[i] = values[i].is_some();
        i += 1;
    }
    assert(pins@ =~= wanted(values@));
    pins
}

/// The read that brings a kind of register for the pins whose value is
/// `Some`, if there is such a pin.
pub fn read_request(register: RegisterType, values: &[Option<bool>; 16]) -> (request: Option<
    ReadRequest,
>)
    ensures
        request == read_request_for(register, wanted(values@)),
{
    let pins = wanted_pins(values);
    let read_a = bank_has_any(&pins, AB::A);
    let read_b = bank_has_any(&pins, AB::B);
    if read_a {
        Some(
            ReadRequest {
                address: (Register { _type: register, ab: AB::A }).address(false),
                count: if read_b {
                    2
                } else {
                    1
                },
            },
        )
    } else if read_b {
        Some(
            ReadRequest {
                address: (Register { _type: register, ab: AB::B }).address(false),
                count: 1,
            },
        )
    } else {
        None
    }
}

/// Writes all `Some` with the read value: takes the bytes that the read of
/// [`read_request`] brought, and puts each pin's bit where a value was
/// wanted.
pub fn read_registers(values: &mut [Option<bool>; 16], buffer: &[u8])
    ensures
        final(values)@ == read_values(old(values)@, buffer@),
{
    let pins = wanted_pins(values);
    let read_a = bank_has_any(&pins, AB::A);
    let read_b = bank_has_any(&pins, AB::B);
    if read_a && buffer.len() > 0 {
        let a_values = buffer[0].into_bits_le();
        let mut i: usize = 0;
        while i < 8
            invariant
                i <= 8,
                a_values@ == bits_of_byte(buffer@[0]),
                forall|k: int|
                    0 <= k < i ==> #[trigger] values@[k] == read_values(old(values)@, buffer@)[k],
                forall|k: int| i <= k < 16 ==> #[trigger] values@[k] == old(values)@[k],
                pins@ == wanted(old(values)@),
                any_in_bank(pins@, AB::A),
                buffer@.len() > 0,
            decreases 8 - i,
        {
            if values[i].is_some() {
                values[i] = Some(a_values[i]);
            }
            i += 1;
        }
    }
    let b_index: usize = if read_a {
        1
    } else {
        0
    };
    if read_b && b_index < buffer.len() {
        let b_values = buffer[b_index].into_bits_le();
        let mut i: usize = 0;
        while i < 8
            invariant
                i <= 8,
                b_values@ == bits_of_byte(buffer@[b_index as int]),
                forall|k: int|
                    0 <= k < 8 + i ==> #[trigger] values@[k] == read_values(
                        old(values)@,
                        buffer@,
                    )[k],
                forall|k: int| 8 + i <= k < 16 ==> #[trigger] values@[k] == old(values)@[k],
                pins@ == wanted(old(values)@),
                any_in_bank(pins@, AB::B),
                read_a == any_in_bank(pins@, AB::A),
                b_index == (if read_a {
                    1int
                } else {
                    0int
                }),
                b_index < buffer@.len(),
            decreases 8 - i,
        {
            if values[8 + i].is_some() {
                values[8 + i] = Some(b_values[i]);
            }
            i += 1;
        }
    }
    assert(values@ =~= read_values(old(values)@, buffer@));
}

} // verus!
