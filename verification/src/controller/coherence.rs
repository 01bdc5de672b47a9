//! Why the runner can be trusted: its writes come in the write order, its
//! cache holds what the device holds, write after write, and a slot is
//! settled only when the device does what the slot asked for.

use crate::common::{InterruptMode, PinState, Register, RegisterType, AB};
use crate::controller::registers::{register_bits, write_order, PinRegisters};
use crate::controller::request::{Request, RequestState};
use crate::controller::runner::{accepted, Event, RunnerState, Step};
use crate::controller::transfer::{
    read_request_for, startup_payload, write_payload, IOCON_STARTUP,
};
use crate::peripheral::model::ChipState;
use crate::util::{bank_bits, bits_of_byte, byte_of_bits, lemma_bits_round_trip, with_bank_byte};
use vstd::prelude::*;

verus! {

/// Whether a kind of register is one that the controller writes.
pub open spec fn cached(kind: RegisterType) -> bool {
    kind == RegisterType::IODIR || kind == RegisterType::GPPU || kind == RegisterType::OLAT || kind
        == RegisterType::DEFVAL || kind == RegisterType::INTCON || kind == RegisterType::GPINTEN
}

/// Whether the device holds, in each kind of register that the controller
/// writes, what the cache says, while its pointer moves between the two
/// banks of a kind as the controller's writes expect.
pub open spec fn coherent(registers: Seq<PinRegisters>, device: ChipState) -> bool {
    &&& !device.bank_mode
    &&& !device.sequential_mode
    &&& forall|kind: RegisterType|
        cached(kind) ==> #[trigger] device.bits(kind) == register_bits(registers, kind)
}

/// The writes of an iteration come in the write order: a write is due only
/// when every kind before its own is up to date. Once it has succeeded its
/// own kind is up to date, in the cache as it was to be, and no other kind
/// has changed. And when no write is due, the cache holds what it was to
/// hold in every kind.
pub proof fn lemma_writes_in_order(runner: RunnerState, earlier: int, other: RegisterType)
    requires
        runner.wf(),
    ensures
        runner.pending_write() matches Some((kind, bytes)) ==> {
            &&& exists|place: int|
                0 <= place < 6 && write_order()[place] == kind && (0 <= earlier < place
                    ==> runner.payload_of(write_order()[earlier]) is None)
            &&& runner.payload_of(kind) == Some(bytes)
            &&& runner.written().payload_of(kind) is None
            &&& register_bits(runner.written().registers, kind) == register_bits(
                runner.desired,
                kind,
            )
            &&& other != kind ==> register_bits(runner.written().registers, other)
                == register_bits(runner.registers, other)
        },
        runner.pending_write() is None ==> (cached(other) ==> register_bits(
            runner.registers,
            other,
        ) == register_bits(runner.desired, other)),
{
    reveal_with_fuel(RunnerState::pending_from, 7);
    match runner.pending_write() {
        Some((kind, bytes)) => {
            let place = choose|place: int| 0 <= place < 6 && write_order()[place] == kind;
            assert(0 <= place < 6 && write_order()[place] == kind && (0 <= earlier < place
                ==> runner.payload_of(write_order()[earlier]) is None));
            assert(register_bits(runner.written().registers, kind) =~= register_bits(
                runner.desired,
                kind,
            ));
            assert(register_bits(runner.written().registers, other) =~= register_bits(
                if other == kind {
                    runner.desired
                } else {
                    runner.registers
                },
                other,
            ));
        },
        None => {
            if cached(other) {
                lemma_banks_make_bits(
                    register_bits(runner.registers, other),
                    register_bits(runner.desired, other),
                );
            }
        },
    }
}

/// What one data byte does to a device whose pointer moves between the two
/// banks of a kind, where it goes to a register that the controller writes.
proof fn lemma_byte_lands(device: ChipState, register: Register, value: u8, other: RegisterType)
    requires
        device.wf(),
        !device.bank_mode,
        !device.sequential_mode,
        cached(register._type),
        device.selected_address == register.spec_address(false),
    ensures
        ({
            let after = device.write_byte(value);
            &&& after.wf()
            &&& !after.bank_mode
            &&& !after.sequential_mode
            &&& after.bits(register._type) == with_bank_byte(
                device.bits(register._type),
                register.ab,
                value,
            )
            &&& cached(other) && other != register._type ==> after.bits(other) == device.bits(
                other,
            )
            &&& after.selected_address == (Register {
                _type: register._type,
                ab: if register.ab == AB::A {
                    AB::B
                } else {
                    AB::A
                },
            }).spec_address(false)
        }),
{
    assert(Register::at_address(register.spec_address(false), false) == Some(register));
}

/// A bank's bits replaced by the byte that the bank's new bits pack to are
/// the bank's new bits.
proof fn lemma_bank_replaced(bits: Seq<bool>, new: Seq<bool>, ab: AB)
    requires
        bits.len() == 16,
        new.len() == 16,
    ensures
        ({
            let after = with_bank_byte(bits, ab, byte_of_bits(bank_bits(new, ab)) as u8);
            &&& after.len() == 16
            &&& bank_bits(after, ab) == bank_bits(new, ab)
            &&& forall|i: int|
                0 <= i < 16 ==> #[trigger] after[i] == (if AB::of_pin(i) == ab {
                    new[i]
                } else {
                    bits[i]
                })
        }),
{
    lemma_bits_round_trip(0, bank_bits(new, ab));
    let after = with_bank_byte(bits, ab, byte_of_bits(bank_bits(new, ab)) as u8);
    assert forall|i: int| 0 <= i < 16 implies #[trigger] after[i] == (if AB::of_pin(i) == ab {
        new[i]
    } else {
        bits[i]
    }) by {
        if AB::of_pin(i) == ab {
            assert(bits_of_byte(byte_of_bits(bank_bits(new, ab)) as u8)[i - 8 * ab.index()]
                == bank_bits(new, ab)[i - 8 * ab.index()]);
        }
    }
    assert(bank_bits(after, ab) =~= bank_bits(new, ab));
}

/// Sixteen bits are the same where both their banks are.
proof fn lemma_banks_make_bits(first: Seq<bool>, second: Seq<bool>)
    requires
        first.len() == 16,
        second.len() == 16,
        bank_bits(first, AB::A) == bank_bits(second, AB::A),
        bank_bits(first, AB::B) == bank_bits(second, AB::B),
    ensures
        first == second,
{
    assert forall|i: int| 0 <= i < 16 implies first[i] == second[i] by {
        if i < 8 {
            assert(first[i] == bank_bits(first, AB::A)[i]);
            assert(second[i] == bank_bits(second, AB::A)[i]);
        } else {
            assert(first[i] == bank_bits(first, AB::B)[i - 8]);
            assert(second[i] == bank_bits(second, AB::B)[i - 8]);
        }
    }
    assert(first =~= second);
}

/// What the write that brings a kind of register up to date does to a
/// device that held the kind's current bits.
proof fn lemma_payload_lands(
    device: ChipState,
    kind: RegisterType,
    new: Seq<bool>,
    other: RegisterType,
)
    requires
        device.wf(),
        !device.bank_mode,
        !device.sequential_mode,
        cached(kind),
        new.len() == 16,
        write_payload(kind, device.bits(kind), new) is Some,
    ensures
        ({
            let after = device.write_transaction(
                write_payload(kind, device.bits(kind), new).unwrap(),
            );
            &&& !after.bank_mode
            &&& !after.sequential_mode
            &&& after.bits(kind) == new
            &&& cached(other) && other != kind ==> after.bits(other) == device.bits(other)
        }),
{
    reveal_with_fuel(ChipState::write_bytes, 3);
    let current = device.bits(kind);
    let bytes = write_payload(kind, current, new).unwrap();
    let a = Register { _type: kind, ab: AB::A };
    let b = Register { _type: kind, ab: AB::B };
    let new_a = byte_of_bits(bank_bits(new, AB::A)) as u8;
    let new_b = byte_of_bits(bank_bits(new, AB::B)) as u8;
    let write_a = bank_bits(current, AB::A) != bank_bits(new, AB::A);
    let write_b = bank_bits(current, AB::B) != bank_bits(new, AB::B);
    let start = ChipState { selected_address: bytes[0], ..device };
    let after = device.write_transaction(bytes);
    if write_a && write_b {
        assert(bytes.skip(1) =~= seq![new_a, new_b]);
        assert(bytes.skip(1).drop_last() =~= seq![new_a]);
        assert(seq![new_a].drop_last() =~= Seq::<u8>::empty());
        let first = start.write_byte(new_a);
        assert(after == first.write_byte(new_b));
        lemma_byte_lands(start, a, new_a, other);
        lemma_byte_lands(first, b, new_b, other);
        lemma_bank_replaced(current, new, AB::A);
        lemma_bank_replaced(first.bits(kind), new, AB::B);
        assert(bank_bits(after.bits(kind), AB::A) =~= bank_bits(new, AB::A));
        lemma_banks_make_bits(after.bits(kind), new);
    } else {
        let (register, value) = if write_a {
            (a, new_a)
        } else {
            (b, new_b)
        };
        assert(bytes.skip(1) =~= seq![value]);
        assert(seq![value].drop_last() =~= Seq::<u8>::empty());
        assert(after == start.write_byte(value));
        lemma_byte_lands(start, register, value, other);
        lemma_bank_replaced(current, new, register.ab);
        if write_a {
            assert(bank_bits(after.bits(kind), AB::B) =~= bank_bits(new, AB::B));
        } else {
            assert(bank_bits(after.bits(kind), AB::A) =~= bank_bits(new, AB::A));
        }
        lemma_banks_make_bits(after.bits(kind), new);
    }
}

/// After each write that succeeds, the cache equals what the write has just
/// put into the device: where the cache described the device before the
/// write, it describes the device after it. A write of two bytes relies on
/// the device's pointer going from bank A to bank B by itself.
pub proof fn lemma_cache_follows_device(runner: RunnerState, device: ChipState)
    requires
        runner.wf(),
        device.wf(),
        coherent(runner.registers, device),
    ensures
        runner.next_step() matches Step::Write { bytes, .. } ==> coherent(
            runner.written().registers,
            device.write_transaction(bytes),
        ),
{
    if let Some((kind, bytes)) = runner.pending_write() {
        lemma_writes_in_order(runner, 0, kind);
        assert(cached(kind)) by {
            reveal_with_fuel(RunnerState::pending_from, 7);
        }
        let new = register_bits(runner.desired, kind);
        let after = device.write_transaction(bytes);
        let cache = runner.written().registers;
        assert(device.bits(kind) == register_bits(runner.registers, kind));
        assert forall|other: RegisterType| cached(other) implies #[trigger] after.bits(other)
            == register_bits(cache, other) by {
            lemma_payload_lands(device, kind, new, other);
            lemma_writes_in_order(runner, 0, other);
        }
        lemma_payload_lands(device, kind, new, kind);
    }
}

/// What the reports of an iteration leave of what a pin's registers are to
/// be: everything, but that the pin's interrupt may have been disabled where
/// no operation wanted it.
proof fn lemma_desired_is_kept(start: RunnerState, events: Seq<Event>, pin: int)
    requires
        start.wf(),
        0 <= pin < 16,
    ensures
        ({
            let end = start.after_all(events);
            &&& end.wf()
            &&& end.snapshot == start.snapshot
            &&& end.desired[pin] == start.desired[pin] || (!start.snapshot[pin].wants_interrupt()
                && end.desired[pin] == PinRegisters { int_enabled: false, ..start.desired[pin] })
        }),
    decreases events.len(),
{
    if events.len() > 0 {
        lemma_desired_is_kept(start, events.drop_last(), pin);
    }
}

/// A pin's registers are what their six bits say.
proof fn lemma_bits_make_registers(first: PinRegisters, second: PinRegisters)
    requires
        forall|kind: RegisterType| cached(kind) ==> #[trigger] first.bit(kind) == second.bit(kind),
    ensures
        first == second,
{
    assert(first.bit(RegisterType::IODIR) == second.bit(RegisterType::IODIR));
    assert(first.bit(RegisterType::GPPU) == second.bit(RegisterType::GPPU));
    assert(first.bit(RegisterType::OLAT) == second.bit(RegisterType::OLAT));
    assert(first.bit(RegisterType::DEFVAL) == second.bit(RegisterType::DEFVAL));
    assert(first.bit(RegisterType::INTCON) == second.bit(RegisterType::INTCON));
    assert(first.bit(RegisterType::GPINTEN) == second.bit(RegisterType::GPINTEN));
}

/// When a slot is settled, the device reflects its operation. Take an
/// iteration that took up the operation of a pin's slot, and any reports
/// after which the slot, unchanged meanwhile, is settled: the cache then
/// holds, for that pin, what the operation asked for. Only the pin's
/// interrupt enable, which an output does not ask for, may have been
/// cleared.
pub proof fn lemma_settled_means_applied(
    runner: RunnerState,
    slots: Seq<Request>,
    interrupt_pending: bool,
    events: Seq<Event>,
    pin: int,
)
    requires
        runner.wf(),
        slots.len() == 16,
        0 <= pin < 16,
        slots[pin].state == RequestState::Requested,
        runner.begun(slots, interrupt_pending).after_all(events).settles(pin, accepted(slots[pin])),
    ensures
        ({
            let end = runner.begun(slots, interrupt_pending).after_all(events);
            let asked = runner.desired[pin].applied(slots[pin].op);
            end.registers[pin] == asked || (slots[pin].op is Output && end.registers[pin] == (
            PinRegisters { int_enabled: false, ..asked }))
        }),
{
    let start = runner.begun(slots, interrupt_pending);
    let end = start.after_all(events);
    let asked = runner.desired[pin].applied(slots[pin].op);
    lemma_desired_is_kept(start, events, pin);
    assert(start.desired[pin] == asked);
    assert(start.snapshot[pin] == accepted(slots[pin]));
    assert forall|kind: RegisterType| cached(kind) implies #[trigger] end.registers[pin].bit(kind)
        == end.desired[pin].bit(kind) by {
        lemma_writes_in_order(end, 0, kind);
        assert(register_bits(end.registers, kind)[pin] == register_bits(end.desired, kind)[pin]);
    }
    lemma_bits_make_registers(end.registers[pin], end.desired[pin]);
}

/// How much bus work an iteration still has before it: one for each kind
/// of register that is out of date, three for an interrupt that is not
/// served yet (its read, the write that may follow it, and the read of GPIO
/// that may follow that), and one for a read of GPIO that is due.
pub open spec fn work_left(runner: RunnerState) -> nat {
    let due = |kind: RegisterType| -> nat {
        if runner.payload_of(kind) is Some {
            1nat
        } else {
            0nat
        }
    };
    due(RegisterType::IODIR) + due(RegisterType::GPPU) + due(RegisterType::OLAT) + due(
        RegisterType::DEFVAL,
    ) + due(RegisterType::INTCON) + due(RegisterType::GPINTEN) + (if runner.interrupt_pending {
        3nat
    } else {
        0nat
    }) + (if read_request_for(RegisterType::GPIO, runner.read_gpios) is Some {
        1nat
    } else {
        0nat
    })
}

/// Every iteration ends. Each action that the runner asks for, once done
/// and reported, whatever it brought, leaves less work than there was; and
/// there are never more than ten pieces of work. So the runner asks for
/// [`Step::Complete`] after ten actions at most.
pub proof fn lemma_iteration_ends(
    runner: RunnerState,
    flags: Seq<u8>,
    captured: Seq<u8>,
    bytes: Seq<u8>,
)
    requires
        runner.wf(),
    ensures
        work_left(runner) <= 10,
        match runner.next_step() {
            Step::Write { .. } => work_left(runner.written()) < work_left(runner),
            Step::ReadInterrupts { .. } => work_left(runner.interrupts_read(flags, captured))
                < work_left(runner),
            Step::ReadGpio(_) => work_left(runner.gpio_read(bytes)) < work_left(runner),
            Step::Complete => work_left(runner) == 0,
        },
{
    reveal_with_fuel(RunnerState::pending_from, 7);
    match runner.next_step() {
        Step::Write { kind, .. } => {
            let after = runner.written();
            assert forall|other: RegisterType| cached(other) && other != kind implies
                #[trigger] after.payload_of(other) == runner.payload_of(other) by {
                lemma_writes_in_order(runner, 0, other);
            }
            lemma_writes_in_order(runner, 0, kind);
        },
        Step::ReadInterrupts { .. } => {
            let after = runner.interrupts_read(flags, captured);
            assert forall|other: RegisterType|
                cached(other) && other != RegisterType::GPINTEN implies #[trigger] after.payload_of(
                other,
            ) is None by {
                assert(register_bits(after.desired, other) =~= register_bits(
                    runner.desired,
                    other,
                ));
            }
        },
        Step::ReadGpio(_) => {
            let after = runner.gpio_read(bytes);
            assert(read_request_for(RegisterType::GPIO, after.read_gpios) is None);
        },
        Step::Complete => {},
    }
}

/// A device that has just been reset and has then taken the controller's
/// startup write holds what a new runner's cache says, with both interrupt
/// outputs mirrored, open-drain and active low.
pub proof fn lemma_startup_is_coherent()
    ensures
        ({
            let device = ChipState::initial().write_transaction(startup_payload());
            &&& coherent(RunnerState::initial().registers, device)
            &&& device.mirror_interrupts
            &&& device.int_mode == InterruptMode::OpenDrain
            &&& device.int_active_state == PinState::Low
        }),
{
    reveal_with_fuel(ChipState::write_bytes, 3);
    let bytes = startup_payload();
    assert(bytes.skip(1) =~= seq![IOCON_STARTUP]);
    assert(bytes.skip(1).drop_last() =~= Seq::<u8>::empty());
    let device = ChipState::initial().write_transaction(bytes);
    assert forall|kind: RegisterType| cached(kind) implies #[trigger] device.bits(kind)
        == register_bits(RunnerState::initial().registers, kind) by {
        assert(device.bits(kind) =~= register_bits(RunnerState::initial().registers, kind));
    }
}

} // verus!
