//! The runner: the one place that decides what goes over the bus, and in
//! which order.
//!
//! The runner does no bus work itself. Whoever owns the bus asks it for the
//! next action, performs it, and reports what came back. One iteration
//! begins with [`Runner::begin`], which takes up what the handles have
//! requested, and goes on through [`Runner::next_action`] until that
//! returns [`Action::Complete`]; then [`Runner::complete`] settles each
//! slot.

use crate::buffer::buffer_bytes;
use crate::common::{PinState, RegisterType, AB};
use crate::controller::registers::{
    bits_of_kind, copy_kind, register_bits, with_kind_of, write_order, PinRegisters,
};
use crate::controller::request::{InputOp, Op, Request, RequestState};
use crate::controller::transfer::{
    read_registers, read_request, read_request_for, wanted, write_payload, write_registers,
    ReadRequest,
};
use crate::util::{any_in_bank, bank_has_any, bit_of_byte};
use vstd::prelude::*;

verus! {

/// What the owner of the bus is to do next.
pub enum Action {
    /// Write these bytes to the device, then call [`Runner::written`].
    Write(heapless::Vec<u8, 3>),
    /// In one transaction, set the pointer to `flags.address` and read
    /// `flags.count` bytes, then set it to `captured.address` and read
    /// `captured.count` bytes; then call [`Runner::interrupts_read`] with
    /// the bytes of the two reads.
    ReadInterrupts { flags: ReadRequest, captured: ReadRequest },
    /// Set the pointer to the request's address and read its count of
    /// bytes; then call [`Runner::gpio_read`] with them.
    ReadGpio(ReadRequest),
    /// The bus work of this iteration is done: settle each slot with
    /// [`Runner::complete`], then begin the next iteration, after waiting
    /// for a request or an interrupt if [`Runner::worked`] is `false`.
    Complete,
}

/// What the runner is to do next, as a mathematical value.
pub enum Step {
    /// Write `bytes`, which bring the registers of kind `kind` up to date.
    Write { kind: RegisterType, bytes: Seq<u8> },
    ReadInterrupts { flags: ReadRequest, captured: ReadRequest },
    ReadGpio(ReadRequest),
    Complete,
}

/// What the owner of the bus reports back to the runner.
pub enum Event {
    /// The write that was due has succeeded.
    Written,
    /// The interrupt registers have been read.
    InterruptsRead { flags: Seq<u8>, captured: Seq<u8> },
    /// GPIO has been read.
    GpioRead { bytes: Seq<u8> },
}

/// The runner as a mathematical value. Each sequence has one entry per pin.
#[verifier::ext_equal]
pub struct RunnerState {
    /// What the device's registers hold: what was last written to them.
    pub registers: Seq<PinRegisters>,
    /// What the device's registers are to hold.
    pub desired: Seq<PinRegisters>,
    /// Each slot as it was when the iteration began.
    pub snapshot: Seq<Request>,
    /// Whether the interrupt line was low when the iteration began, and has
    /// not been served yet.
    pub interrupt_pending: bool,
    /// The pins whose level is still to be read from GPIO.
    pub read_gpios: Seq<bool>,
    /// For each pin whose interrupt flag was found set, the level captured.
    pub captured: Seq<Option<PinState>>,
    /// For each pin whose level was read from GPIO, that level.
    pub gpio_states: Seq<Option<PinState>>,
    /// Whether this iteration has done any bus work.
    pub worked: bool,
}

/// A slot after the runner has taken up what it requests.
pub open spec fn accepted(slot: Request) -> Request {
    if slot.state == RequestState::Requested {
        Request { op: slot.op, state: RequestState::ProcessingRequest }
    } else {
        slot
    }
}

/// The number of bytes that a read for the pins `pins` brings.
pub open spec fn bytes_expected(pins: Seq<bool>) -> int {
    (if any_in_bank(pins, AB::A) {
        1int
    } else {
        0int
    }) + (if any_in_bank(pins, AB::B) {
        1int
    } else {
        0int
    })
}

/// For each pin that `pins` names, the bit that the bytes read hold for it:
/// bit `i % 8` of its bank's byte, which is the second byte for bank B where
/// both banks were read and the first otherwise. Nothing for any pin where
/// fewer bytes came than the read was for.
pub open spec fn decoded(pins: Seq<bool>, bytes: Seq<u8>) -> Seq<Option<bool>> {
    Seq::new(
        16,
        |i: int|
            if pins[i] && bytes.len() >= bytes_expected(pins) {
                Some(
                    bit_of_byte(
                        bytes[if AB::of_pin(i) == AB::B && any_in_bank(pins, AB::A) {
                            1int
                        } else {
                            0int
                        }],
                        i % 8,
                    ),
                )
            } else {
                None
            },
    )
}

/// The values that ask a read for every pin `pins` names.
spec fn placeholders(pins: Seq<bool>) -> Seq<Option<bool>> {
    Seq::new(
        16,
        |i: int|
            if pins[i] {
                Some(false)
            } else {
                None
            },
    )
}

impl RunnerState {
    /// The runner before anything was asked of it: the device has just been
    /// reset.
    pub open spec fn initial() -> RunnerState {
        RunnerState {
            registers: Seq::new(16, |i: int| PinRegisters::reset()),
            desired: Seq::new(16, |i: int| PinRegisters::reset()),
            snapshot: Seq::new(16, |i: int| Request::initial()),
            interrupt_pending: false,
            read_gpios: Seq::new(16, |i: int| false),
            captured: Seq::new(16, |i: int| None),
            gpio_states: Seq::new(16, |i: int| None),
            worked: false,
        }
    }

    /// Every sequence has its sixteen entries.
    pub open spec fn wf(self) -> bool {
        &&& self.registers.len() == 16
        &&& self.desired.len() == 16
        &&& self.snapshot.len() == 16
        &&& self.read_gpios.len() == 16
        &&& self.captured.len() == 16
        &&& self.gpio_states.len() == 16
    }

    /// The runner at the start of an iteration: each requested operation is
    /// taken up, its registers are asked for and its GPIO read, if it needs
    /// one, is noted; what earlier reads brought is forgotten.
    pub open spec fn begun(self, slots: Seq<Request>, interrupt_pending: bool) -> RunnerState {
        RunnerState {
            registers: self.registers,
            desired: Seq::new(
                16,
                |i: int|
                    if slots[i].state == RequestState::Requested {
                        self.desired[i].applied(slots[i].op)
                    } else {
                        self.desired[i]
                    },
            ),
            snapshot: Seq::new(16, |i: int| accepted(slots[i])),
            interrupt_pending,
            read_gpios: Seq::new(
                16,
                |i: int|
                    slots[i].state == RequestState::Requested && slots[i].op.needs_gpio_read(),
            ),
            captured: Seq::new(16, |i: int| None),
            gpio_states: Seq::new(16, |i: int| None),
            worked: false,
        }
    }

    /// The payload of the write that brings one kind of register up to
    /// date, if the device does not hold what it is to hold.
    pub open spec fn payload_of(self, kind: RegisterType) -> Option<Seq<u8>> {
        write_payload(
            kind,
            register_bits(self.registers, kind),
            register_bits(self.desired, kind),
        )
    }

    /// The first write that is due among the kinds from place `index` of the
    /// write order on.
    pub open spec fn pending_from(self, index: int) -> Option<(RegisterType, Seq<u8>)>
        decreases 6 - index,
    {
        if index < 0 || index >= 6 {
            None
        } else {
            match self.payload_of(write_order()[index]) {
                Some(bytes) => Some((write_order()[index], bytes)),
                None => self.pending_from(index + 1),
            }
        }
    }

    /// The write that is due next: that of the first kind, in the write
    /// order, of which the device does not hold what it is to hold.
    pub open spec fn pending_write(self) -> Option<(RegisterType, Seq<u8>)> {
        self.pending_from(0)
    }

    /// The pins whose interrupt registers are read when the interrupt line
    /// is low: those of each bank in which an interrupt is enabled, and
    /// all sixteen where none is enabled anywhere.
    pub open spec fn served(self) -> Seq<bool> {
        let enabled = register_bits(self.registers, RegisterType::GPINTEN);
        Seq::new(
            16,
            |i: int|
                any_in_bank(enabled, AB::of_pin(i)) || !(any_in_bank(enabled, AB::A)
                    || any_in_bank(enabled, AB::B)),
        )
    }

    /// What is to be done next: the writes first, in the write order; then
    /// the read of the interrupt registers, if the interrupt line was low;
    /// then the read of GPIO, if any pin needs it; then completion.
    pub open spec fn next_step(self) -> Step {
        if let Some((kind, bytes)) = self.pending_write() {
            Step::Write { kind, bytes }
        } else if self.interrupt_pending {
            Step::ReadInterrupts {
                flags: read_request_for(RegisterType::INTF, self.served()).unwrap(),
                captured: read_request_for(RegisterType::INTCAP, self.served()).unwrap(),
            }
        } else if let Some(request) = read_request_for(RegisterType::GPIO, self.read_gpios) {
            Step::ReadGpio(request)
        } else {
            Step::Complete
        }
    }

    /// The runner after the write that was due has succeeded: the registers
    /// of the kind written hold what they were to hold.
    pub open spec fn written(self) -> RunnerState {
        match self.pending_write() {
            Some((kind, _)) => RunnerState {
                registers: with_kind_of(self.registers, self.desired, kind),
                worked: true,
                ..self
            },
            None => self,
        }
    }

    /// The level captured for each pin whose interrupt flag is set in the
    /// bytes read from INTF, by the bytes read from INTCAP.
    pub open spec fn captures(self, flags: Seq<u8>, captured: Seq<u8>) -> Seq<Option<PinState>> {
        Seq::new(
            16,
            |i: int|
                match (decoded(self.served(), flags)[i], decoded(self.served(), captured)[i]) {
                    (Some(true), Some(level)) => Some(PinState::of_bit(level)),
                    _ => None,
                },
        )
    }

    /// The runner after the interrupt registers have been read. A pin whose
    /// flag was set while no operation wanted its interrupt has its
    /// interrupt disabled and its level read from GPIO, which clears what
    /// raised it.
    pub open spec fn interrupts_read(self, flags: Seq<u8>, captured: Seq<u8>) -> RunnerState {
        let captures = self.captures(flags, captured);
        RunnerState {
            desired: Seq::new(
                16,
                |i: int|
                    if captures[i] is Some && !self.snapshot[i].wants_interrupt() {
                        PinRegisters { int_enabled: false, ..self.desired[i] }
                    } else {
                        self.desired[i]
                    },
            ),
            read_gpios: Seq::new(
                16,
                |i: int|
                    self.read_gpios[i] || (captures[i] is Some
                        && !self.snapshot[i].wants_interrupt()),
            ),
            captured: captures,
            interrupt_pending: false,
            worked: true,
            ..self
        }
    }

    /// The runner after GPIO has been read.
    pub open spec fn gpio_read(self, bytes: Seq<u8>) -> RunnerState {
        RunnerState {
            gpio_states: Seq::new(
                16,
                |i: int|
                    match decoded(self.read_gpios, bytes)[i] {
                        Some(level) => Some(PinState::of_bit(level)),
                        None => None,
                    },
            ),
            read_gpios: Seq::new(16, |i: int| false),
            worked: true,
            ..self
        }
    }

    /// The runner after one report.
    pub open spec fn after(self, event: Event) -> RunnerState {
        match event {
            Event::Written => self.written(),
            Event::InterruptsRead { flags, captured } => self.interrupts_read(flags, captured),
            Event::GpioRead { bytes } => self.gpio_read(bytes),
        }
    }

    /// The runner after some reports, in order.
    pub open spec fn after_all(self, events: Seq<Event>) -> RunnerState
        decreases events.len(),
    {
        if events.len() == 0 {
            self
        } else {
            self.after_all(events.drop_last()).after(events.last())
        }
    }

    /// What a slot's operation comes to at the end of the iteration, if it
    /// comes to anything: the operation as it then stands, done.
    ///
    /// An output and a plain input are done as soon as the writes are. A
    /// read is done with the level read. A wait for a level is done when an
    /// interrupt captured that level or a GPIO read showed it; a wait for
    /// any edge, when an interrupt was captured; a wait for an edge to a
    /// level, when an interrupt captured that level. A watch is done with
    /// the first level read, and thereafter takes each captured level that
    /// differs from the one it knows.
    pub open spec fn outcome(self, pin: int, slot: Request) -> Option<Op> {
        let captured = self.captured[pin];
        let read = self.gpio_states[pin];
        match (slot.state, slot.op) {
            (RequestState::ProcessingRequest, Op::Output { .. }) => Some(slot.op),
            (RequestState::ProcessingRequest, Op::Input { op: None, .. }) => Some(slot.op),
            (
                RequestState::ProcessingRequest,
                Op::Input { pull_up_enabled, op: Some(InputOp::Read { .. }) },
            ) => if read is Some {
                Some(Op::Input { pull_up_enabled, op: Some(InputOp::Read { response: read }) })
            } else {
                None
            },
            (
                RequestState::ProcessingRequest,
                Op::Input { op: Some(InputOp::WaitForState(state)), .. },
            ) => if captured == Some(state) || read == Some(state) {
                Some(slot.op)
            } else {
                None
            },
            (
                RequestState::ProcessingRequest,
                Op::Input { op: Some(InputOp::WaitForAnyEdge), .. },
            ) => if captured is Some {
                Some(slot.op)
            } else {
                None
            },
            (
                RequestState::ProcessingRequest,
                Op::Input { op: Some(InputOp::WaitForSpecificEdge { after_state }), .. },
            ) => if captured == Some(after_state) {
                Some(slot.op)
            } else {
                None
            },
            (RequestState::ProcessingRequest, Op::Watch { pull_up_enabled, .. }) => if read
                is Some {
                Some(Op::Watch { pull_up_enabled, last_known_value: read })
            } else {
                None
            },
            (RequestState::Done, Op::Watch { pull_up_enabled, last_known_value }) => if captured
                is Some && last_known_value is Some && captured != last_known_value {
                Some(Op::Watch { pull_up_enabled, last_known_value: captured })
            } else {
                None
            },
            _ => None,
        }
    }

    /// Whether a slot is settled at the end of the iteration: the bus work
    /// is done, the slot still holds the operation that it held when the
    /// iteration began, and the operation has come to something.
    pub open spec fn settles(self, pin: int, slot: Request) -> bool {
        self.next_step() is Complete && slot.op == self.snapshot[pin].op && self.outcome(
            pin,
            slot,
        ) is Some
    }

    /// A slot after the end of the iteration.
    pub open spec fn completed(self, pin: int, slot: Request) -> Request {
        if self.settles(pin, slot) {
            Request { op: self.outcome(pin, slot).unwrap(), state: RequestState::Done }
        } else {
            slot
        }
    }
}

/// The runner.
pub struct Runner {
    registers: [PinRegisters; 16],
    desired: [PinRegisters; 16],
    snapshot: [Request; 16],
    interrupt_pending: bool,
    read_gpios: [bool; 16],
    captured: [Option<PinState>; 16],
    gpio_states: [Option<PinState>; 16],
    worked: bool,
}

impl View for Runner {
    type V = RunnerState;

    closed spec fn view(&self) -> RunnerState {
        RunnerState {
            registers: self.registers@,
            desired: self.desired@,
            snapshot: self.snapshot@,
            interrupt_pending: self.interrupt_pending,
            read_gpios: self.read_gpios@,
            captured: self.captured@,
            gpio_states: self.gpio_states@,
            worked: self.worked,
        }
    }
}

/// The kind of register at a place of the write order.
fn kind_at(index: usize) -> (kind: RegisterType)
    requires
        index < 6,
    ensures
        kind == write_order()[index as int],
{
    match index {
        0 => RegisterType::IODIR,
        1 => RegisterType::GPPU,
        2 => RegisterType::OLAT,
        3 => RegisterType::DEFVAL,
        4 => RegisterType::INTCON,
        _ => RegisterType::GPINTEN,
    }
}

/// Decodes the bytes of a read for the pins `pins`.
fn decode(pins: &[bool; 16], bytes: &[u8]) -> (values: [Option<bool>; 16])
    ensures
        values@ == decoded(pins@, bytes@),
{
    let mut values: [Option<bool>; 16] = [None;16];
    let expected: usize = (if bank_has_any(pins, AB::A) {
        1usize
    } else {
        0usize
    }) + (if bank_has_any(pins, AB::B) {
        1usize
    } else {
        0usize
    });
    if bytes.len() < expected {
        assert(values@ =~= decoded(pins@, bytes@));
        return values;
    }
    let mut i: usize = 0;
    while i < 16
        invariant
            i <= 16,
            forall|k: int| 0 <= k < i ==> #[trigger] values@[k] == placeholders(pins@)[k],
            forall|k: int| i <= k < 16 ==> #[trigger] values@[k] is None,
        decreases 16 - i,
    {
        if pins[i] {
            values[i] = Some(false);
        }
        i += 1;
    }
    assert(values@ =~= placeholders(pins@));
    assert(wanted(values@) =~= pins@);
    read_registers(&mut values, bytes);
    assert(values@ =~= decoded(pins@, bytes@));
    values
}

impl Runner {
    /// Every sequence of a runner has its sixteen entries.
    pub proof fn lemma_wf(self)
        ensures
            self@.wf(),
    {
    }

    /// A runner for a device that has just been reset.
    pub fn new() -> (runner: Self)
        ensures
            runner@ == RunnerState::initial(),
    {
        let runner = Runner {
            registers: [PinRegisters::default();16],
            desired: [PinRegisters::default();16],
            snapshot: [Request::new();16],
            interrupt_pending: false,
            read_gpios: [false;16],
            captured: [None;16],
            gpio_states: [None;16],
            worked: false,
        };
        assert(runner@ =~~= RunnerState::initial());
        runner
    }

    /// What the device's registers hold, as far as the runner has written
    /// them.
    pub fn registers(&self) -> (registers: &[PinRegisters; 16])
        ensures
            registers@ == self@.registers,
    {
        &self.registers
    }

    /// Whether this iteration has done any bus work. Where it has not, the
    /// next iteration can wait for a request or an interrupt.
    pub fn worked(&self) -> (worked: bool)
        ensures
            worked == self@.worked,
    {
        self.worked
    }

    /// Begins an iteration. Takes up every requested operation, marking its
    /// slot as being processed, and notes whether the interrupt line is low.
    pub fn begin(&mut self, slots: &mut [Request; 16], interrupt_pending: bool)
        ensures
            final(self)@ == old(self)@.begun(old(slots)@, interrupt_pending),
            final(slots)@ == final(self)@.snapshot,
    {
        self.interrupt_pending = interrupt_pending;
        self.worked = false;
        self.captured = [None;16];
        self.gpio_states = [None;16];
        let mut i: usize = 0;
        while i < 16
            invariant
                i <= 16,
                self.registers == old(self).registers,
                self.interrupt_pending == interrupt_pending,
                !self.worked,
                forall|k: int| 0 <= k < 16 ==> #[trigger] self.captured@[k] is None,
                forall|k: int| 0 <= k < 16 ==> #[trigger] self.gpio_states@[k] is None,
                forall|k: int|
                    0 <= k < i ==> #[trigger] self.desired@[k] == old(self)@.begun(
                        old(slots)@,
                        interrupt_pending,
                    ).desired[k],
                forall|k: int| i <= k < 16 ==> #[trigger] self.desired@[k] == old(self).desired@[k],
                forall|k: int|
                    0 <= k < i ==> #[trigger] self.read_gpios@[k] == old(self)@.begun(
                        old(slots)@,
                        interrupt_pending,
                    ).read_gpios[k],
                forall|k: int|
                    0 <= k < i ==> #[trigger] self.snapshot@[k] == accepted(old(slots)@[k]),
                forall|k: int| 0 <= k < i ==> #[trigger] slots@[k] == accepted(old(slots)@[k]),
                forall|k: int| i <= k < 16 ==> #[trigger] slots@[k] == old(slots)@[k],
            decreases 16 - i,
        {
            let mut slot = slots[i];
            let requested = slot.accept();
            if requested {
                let mut pin = self.desired[i];
                pin.apply(slot.op);
                self.desired[i] = pin;
            }
            self.read_gpios[i] = requested && slot.op.reads_gpio();
            self.snapshot[i] = slot;
            slots[i] = slot;
            i += 1;
        }
        assert(self@ =~~= old(self)@.begun(old(slots)@, interrupt_pending));
        assert(slots@ =~= self@.snapshot);
    }

    /// The write that is due next, if one is.
    fn pending_write(&self) -> (pending: Option<(RegisterType, heapless::Vec<u8, 3>)>)
        ensures
            pending is Some <==> self@.pending_write() is Some,
            pending matches Some((kind, buffer)) ==> self@.pending_write() == Some(
                (kind, buffer_bytes(buffer)),
            ),
    {
        let mut index: usize = 0;
        while index < 6
            invariant
                index <= 6,
                self@.pending_write() == self@.pending_from(index as int),
            decreases 6 - index,
        {
            let kind = kind_at(index);
            let current = bits_of_kind(&self.registers, kind);
            let new = bits_of_kind(&self.desired, kind);
            if let Some(buffer) = write_registers(kind, &current, &new) {
                return Some((kind, buffer));
            }
            index += 1;
        }
        None
    }

    /// The pins whose interrupt registers are read when the interrupt line
    /// is low.
    fn served(&self) -> (pins: [bool; 16])
        ensures
            pins@ == self@.served(),
    {
        let enabled = bits_of_kind(&self.registers, RegisterType::GPINTEN);
        let in_a = bank_has_any(&enabled, AB::A);
        let in_b = bank_has_any(&enabled, AB::B);
        let mut pins = [false; 16];
        let mut i: usize = 0;
        while i < 16
            invariant
                i <= 16,
                enabled@ == register_bits(self@.registers, RegisterType::GPINTEN),
                in_a == any_in_bank(enabled@, AB::A),
                in_b == any_in_bank(enabled@, AB::B),
                forall|k: int| 0 <= k < i ==> #[trigger] pins@[k] == self@.served()[k],
            decreases 16 - i,
        {
            pins[i] = if i < 8 {
                in_a || !in_b
            } else {
                in_b || !in_a
            };
            i += 1;
        }
        assert(pins@ =~= self@.served());
        pins
    }

    /// What the owner of the bus is to do next.
    pub fn next_action(&self) -> (action: Action)
        ensures
            match action {
                Action::Write(buffer) => self@.next_step() matches Step::Write { bytes, .. }
                    && buffer_bytes(buffer) == bytes,
                Action::ReadInterrupts { flags, captured } => self@.next_step() == (
                Step::ReadInterrupts { flags, captured }),
                Action::ReadGpio(request) => self@.next_step() == Step::ReadGpio(request),
                Action::Complete => self@.next_step() is Complete,
            },
    {
        if let Some((_, buffer)) = self.pending_write() {
            return Action::Write(buffer);
        }
        if self.interrupt_pending {
            let served = self.served();
            let values = placeholder_values(&served);
            let flags = read_request(RegisterType::INTF, &values);
            let captured = read_request(RegisterType::INTCAP, &values);
            match (flags, captured) {
                (Some(flags), Some(captured)) => {
                    return Action::ReadInterrupts { flags, captured };
                },
                _ => {
                    assert(false);
                },
            }
        }
        let values = placeholder_values(&self.read_gpios);
        match read_request(RegisterType::GPIO, &values) {
            Some(request) => Action::ReadGpio(request),
            None => Action::Complete,
        }
    }

    /// The write that [`Self::next_action`] asked for has succeeded: the
    /// cache takes over what was written.
    pub fn written(&mut self)
        ensures
            final(self)@ == old(self)@.written(),
    {
        if let Some((kind, _)) = self.pending_write() {
            copy_kind(&mut self.registers, &self.desired, kind);
            self.worked = true;
        }
    }

    /// The read of the interrupt registers that [`Self::next_action`] asked
    /// for has brought `flags` from INTF and `captured` from INTCAP.
    pub fn interrupts_read(&mut self, flags: &[u8], captured: &[u8])
        ensures
            final(self)@ == old(self)@.interrupts_read(flags@, captured@),
    {
        let served = self.served();
        let flag_values = decode(&served, flags);
        let captured_values = decode(&served, captured);
        let mut i: usize = 0;
        while i < 16
            invariant
                i <= 16,
                flag_values@ == decoded(old(self)@.served(), flags@),
                captured_values@ == decoded(old(self)@.served(), captured@),
                self.registers == old(self).registers,
                self.snapshot == old(self).snapshot,
                self.gpio_states == old(self).gpio_states,
                self.interrupt_pending == old(self).interrupt_pending,
                self.worked == old(self).worked,
                forall|k: int|
                    0 <= k < i ==> #[trigger] self.captured@[k] == old(self)@.captures(
                        flags@,
                        captured@,
                    )[k],
                forall|k: int|
                    0 <= k < i ==> #[trigger] self.desired@[k] == old(self)@.interrupts_read(
                        flags@,
                        captured@,
                    ).desired[k],
                forall|k: int| i <= k < 16 ==> #[trigger] self.desired@[k] == old(self).desired@[k],
                forall|k: int|
                    0 <= k < i ==> #[trigger] self.read_gpios@[k] == old(self)@.interrupts_read(
                        flags@,
                        captured@,
                    ).read_gpios[k],
                forall|k: int|
                    i <= k < 16 ==> #[trigger] self.read_gpios@[k] == old(self).read_gpios@[k],
            decreases 16 - i,
        {
            let capture = match (flag_values[i], captured_values[i]) {
                (Some(true), Some(level)) => Some(PinState::from(level)),
                _ => None,
            };
            self.captured[i] = capture;
            if capture.is_some() && !wants_interrupt(&self.snapshot[i]) {
                // Disable the interrupt that nothing waits for,
                // and read GPIO to clear what raised it
                let mut pin = self.desired[i];
                pin.int_enabled = false;
                self.desired[i] = pin;
                self.read_gpios[i] = true;
            }
            i += 1;
        }
        self.interrupt_pending = false;
        self.worked = true;
        assert(self@ =~~= old(self)@.interrupts_read(flags@, captured@));
    }

    /// The read of GPIO that [`Self::next_action`] asked for has brought
    /// `bytes`.
    pub fn gpio_read(&mut self, bytes: &[u8])
        ensures
            final(self)@ == old(self)@.gpio_read(bytes@),
    {
        let values = decode(&self.read_gpios, bytes);
        let mut i: usize = 0;
        while i < 16
            invariant
                i <= 16,
                values@ == decoded(old(self)@.read_gpios, bytes@),
                self.registers == old(self).registers,
                self.desired == old(self).desired,
                self.snapshot == old(self).snapshot,
                self.captured == old(self).captured,
                self.interrupt_pending == old(self).interrupt_pending,
                self.worked == old(self).worked,
                forall|k: int|
                    0 <= k < i ==> #[trigger] self.gpio_states@[k] == old(self)@.gpio_read(
                        bytes@,
                    ).gpio_states[k],
                forall|k: int| 0 <= k < i ==> !#[trigger] self.read_gpios@[k],
            decreases 16 - i,
        {
            self.gpio_states[i] = match values[i] {
                Some(level) => Some(PinState::from(level)),
                None => None,
            };
            self.read_gpios[i] = false;
            i += 1;
        }
        self.worked = true;
        assert(self@ =~~= old(self)@.gpio_read(bytes@));
    }

    /// What the operation of a slot comes to, if it comes to anything.
    fn outcome(&self, pin: usize, slot: &Request) -> (outcome: Option<Op>)
        requires
            pin < 16,
        ensures
            outcome == self@.outcome(pin as int, *slot),
    {
        let captured = self.captured[pin];
        let read = self.gpio_states[pin];
        match slot.state {
            RequestState::ProcessingRequest => match slot.op {
                Op::Output { latch: _ } => Some(slot.op),
                Op::Input { pull_up_enabled, op } => match op {
                    None => Some(slot.op),
                    Some(InputOp::Read { response: _ }) => if read.is_some() {
                        Some(
                            Op::Input {
                                pull_up_enabled,
                                op: Some(InputOp::Read { response: read }),
                            },
                        )
                    } else {
                        None
                    },
                    Some(InputOp::WaitForState(state)) => if same_level(captured, state)
                        || same_level(read, state) {
                        Some(slot.op)
                    } else {
                        None
                    },
                    Some(InputOp::WaitForAnyEdge) => if captured.is_some() {
                        Some(slot.op)
                    } else {
                        None
                    },
                    Some(InputOp::WaitForSpecificEdge { after_state }) => if same_level(
                        captured,
                        after_state,
                    ) {
                        Some(slot.op)
                    } else {
                        None
                    },
                },
                Op::Watch { pull_up_enabled, last_known_value: _ } => if read.is_some() {
                    Some(Op::Watch { pull_up_enabled, last_known_value: read })
                } else {
                    None
                },
            },
            RequestState::Done => match slot.op {
                Op::Watch { pull_up_enabled, last_known_value } => match (
                    captured,
                    last_known_value,
                ) {
                    (Some(new), Some(known)) => if new != known {
                        Some(Op::Watch { pull_up_enabled, last_known_value: captured })
                    } else {
                        None
                    },
                    _ => None,
                },
                _ => None,
            },
            RequestState::Requested => None,
        }
    }

    /// Settles a pin's slot at the end of the iteration. Returns whether the
    /// slot changed, in which case whoever waits on it is to be woken.
    pub fn complete(&self, pin: usize, slot: &mut Request) -> (signal: bool)
        requires
            pin < 16,
        ensures
            signal == self@.settles(pin as int, *old(slot)),
            *final(slot) == self@.completed(pin as int, *old(slot)),
    {
        match self.next_action() {
            Action::Complete => {},
            _ => {
                return false;
            },
        }
        if slot.op != self.snapshot[pin].op {
            return false;
        }
        match self.outcome(pin, slot) {
            Some(op) => {
                slot.op = op;
                slot.state = RequestState::Done;
                true
            },
            None => false,
        }
    }
}

/// The values that ask a read for every pin `pins` names.
fn placeholder_values(pins: &[bool; 16]) -> (values: [Option<bool>; 16])
    ensures
        values@ == placeholders(pins@),
        wanted(values@) == pins@,
{
    let mut values: [Option<bool>; 16] = [None;16];
    let mut i: usize = 0;
    while i < 16
        invariant
            i <= 16,
            forall|k: int| 0 <= k < i ==> #[trigger] values@[k] == placeholders(pins@)[k],
            forall|k: int| i <= k < 16 ==> #[trigger] values@[k] is None,
        decreases 16 - i,
    {
        if pins[i] {
            values[i] = Some(false);
        }
        i += 1;
    }
    assert(values@ =~= placeholders(pins@));
    assert(wanted(values@) =~= pins@);
    values
}

/// Whether a level is there and is `level`.
fn same_level(found: Option<PinState>, level: PinState) -> (same: bool)
    ensures
        same == (found == Some(level)),
{
    match found {
        Some(found) => found == level,
        None => false,
    }
}

/// Whether the pin's interrupt serves an operation of the slot.
fn wants_interrupt(slot: &Request) -> (wanted: bool)
    ensures
        wanted == slot.wants_interrupt(),
{
    match slot.op {
        Op::Watch { pull_up_enabled: _, last_known_value: _ } => true,
        Op::Input { pull_up_enabled: _, op: Some(op) } => match op {
            InputOp::Read { response: _ } => false,
            _ => slot.state == RequestState::ProcessingRequest,
        },
        _ => false,
    }
}

} // verus!
