//! What the controller knows of each pin's registers, and what an
//! operation asks them to be.

use crate::common::{InterruptControl, IoDirection, PinState, RegisterType};
use crate::controller::request::{InputOp, Op};
use vstd::prelude::*;

verus! {

/// The registers of one pin that the controller writes.
#[derive(Debug, Clone, Copy, PartialEq, Eq, Structural)]
pub struct PinRegisters {
    pub direction: IoDirection,
    pub pull_up_enabled: bool,
    pub latch: PinState,
    pub int_enabled: bool,
    pub int_control: InterruptControl,
    pub int_compare: PinState,
}

impl Default for PinRegisters {
    /// What a pin's registers hold after a reset of the device.
    fn default() -> (registers: Self)
        ensures
            registers == PinRegisters::reset(),
    {
        Self {
            direction: IoDirection::Input,
            pull_up_enabled: false,
            int_enabled: false,
            latch: PinState::Low,
            int_control: InterruptControl::CompareWithPreviousValue,
            int_compare: PinState::Low,
        }
    }
}

/// The kinds of register that the controller writes, in the order in which
/// it writes them: directions first, and interrupt enables last, so that no
/// interrupt is enabled before what it compares with is set.
pub open spec fn write_order() -> Seq<RegisterType> {
    seq![
        RegisterType::IODIR,
        RegisterType::GPPU,
        RegisterType::OLAT,
        RegisterType::DEFVAL,
        RegisterType::INTCON,
        RegisterType::GPINTEN,
    ]
}

impl PinRegisters {
    /// What a pin's registers hold after a reset of the device.
    pub open spec fn reset() -> PinRegisters {
        PinRegisters {
            direction: IoDirection::Input,
            pull_up_enabled: false,
            latch: PinState::Low,
            int_enabled: false,
            int_control: InterruptControl::CompareWithPreviousValue,
            int_compare: PinState::Low,
        }
    }

    /// The pin's bit in a kind of register. The kinds that the controller
    /// does not write have no bit here.
    pub open spec fn bit(self, kind: RegisterType) -> bool {
        match kind {
            RegisterType::IODIR => self.direction.bit(),
            RegisterType::GPPU => self.pull_up_enabled,
            RegisterType::OLAT => self.latch.is_high(),
            RegisterType::DEFVAL => self.int_compare.is_high(),
            RegisterType::INTCON => self.int_control.bit(),
            RegisterType::GPINTEN => self.int_enabled,
            _ => false,
        }
    }

    /// These registers with the bit of one kind taken from `other`.
    pub open spec fn with_kind_of(self, other: PinRegisters, kind: RegisterType) -> PinRegisters {
        match kind {
            RegisterType::IODIR => PinRegisters { direction: other.direction, ..self },
            RegisterType::GPPU => PinRegisters { pull_up_enabled: other.pull_up_enabled, ..self },
            RegisterType::OLAT => PinRegisters { latch: other.latch, ..self },
            RegisterType::DEFVAL => PinRegisters { int_compare: other.int_compare, ..self },
            RegisterType::INTCON => PinRegisters { int_control: other.int_control, ..self },
            RegisterType::GPINTEN => PinRegisters { int_enabled: other.int_enabled, ..self },
            _ => self,
        }
    }

    /// What an operation asks the pin's registers to be.
    ///
    /// An output is driven at its latch. Every other operation makes the pin
    /// an input with the pull-up it names. A plain input and a single read
    /// need no interrupt; a wait for a level compares with the opposite
    /// level; a wait for an edge and a watch compare with the previous
    /// level.
    pub open spec fn applied(self, op: Op) -> PinRegisters {
        match op {
            Op::Output { latch } => PinRegisters { direction: IoDirection::Output, latch, ..self },
            Op::Input { pull_up_enabled, op: None } => PinRegisters {
                direction: IoDirection::Input,
                pull_up_enabled,
                int_enabled: false,
                ..self
            },
            Op::Input { pull_up_enabled, op: Some(InputOp::Read { .. }) } => PinRegisters {
                direction: IoDirection::Input,
                pull_up_enabled,
                int_enabled: false,
                ..self
            },
            Op::Input { pull_up_enabled, op: Some(InputOp::WaitForState(state)) } => PinRegisters {
                direction: IoDirection::Input,
                pull_up_enabled,
                int_control: InterruptControl::CompareWithConfiguredValue,
                int_compare: PinState::of_bit(!state.is_high()),
                int_enabled: true,
                ..self
            },
            Op::Input { pull_up_enabled, op: Some(_) } => PinRegisters {
                direction: IoDirection::Input,
                pull_up_enabled,
                int_control: InterruptControl::CompareWithPreviousValue,
                int_enabled: true,
                ..self
            },
            Op::Watch { pull_up_enabled, .. } => PinRegisters {
                direction: IoDirection::Input,
                pull_up_enabled,
                int_control: InterruptControl::CompareWithPreviousValue,
                int_enabled: true,
                ..self
            },
        }
    }

    /// The registers changed to what an operation asks.
    pub fn apply(&mut self, op: Op)
        ensures
            *final(self) == old(self).applied(op),
    {
        match op {
            Op::Output { latch } => {
                self.direction = IoDirection::Output;
                self.latch = latch;
            },
            Op::Input { pull_up_enabled, op } => {
                self.direction = IoDirection::Input;
                self.pull_up_enabled = pull_up_enabled;
                match op {
                    None => {
                        self.int_enabled = false;
                    },
                    Some(InputOp::Read { response: _ }) => {
                        self.int_enabled = false;
                    },
                    Some(InputOp::WaitForState(state)) => {
                        self.int_compare = core::ops::Not::not(state);
                        self.int_control = InterruptControl::CompareWithConfiguredValue;
                        self.int_enabled = true;
                    },
                    Some(InputOp::WaitForAnyEdge) | Some(InputOp::WaitForSpecificEdge { .. }) => {
                        self.int_control = InterruptControl::CompareWithPreviousValue;
                        self.int_enabled = true;
                    },
                }
            },
            Op::Watch { pull_up_enabled, last_known_value: _ } => {
                self.direction = IoDirection::Input;
                self.pull_up_enabled = pull_up_enabled;
                self.int_control = InterruptControl::CompareWithPreviousValue;
                self.int_enabled = true;
            },
        }
    }
}

impl Op {
    /// Whether the operation needs the pin's level read from GPIO: a single
    /// read, a wait for an edge (whose read sets what the edge is compared
    /// with) and a watch.
    pub open spec fn needs_gpio_read(self) -> bool {
        match self {
            Op::Input { op: Some(InputOp::Read { .. }), .. } => true,
            Op::Input { op: Some(InputOp::WaitForAnyEdge), .. } => true,
            Op::Input { op: Some(InputOp::WaitForSpecificEdge { .. }), .. } => true,
            Op::Watch { .. } => true,
            _ => false,
        }
    }

    pub fn reads_gpio(&self) -> (needed: bool)
        ensures
            needed == self.needs_gpio_read(),
    {
        match self {
            Op::Input { pull_up_enabled: _, op: Some(InputOp::Read { response: _ }) } => true,
            Op::Input { pull_up_enabled: _, op: Some(InputOp::WaitForAnyEdge) } => true,
            Op::Input {
                pull_up_enabled: _,
                op: Some(InputOp::WaitForSpecificEdge { after_state: _ }),
            } => true,
            Op::Watch { pull_up_enabled: _, last_known_value: _ } => true,
            _ => false,
        }
    }
}

/// The sixteen bits that a kind of register holds, by the pins' registers.
pub open spec fn register_bits(registers: Seq<PinRegisters>, kind: RegisterType) -> Seq<bool> {
    Seq::new(16, |i: int| registers[i].bit(kind))
}

/// The pins' registers with the bits of one kind taken from `desired`.
pub open spec fn with_kind_of(
    registers: Seq<PinRegisters>,
    desired: Seq<PinRegisters>,
    kind: RegisterType,
) -> Seq<PinRegisters> {
    Seq::new(16, |i: int| registers[i].with_kind_of(desired[i], kind))
}

/// Computes the sixteen bits that a kind of register holds.
pub fn bits_of_kind(registers: &[PinRegisters; 16], kind: RegisterType) -> (bits: [bool; 16])
    ensures
        bits@ == register_bits(registers@, kind),
{
    let mut bits = [false; 16];
    let mut i: usize = 0;
    while i < 16
        invariant
            i <= 16,
            forall|k: int| 0 <= k < i ==> #[trigger] bits@[k] == registers@[k].bit(kind),
        decreases 16 - i,
    {
        bits[i] = match kind {
            RegisterType::IODIR => bool::from(registers[i].direction),
            RegisterType::GPPU => registers[i].pull_up_enabled,
            RegisterType::OLAT => bool::from(registers[i].latch),
            RegisterType::DEFVAL => bool::from(registers[i].int_compare),
            RegisterType::INTCON => bool::from(registers[i].int_control),
            RegisterType::GPINTEN => registers[i].int_enabled,
            _ => false,
        };
        i += 1;
    }
    assert(bits@ =~= register_bits(registers@, kind));
    bits
}

/// Takes the bits of one kind of register over from `desired`.
pub fn copy_kind(
    registers: &mut [PinRegisters; 16],
    desired: &[PinRegisters; 16],
    kind: RegisterType,
)
    ensures
        final(registers)@ == with_kind_of(old(registers)@, desired@, kind),
{
    let mut i: usize = 0;
    while i < 16
        invariant
            i <= 16,
            forall|k: int|
                0 <= k < i ==> #[trigger] registers@[k] == old(registers)@[k].with_kind_of(
                    desired@[k],
                    kind,
                ),
            forall|k: int| i <= k < 16 ==> #[trigger] registers@[k] == old(registers)@[k],
        decreases 16 - i,
    {
        let mut pin = registers[i];
        match kind {
            RegisterType::IODIR => {
                pin.direction = desired[i].direction;
            },
            RegisterType::GPPU => {
                pin.pull_up_enabled = desired[i].pull_up_enabled;
            },
            RegisterType::OLAT => {
                pin.latch = desired[i].latch;
            },
            RegisterType::DEFVAL => {
                pin.int_compare = desired[i].int_compare;
            },
            RegisterType::INTCON => {
                pin.int_control = desired[i].int_control;
            },
            RegisterType::GPINTEN => {
                pin.int_enabled = desired[i].int_enabled;
            },
            _ => {},
        }
        registers[i] = pin;
        i += 1;
    }
    assert(registers@ =~= with_kind_of(old(registers)@, desired@, kind));
}

} // verus!
