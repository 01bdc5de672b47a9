//! The register file of the emulated device.
//!
//! The emulator holds no pins. Whoever owns them samples their levels and
//! hands them in, and applies what the emulator hands back: the pins to
//! configure anew after a write, and the levels of the two interrupt
//! outputs.

use crate::common::{InterruptMode, IoDirection, PinState, Register, RegisterType, AB};
use crate::peripheral::address::{advance_address, advanced_by, AdvanceAddressMode};
use crate::peripheral::model::{with_bank_cleared, ChipState};
use crate::util::{bank_has_any, pack_bank, unpack_bank, IntoBits};
use vstd::prelude::*;

verus! {

/// What a pin's adapter is asked to do.
#[derive(Debug, Clone, Copy, PartialEq, Eq, Structural)]
pub struct PinConfiguration {
    pub io_direction: IoDirection,
    pub pull_up_enabled: bool,
    /// The level to drive while the pin is an output.
    pub level: PinState,
}

/// How the two interrupt outputs are to be driven.
#[derive(Debug, Clone, Copy, PartialEq, Eq, Structural)]
pub struct InterruptLines {
    pub mode: InterruptMode,
    /// The level of bank A's output.
    pub a: PinState,
    /// The level of bank B's output.
    pub b: PinState,
}

/// The emulated device.
pub struct Mcp23017 {
    /// IOCON.BANK
    bank_mode: bool,
    /// IOCON.MIRROR
    /// If set, an interrupt from any GPIO will trigger both interrupt pins
    mirror_interrupts: bool,
    /// IOCON.SEQOP
    sequential_mode: bool,
    /// IOCON.ODR
    int_mode: InterruptMode,
    /// IOCON.INTPOL
    int_active_state: PinState,
    selected_address: u8,
    /// Corresponds to the `IODIR` bit
    io_directions: [bool; 16],
    pull_up_enabled: [bool; 16],
    output_latches: [bool; 16],
    gpio_inverted: [bool; 16],
    int_enabled: [bool; 16],
    int_compare: [bool; 16],
    interrupt_control: [bool; 16],
    /// Can only be cleared by reading the GPIO or captured pin state
    int_flags: [bool; 16],
    int_captured_value: [bool; 16],
    /// Not a register: the level each input was last known to have, which
    /// "compare with previous value" compares with.
    known_input_states: [bool; 16],
}

impl View for Mcp23017 {
    type V = ChipState;

    closed spec fn view(&self) -> ChipState {
        ChipState {
            bank_mode: self.bank_mode,
            mirror_interrupts: self.mirror_interrupts,
            sequential_mode: self.sequential_mode,
            int_mode: self.int_mode,
            int_active_state: self.int_active_state,
            selected_address: self.selected_address,
            io_directions: self.io_directions@,
            pull_up_enabled: self.pull_up_enabled@,
            output_latches: self.output_latches@,
            gpio_inverted: self.gpio_inverted@,
            int_enabled: self.int_enabled@,
            int_compare: self.int_compare@,
            interrupt_control: self.interrupt_control@,
            int_flags: self.int_flags@,
            int_captured_value: self.int_captured_value@,
            known_input_states: self.known_input_states@,
        }
    }
}

/// Sets a bank's eight bits to `false`.
fn clear_bank(values: &mut [bool; 16], ab: AB)
    ensures
        final(values)@ == with_bank_cleared(old(values)@, ab),
{
    let start = ab.starting_index();
    let mut i: usize = 0;
    while i < 8
        invariant
            i <= 8,
            start == 8 * ab.index(),
            forall|k: int|
                0 <= k < 16 && !(start <= k < start + i) ==> #[trigger] values@[k] == old(
                    values,
                )@[k],
            forall|k: int| start <= k < start + i ==> !#[trigger] values@[k],
        decreases 8 - i,
    {
        values[start + i] = false;
        i += 1;
    }
    assert(values@ =~= with_bank_cleared(old(values)@, ab));
}

/// The pins at which two sets of sixteen bits differ.
fn changed_bits(before: &[bool; 16], after: &[bool; 16]) -> (changed: [bool; 16])
    ensures
        forall|i: int| 0 <= i < 16 ==> changed@[i] == (before@[i] != after@[i]),
{
    let mut changed = [false; 16];
    let mut i: usize = 0;
    while i < 16
        invariant
            i <= 16,
            forall|k: int| 0 <= k < i ==> changed@[k] == (before@[k] != after@[k]),
        decreases 16 - i,
    {
        changed[i] = before[i] != after[i];
        i += 1;
    }
    changed
}

impl Mcp23017 {
    /// Every register of a device has its sixteen bits.
    pub proof fn lemma_wf(self)
        ensures
            self@.wf(),
    {
    }

    /// A device as it is after power-on.
    pub fn new() -> (device: Self)
        ensures
            device@ == ChipState::initial(),
    {
        let device = Self {
            bank_mode: false,
            mirror_interrupts: false,
            sequential_mode: false,
            int_mode: InterruptMode::ActiveDriver,
            int_active_state: PinState::Low,
            selected_address: 0,
            io_directions: [true;16],
            pull_up_enabled: [false;16],
            output_latches: [false;16],
            gpio_inverted: [false;16],
            int_enabled: [false;16],
            int_compare: [false;16],
            interrupt_control: [false;16],
            int_flags: [false;16],
            int_captured_value: [false;16],
            known_input_states: [false;16],
        };
        assert(device@ =~~= ChipState::initial());
        device
    }

    /// Init / reset everything to initial values
    pub fn reset(&mut self)
        ensures
            final(self)@ == ChipState::initial(),
    {
        *self = Self::new();
    }

    pub fn advance_address_mode(&self) -> (mode: AdvanceAddressMode)
        ensures
            mode == self@.advance_address_mode(),
    {
        if self.sequential_mode {
            AdvanceAddressMode::Cycle
        } else if !self.bank_mode {
            AdvanceAddressMode::Toggle
        } else {
            AdvanceAddressMode::Fixed
        }
    }

    fn advance_address(&mut self)
        ensures
            final(self)@ == old(self)@.advance(),
    {
        self.selected_address = advance_address(self.selected_address, self.advance_address_mode());
    }

    /// Writes one byte to a register and returns the pins whose adapter
    /// must be configured anew.
    pub fn write_register(&mut self, register: Register, value: u8) -> (reconfigure: [bool; 16])
        ensures
            final(self)@ == old(self)@.write_register(register, value),
            reconfigure@ == old(self)@.reconfigured(register, value),
    {
        let mut reconfigure = [false; 16];
        match register._type {
            RegisterType::IODIR => {
                let before = self.io_directions;
                unpack_bank(&mut self.io_directions, register.ab, value);
                reconfigure = changed_bits(&before, &self.io_directions);
            },
            RegisterType::GPPU => {
                let before = self.pull_up_enabled;
                unpack_bank(&mut self.pull_up_enabled, register.ab, value);
                reconfigure = changed_bits(&before, &self.pull_up_enabled);
            },
            RegisterType::OLAT | RegisterType::GPIO => {
                let before = self.output_latches;
                unpack_bank(&mut self.output_latches, register.ab, value);
                reconfigure = changed_bits(&before, &self.output_latches);
            },
            RegisterType::GPINTEN => {
                let before = self.int_enabled;
                unpack_bank(&mut self.int_enabled, register.ab, value);
                reconfigure = changed_bits(&before, &self.int_enabled);
            },
            RegisterType::IPOL => {
                unpack_bank(&mut self.gpio_inverted, register.ab, value);
            },
            RegisterType::DEFVAL => {
                unpack_bank(&mut self.int_compare, register.ab, value);
            },
            RegisterType::INTCON => {
                unpack_bank(&mut self.interrupt_control, register.ab, value);
            },
            RegisterType::IOCON => {
                let bits = value.into_bits_le();
                self.bank_mode = bits[7];
                self.mirror_interrupts = bits[6];
                self.sequential_mode = bits[5];
                self.int_mode = InterruptMode::from(bits[2]);
                self.int_active_state = PinState::from(bits[1]);
            },
            RegisterType::INTF | RegisterType::INTCAP => {},
        }
        assert(self@ =~~= old(self)@.write_register(register, value));
        assert(reconfigure@ =~= old(self)@.reconfigured(register, value));
        reconfigure
    }

    /// The bit that GPIO shows for each pin while the lines are at `levels`.
    fn gpio_bits(&self, levels: &[PinState; 16]) -> (bits: [bool; 16])
        ensures
            bits@ == self@.gpio_bits(levels@),
    {
        let mut bits = [false; 16];
        let mut i: usize = 0;
        while i < 16
            invariant
                i <= 16,
                forall|k: int| 0 <= k < i ==> bits@[k] == self@.gpio_bit(levels@, k),
            decreases 16 - i,
        {
            bits[i] = if self.io_directions[i] {
                bool::from(levels[i])
            } else {
                self.output_latches[i]
            };
            i += 1;
        }
        assert(bits@ =~= self@.gpio_bits(levels@));
        bits
    }

    fn iocon_byte(&self) -> (byte: u8)
        ensures
            byte == self@.iocon_byte(),
    {
        let mut byte: u8 = 0;
        if self.bank_mode {
            byte = byte + 128;
        }
        if self.mirror_interrupts {
            byte = byte + 64;
        }
        if self.sequential_mode {
            byte = byte + 32;
        }
        if bool::from(self.int_mode) {
            byte = byte + 4;
        }
        if bool::from(self.int_active_state) {
            byte = byte + 2;
        }
        byte
    }

    /// Reads a register while the lines are at `levels`.
    /// Does not update the address pointer
    pub fn read_register(&self, register: Register, levels: &[PinState; 16]) -> (value: u8)
        ensures
            value == self@.read_register(register, levels@),
    {
        match register._type {
            RegisterType::IODIR => pack_bank(&self.io_directions, register.ab),
            RegisterType::IPOL => pack_bank(&self.gpio_inverted, register.ab),
            RegisterType::GPINTEN => pack_bank(&self.int_enabled, register.ab),
            RegisterType::DEFVAL => pack_bank(&self.int_compare, register.ab),
            RegisterType::INTCON => pack_bank(&self.interrupt_control, register.ab),
            RegisterType::IOCON => self.iocon_byte(),
            RegisterType::GPPU => pack_bank(&self.pull_up_enabled, register.ab),
            RegisterType::INTF => pack_bank(&self.int_flags, register.ab),
            RegisterType::INTCAP => pack_bank(&self.int_captured_value, register.ab),
            RegisterType::GPIO => {
                let bits = self.gpio_bits(levels);
                pack_bank(&bits, register.ab)
            },
            RegisterType::OLAT => pack_bank(&self.output_latches, register.ab),
        }
    }

    /// What a confirmed read of a register does to the device.
    pub fn read_side_effects(&mut self, register: Register, levels: &[PinState; 16])
        ensures
            final(self)@ == old(self)@.read_side_effects(register, levels@),
    {
        match register._type {
            RegisterType::GPIO => {
                // Update the last known input state
                let bits = self.gpio_bits(levels);
                let start = register.ab.starting_index();
                let mut i: usize = 0;
                while i < 8
                    invariant
                        i <= 8,
                        start == 8 * register.ab.index(),
                        bits@ == old(self)@.gpio_bits(levels@),
                        self@ == (ChipState {
                            known_input_states: self.known_input_states@,
                            ..old(self)@
                        }),
                        forall|k: int|
                            0 <= k < 16 && !(start <= k < start + i)
                                ==> #[trigger] self.known_input_states@[k] == old(
                                self,
                            ).known_input_states@[k],
                        forall|k: int|
                            start <= k < start + i ==> #[trigger] self.known_input_states@[k]
                                == bits@[k],
                    decreases 8 - i,
                {
                    self.known_input_states[start + i] = bits[start + i];
                    i += 1;
                }
                // The interrupt is cleared
                clear_bank(&mut self.int_flags, register.ab);
            },
            RegisterType::INTCAP => {
                // The interrupt is cleared
                clear_bank(&mut self.int_flags, register.ab);
            },
            _ => {},
        }
        assert(self@ =~~= old(self)@.read_side_effects(register, levels@));
    }

    /// Takes the bytes of a write transaction: the first sets the address
    /// pointer, each other one is written to the register under the
    /// pointer, which then moves on. A byte for an address that holds no
    /// register is dropped, and the pointer moves on all the same. Returns
    /// the pins whose adapter must be configured anew.
    pub fn process_write_transaction(&mut self, bytes: &[u8]) -> (reconfigure: [bool; 16])
        ensures
            final(self)@ == old(self)@.write_transaction(bytes@),
            reconfigure@ == old(self)@.transaction_reconfigured(bytes@),
    {
        let mut reconfigure = [false; 16];
        if bytes.len() == 0 {
            assert(reconfigure@ =~= old(self)@.transaction_reconfigured(bytes@));
            return reconfigure;
        }
        self.selected_address = bytes[0];
        let ghost start = self@;
        assert(reconfigure@ =~= start.bytes_reconfigured(bytes@.subrange(1, 1)));
        let mut i: usize = 1;
        while i < bytes.len()
            invariant
                1 <= i <= bytes.len(),
                start == (ChipState { selected_address: bytes@[0], ..old(self)@ }),
                self@ == start.write_bytes(bytes@.subrange(1, i as int)),
                reconfigure@ == start.bytes_reconfigured(bytes@.subrange(1, i as int)),
            decreases bytes.len() - i,
        {
            proof {
                assert(bytes@.subrange(1, i + 1).drop_last() =~= bytes@.subrange(1, i as int));
                assert(bytes@.subrange(1, i + 1).last() == bytes@[i as int]);
            }
            let ghost before = reconfigure@;
            if let Some(register) = Register::from_address(self.selected_address, self.bank_mode) {
                let changed = self.write_register(register, bytes[i]);
                let mut k: usize = 0;
                while k < 16
                    invariant
                        k <= 16,
                        forall|j: int|
                            0 <= j < k ==> #[trigger] reconfigure@[j] == (before[j] || changed@[j]),
                        forall|j: int| k <= j < 16 ==> #[trigger] reconfigure@[j] == before[j],
                    decreases 16 - k,
                {
                    reconfigure[k] = reconfigure[k] || changed[k];
                    k += 1;
                }
            }
            self.advance_address();
            i += 1;
            assert(reconfigure@ =~= start.bytes_reconfigured(bytes@.subrange(1, i as int)));
        }
        assert(bytes@.subrange(1, bytes@.len() as int) =~= bytes@.skip(1));
        reconfigure
    }

    /// Fills the answer to a read transaction while the lines are at
    /// `levels`: one byte per place, each read from the register on which
    /// the pointer will stand by then. A place whose address holds no
    /// register keeps what it held. The device itself does not change: see
    /// [`Self::confirm_bytes_read`].
    pub fn prepare_read_buffer(&self, levels: &[PinState; 16], buffer: &mut [u8])
        ensures
            final(buffer)@.len() == old(buffer)@.len(),
            forall|k: int|
                0 <= k < old(buffer)@.len() ==> #[trigger] final(buffer)@[k] == self@.read_byte(
                    k as nat,
                    levels@,
                    old(buffer)@[k],
                ),
    {
        let mut address = self.selected_address;
        let mode = self.advance_address_mode();
        let mut i: usize = 0;
        while i < buffer.len()
            invariant
                i <= buffer@.len(),
                buffer@.len() == old(buffer)@.len(),
                mode == self@.advance_address_mode(),
                address == advanced_by(self@.selected_address, mode, i as nat),
                forall|k: int|
                    0 <= k < i ==> #[trigger] buffer@[k] == self@.read_byte(
                        k as nat,
                        levels@,
                        old(buffer)@[k],
                    ),
                forall|k: int| i <= k < buffer@.len() ==> #[trigger] buffer@[k] == old(buffer)@[k],
            decreases buffer@.len() - i,
        {
            if let Some(register) = Register::from_address(address, self.bank_mode) {
                buffer[i] = self.read_register(register, levels);
            }
            address = advance_address(address, mode);
            i += 1;
        }
    }

    /// After transmitting bytes to the controller, call this function with the actual number of
    /// bytes read by the controller, and the levels the answer was made
    /// from. Applies, byte by byte, what reading does to the device, and
    /// moves the pointer.
    pub fn confirm_bytes_read(&mut self, levels: &[PinState; 16], bytes_read: usize)
        ensures
            final(self)@ == old(self)@.confirm_reads(bytes_read as nat, levels@),
    {
        let mut i: usize = 0;
        while i < bytes_read
            invariant
                i <= bytes_read,
                self@ == old(self)@.confirm_reads(i as nat, levels@),
            decreases bytes_read - i,
        {
            if let Some(register) = Register::from_address(self.selected_address, self.bank_mode) {
                self.read_side_effects(register, levels);
            }
            self.advance_address();
            i += 1;
        }
    }

    /// What the adapter of a pin is to be set to: the pin's direction,
    /// pull-up and output latch.
    pub fn pin_configuration(&self, pin_index: usize) -> (configuration: PinConfiguration)
        requires
            pin_index < 16,
        ensures
            configuration.io_direction == IoDirection::of_bit(
                self@.io_directions[pin_index as int],
            ),
            configuration.pull_up_enabled == self@.pull_up_enabled[pin_index as int],
            configuration.level == PinState::of_bit(self@.output_latches[pin_index as int]),
    {
        PinConfiguration {
            io_direction: IoDirection::from(self.io_directions[pin_index]),
            pull_up_enabled: self.pull_up_enabled[pin_index],
            level: PinState::from(self.output_latches[pin_index]),
        }
    }

    /// Whether any pin of a bank has its interrupt flag set.
    fn bank_flagged(&self, ab: AB) -> (flagged: bool)
        ensures
            flagged == self@.bank_flagged(ab),
    {
        bank_has_any(&self.int_flags, ab)
    }

    /// How the two interrupt outputs are to be driven now. An output is
    /// asserted while a flag of its bank is set, or, with MIRROR, a flag of
    /// either bank; it is driven at INTPOL's level while asserted and at the
    /// inverse otherwise, in the mode that ODR gives.
    pub fn interrupt_lines(&self) -> (lines: InterruptLines)
        ensures
            lines.mode == self@.int_mode,
            lines.a == self@.interrupt_level(AB::A),
            lines.b == self@.interrupt_level(AB::B),
    {
        let mut a = self.bank_flagged(AB::A);
        let mut b = self.bank_flagged(AB::B);
        if self.mirror_interrupts && (a || b) {
            a = true;
            b = true;
        }
        let idle = core::ops::Not::not(self.int_active_state);
        InterruptLines {
            mode: self.int_mode,
            a: if a {
                self.int_active_state
            } else {
                idle
            },
            b: if b {
                self.int_active_state
            } else {
                idle
            },
        }
    }

    /// The level whose arrival on a pin raises the pin's interrupt: the
    /// inverse of what the pin is compared with. `None` while the pin is not
    /// watched.
    pub fn wait_level(&self, pin_index: usize) -> (level: Option<PinState>)
        requires
            pin_index < 16,
        ensures
            level is Some <==> self@.armed(pin_index as int),
            level matches Some(l) ==> l == PinState::of_bit(!self@.compare_bit(pin_index as int)),
    {
        if self.int_enabled[pin_index] && !self.int_flags[pin_index] {
            let compare = if self.interrupt_control[pin_index] {
                self.int_compare[pin_index]
            } else {
                self.known_input_states[pin_index]
            };
            Some(PinState::from(!compare))
        } else {
            None
        }
    }

    /// Takes a level seen on a pin. Where the pin is watched and the level
    /// differs from what the pin is compared with, the pin's interrupt is
    /// raised: its flag is set, and the level is captured and becomes the
    /// pin's known level. Returns whether the interrupt was raised.
    pub fn observe_level(&mut self, pin_index: usize, level: PinState) -> (raised: bool)
        requires
            pin_index < 16,
        ensures
            raised == old(self)@.triggers(pin_index as int, level),
            final(self)@ == old(self)@.observe_level(pin_index as int, level),
    {
        match self.wait_level(pin_index) {
            Some(awaited) => {
                if level == awaited {
                    self.int_flags[pin_index] = true;
                    self.int_captured_value[pin_index] = bool::from(level);
                    self.known_input_states[pin_index] = bool::from(level);
                    assert(self@ =~~= old(self)@.observe_level(pin_index as int, level));
                    true
                } else {
                    false
                }
            },
            None => false,
        }
    }
}

} // verus!
