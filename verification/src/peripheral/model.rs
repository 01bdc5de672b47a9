//! The device as a mathematical value: what its registers hold, and what
//! each byte of a transaction does to them.

use crate::common::{AB, InterruptMode, PinState, Register, RegisterType};
use crate::peripheral::address::{advanced, advanced_by, AdvanceAddressMode};
use crate::util::{
    any_in_bank, bank_bits, bit_of_byte, bit_value, bits_of_byte, byte_of_bits,
    lemma_bits_round_trip, with_bank_byte,
};
use vstd::prelude::*;

verus! {

/// Everything the device remembers. Each sequence has one entry per pin,
/// and holds the bit that the pin has in the register of that kind.
#[verifier::ext_equal]
pub struct ChipState {
    /// IOCON.BANK
    pub bank_mode: bool,
    /// IOCON.MIRROR
    pub mirror_interrupts: bool,
    /// IOCON.SEQOP
    pub sequential_mode: bool,
    /// IOCON.ODR
    pub int_mode: InterruptMode,
    /// IOCON.INTPOL
    pub int_active_state: PinState,
    /// The address pointer.
    pub selected_address: u8,
    /// IODIR
    pub io_directions: Seq<bool>,
    /// GPPU
    pub pull_up_enabled: Seq<bool>,
    /// OLAT
    pub output_latches: Seq<bool>,
    /// IPOL
    pub gpio_inverted: Seq<bool>,
    /// GPINTEN
    pub int_enabled: Seq<bool>,
    /// DEFVAL
    pub int_compare: Seq<bool>,
    /// INTCON
    pub interrupt_control: Seq<bool>,
    /// INTF
    pub int_flags: Seq<bool>,
    /// INTCAP
    pub int_captured_value: Seq<bool>,
    /// The level each input had when its bank's GPIO was last read or its
    /// interrupt last raised: the "previous value" of INTCON = 0.
    pub known_input_states: Seq<bool>,
}

/// Sixteen bits with those of one bank set to `false`.
pub open spec fn with_bank_cleared(bits: Seq<bool>, ab: AB) -> Seq<bool> {
    Seq::new(
        16,
        |i: int|
            if 8 * ab.index() <= i < 8 * ab.index() + 8 {
                false
            } else {
                bits[i]
            },
    )
}

impl ChipState {
    /// The state after power-on or reset: every pin an input, everything
    /// else off, interrupts active low and actively driven.
    pub open spec fn initial() -> ChipState {
        ChipState {
            bank_mode: false,
            mirror_interrupts: false,
            sequential_mode: false,
            int_mode: InterruptMode::ActiveDriver,
            int_active_state: PinState::Low,
            selected_address: 0,
            io_directions: Seq::new(16, |i: int| true),
            pull_up_enabled: Seq::new(16, |i: int| false),
            output_latches: Seq::new(16, |i: int| false),
            gpio_inverted: Seq::new(16, |i: int| false),
            int_enabled: Seq::new(16, |i: int| false),
            int_compare: Seq::new(16, |i: int| false),
            interrupt_control: Seq::new(16, |i: int| false),
            int_flags: Seq::new(16, |i: int| false),
            int_captured_value: Seq::new(16, |i: int| false),
            known_input_states: Seq::new(16, |i: int| false),
        }
    }

    /// Every register has its sixteen bits.
    pub open spec fn wf(self) -> bool {
        &&& self.io_directions.len() == 16
        &&& self.pull_up_enabled.len() == 16
        &&& self.output_latches.len() == 16
        &&& self.gpio_inverted.len() == 16
        &&& self.int_enabled.len() == 16
        &&& self.int_compare.len() == 16
        &&& self.interrupt_control.len() == 16
        &&& self.int_flags.len() == 16
        &&& self.int_captured_value.len() == 16
        &&& self.known_input_states.len() == 16
    }

    /// The sixteen bits behind a kind of register. GPIO is written through
    /// to OLAT, so its bits are OLAT's. IOCON has no bit per pin.
    pub open spec fn bits(self, kind: RegisterType) -> Seq<bool> {
        match kind {
            RegisterType::IODIR => self.io_directions,
            RegisterType::IPOL => self.gpio_inverted,
            RegisterType::GPINTEN => self.int_enabled,
            RegisterType::DEFVAL => self.int_compare,
            RegisterType::INTCON => self.interrupt_control,
            RegisterType::IOCON => Seq::new(16, |i: int| false),
            RegisterType::GPPU => self.pull_up_enabled,
            RegisterType::INTF => self.int_flags,
            RegisterType::INTCAP => self.int_captured_value,
            RegisterType::GPIO => self.output_latches,
            RegisterType::OLAT => self.output_latches,
        }
    }

    /// The state with the bits behind a kind of register replaced.
    pub open spec fn with_bits(self, kind: RegisterType, bits: Seq<bool>) -> ChipState {
        match kind {
            RegisterType::IODIR => ChipState { io_directions: bits, ..self },
            RegisterType::IPOL => ChipState { gpio_inverted: bits, ..self },
            RegisterType::GPINTEN => ChipState { int_enabled: bits, ..self },
            RegisterType::DEFVAL => ChipState { int_compare: bits, ..self },
            RegisterType::INTCON => ChipState { interrupt_control: bits, ..self },
            RegisterType::IOCON => self,
            RegisterType::GPPU => ChipState { pull_up_enabled: bits, ..self },
            RegisterType::INTF => ChipState { int_flags: bits, ..self },
            RegisterType::INTCAP => ChipState { int_captured_value: bits, ..self },
            RegisterType::GPIO => ChipState { output_latches: bits, ..self },
            RegisterType::OLAT => ChipState { output_latches: bits, ..self },
        }
    }

    /// Whether a write to a kind of register changes what a pin's adapter
    /// must do.
    pub open spec fn drives_adapter(kind: RegisterType) -> bool {
        kind == RegisterType::IODIR || kind == RegisterType::GPPU || kind == RegisterType::OLAT
            || kind == RegisterType::GPIO || kind == RegisterType::GPINTEN
    }

    /// Whether a kind of register takes writes: INTF and INTCAP are set by
    /// the device alone.
    pub open spec fn writable(kind: RegisterType) -> bool {
        kind != RegisterType::INTF && kind != RegisterType::INTCAP
    }

    /// The byte that IOCON reads as: BANK in bit 7, MIRROR in 6, SEQOP in 5,
    /// ODR in 2 and INTPOL in 1.
    pub open spec fn iocon_byte(self) -> int {
        bit_value(self.bank_mode, 128) + bit_value(self.mirror_interrupts, 64) + bit_value(
            self.sequential_mode,
            32,
        ) + bit_value(self.int_mode.bit(), 4) + bit_value(self.int_active_state.is_high(), 2)
    }

    /// The state after one byte is written to a register. A write to IOCON
    /// sets the five configuration bits; one to INTF or INTCAP does nothing;
    /// one to GPIO goes to OLAT; any other replaces the bank's eight bits.
    pub open spec fn write_register(self, register: Register, value: u8) -> ChipState {
        if register._type == RegisterType::IOCON {
            ChipState {
                bank_mode: bit_of_byte(value, 7),
                mirror_interrupts: bit_of_byte(value, 6),
                sequential_mode: bit_of_byte(value, 5),
                int_mode: InterruptMode::of_bit(bit_of_byte(value, 2)),
                int_active_state: PinState::of_bit(bit_of_byte(value, 1)),
                ..self
            }
        } else if ChipState::writable(register._type) {
            self.with_bits(
                register._type,
                with_bank_byte(self.bits(register._type), register.ab, value),
            )
        } else {
            self
        }
    }

    /// The pins whose adapter must be configured anew after one byte is
    /// written to a register: those whose direction, pull-up, latch or
    /// interrupt enable the write changed.
    pub open spec fn reconfigured(self, register: Register, value: u8) -> Seq<bool> {
        Seq::new(
            16,
            |i: int|
                ChipState::drives_adapter(register._type) && self.write_register(
                    register,
                    value,
                ).bits(register._type)[i] != self.bits(register._type)[i],
        )
    }

    /// The level that GPIO shows for a pin: the latch of an output, the
    /// line's level of an input.
    pub open spec fn gpio_bit(self, levels: Seq<PinState>, pin: int) -> bool {
        if self.io_directions[pin] {
            levels[pin].is_high()
        } else {
            self.output_latches[pin]
        }
    }

    /// The sixteen bits that GPIO shows while the lines are at `levels`.
    pub open spec fn gpio_bits(self, levels: Seq<PinState>) -> Seq<bool> {
        Seq::new(16, |i: int| self.gpio_bit(levels, i))
    }

    /// The byte that a register reads as while the lines are at `levels`.
    pub open spec fn read_register(self, register: Register, levels: Seq<PinState>) -> int {
        match register._type {
            RegisterType::IOCON => self.iocon_byte(),
            RegisterType::GPIO => byte_of_bits(bank_bits(self.gpio_bits(levels), register.ab)),
            _ => byte_of_bits(bank_bits(self.bits(register._type), register.ab)),
        }
    }

    /// The state after a read of a register has been confirmed. Reading
    /// GPIO notes the bank's levels as the known ones and clears the bank's
    /// interrupt flags; reading INTCAP clears the bank's interrupt flags.
    pub open spec fn read_side_effects(
        self,
        register: Register,
        levels: Seq<PinState>,
    ) -> ChipState {
        match register._type {
            RegisterType::GPIO => ChipState {
                known_input_states: Seq::new(
                    16,
                    |i: int|
                        if 8 * register.ab.index() <= i < 8 * register.ab.index() + 8 {
                            self.gpio_bit(levels, i)
                        } else {
                            self.known_input_states[i]
                        },
                ),
                int_flags: with_bank_cleared(self.int_flags, register.ab),
                ..self
            },
            RegisterType::INTCAP => ChipState {
                int_flags: with_bank_cleared(self.int_flags, register.ab),
                ..self
            },
            _ => self,
        }
    }

    /// How the pointer moves in this state.
    pub open spec fn advance_address_mode(self) -> AdvanceAddressMode {
        if self.sequential_mode {
            AdvanceAddressMode::Cycle
        } else if !self.bank_mode {
            AdvanceAddressMode::Toggle
        } else {
            AdvanceAddressMode::Fixed
        }
    }

    /// The register that the pointer stands on, if it stands on one.
    pub open spec fn selected_register(self) -> Option<Register> {
        Register::at_address(self.selected_address as int, self.bank_mode)
    }

    /// The state with the pointer moved by one byte.
    pub open spec fn advance(self) -> ChipState {
        ChipState {
            selected_address: advanced(self.selected_address, self.advance_address_mode()),
            ..self
        }
    }

    /// The state after one data byte of a write transaction: the byte goes
    /// to the register under the pointer, if there is one, and the pointer
    /// moves on either way.
    pub open spec fn write_byte(self, value: u8) -> ChipState {
        match self.selected_register() {
            Some(register) => self.write_register(register, value).advance(),
            None => self.advance(),
        }
    }

    /// The state after the data bytes of a write transaction, in order.
    pub open spec fn write_bytes(self, values: Seq<u8>) -> ChipState
        decreases values.len(),
    {
        if values.len() == 0 {
            self
        } else {
            self.write_bytes(values.drop_last()).write_byte(values.last())
        }
    }

    /// The state after a write transaction: its first byte sets the
    /// pointer, the others are data. An empty transaction changes nothing.
    pub open spec fn write_transaction(self, bytes: Seq<u8>) -> ChipState {
        if bytes.len() == 0 {
            self
        } else {
            (ChipState { selected_address: bytes[0], ..self }).write_bytes(bytes.skip(1))
        }
    }

    /// The pins whose adapter must be configured anew after one data byte.
    pub open spec fn byte_reconfigured(self, value: u8) -> Seq<bool> {
        match self.selected_register() {
            Some(register) => self.reconfigured(register, value),
            None => Seq::new(16, |i: int| false),
        }
    }

    /// The pins whose adapter must be configured anew after the data bytes
    /// of a write transaction: those that any of the bytes changed.
    pub open spec fn bytes_reconfigured(self, values: Seq<u8>) -> Seq<bool>
        decreases values.len(),
    {
        if values.len() == 0 {
            Seq::new(16, |i: int| false)
        } else {
            let before = self.bytes_reconfigured(values.drop_last());
            let last = self.write_bytes(values.drop_last()).byte_reconfigured(values.last());
            Seq::new(16, |i: int| before[i] || last[i])
        }
    }

    /// The pins whose adapter must be configured anew after a write
    /// transaction.
    pub open spec fn transaction_reconfigured(self, bytes: Seq<u8>) -> Seq<bool> {
        if bytes.len() == 0 {
            Seq::new(16, |i: int| false)
        } else {
            (ChipState { selected_address: bytes[0], ..self }).bytes_reconfigured(bytes.skip(1))
        }
    }

    /// The state after `count` bytes of a read transaction have been
    /// confirmed: for each in turn, the side effects of reading the register
    /// under the pointer, if there is one, and the pointer moved on.
    pub open spec fn confirm_reads(self, count: nat, levels: Seq<PinState>) -> ChipState
        decreases count,
    {
        if count == 0 {
            self
        } else {
            let before = self.confirm_reads((count - 1) as nat, levels);
            match before.selected_register() {
                Some(register) => before.read_side_effects(register, levels).advance(),
                None => before.advance(),
            }
        }
    }

    /// The byte that stands at place `index` of a read transaction's answer
    /// while the lines are at `levels`: that of the register on which the
    /// pointer stands after `index` bytes, or `kept`, what the answer held
    /// before, where the pointer then stands on none.
    pub open spec fn read_byte(self, index: nat, levels: Seq<PinState>, kept: u8) -> int {
        match Register::at_address(
            advanced_by(self.selected_address, self.advance_address_mode(), index) as int,
            self.bank_mode,
        ) {
            Some(register) => self.read_register(register, levels),
            None => kept as int,
        }
    }

    /// Whether any pin of a bank has its interrupt flag set.
    pub open spec fn bank_flagged(self, ab: AB) -> bool {
        any_in_bank(self.int_flags, ab)
    }

    /// Whether a bank's interrupt output is asserted: a flag of the bank is
    /// set, or, with MIRROR, a flag of either bank.
    pub open spec fn interrupt_asserted(self, ab: AB) -> bool {
        if self.mirror_interrupts {
            self.bank_flagged(AB::A) || self.bank_flagged(AB::B)
        } else {
            self.bank_flagged(ab)
        }
    }

    /// The level at which a bank's interrupt output is driven: INTPOL while
    /// asserted, its inverse otherwise.
    pub open spec fn interrupt_level(self, ab: AB) -> PinState {
        if self.interrupt_asserted(ab) {
            self.int_active_state
        } else {
            PinState::of_bit(!self.int_active_state.is_high())
        }
    }

    /// Whether a pin is watched for a change: its interrupt is enabled and
    /// its flag is not yet set.
    pub open spec fn armed(self, pin: int) -> bool {
        self.int_enabled[pin] && !self.int_flags[pin]
    }

    /// The value a pin is compared with: its DEFVAL bit where its INTCON bit
    /// is 1, its known level otherwise.
    pub open spec fn compare_bit(self, pin: int) -> bool {
        if self.interrupt_control[pin] {
            self.int_compare[pin]
        } else {
            self.known_input_states[pin]
        }
    }

    /// Whether a level seen on a pin raises the pin's interrupt.
    pub open spec fn triggers(self, pin: int, level: PinState) -> bool {
        self.armed(pin) && level.is_high() != self.compare_bit(pin)
    }

    /// The state after a level has been seen on a pin. Where it raises the
    /// pin's interrupt, the flag is set and the level is captured and becomes
    /// the known one; otherwise nothing changes.
    pub open spec fn observe_level(self, pin: int, level: PinState) -> ChipState {
        if self.triggers(pin, level) {
            ChipState {
                int_flags: self.int_flags.update(pin, true),
                int_captured_value: self.int_captured_value.update(pin, level.is_high()),
                known_input_states: self.known_input_states.update(pin, level.is_high()),
                ..self
            }
        } else {
            self
        }
    }
}

proof fn lemma_kept_iocon_bits(value: u8)
    by (bit_vector)
    ensures
        (value & 0xE6) == (if (value / 128) % 2 == 1 {
            128u8
        } else {
            0u8
        }) + (if (value / 64) % 2 == 1 {
            64u8
        } else {
            0u8
        }) + (if (value / 32) % 2 == 1 {
            32u8
        } else {
            0u8
        }) + (if (value / 4) % 2 == 1 {
            4u8
        } else {
            0u8
        }) + (if (value / 2) % 2 == 1 {
            2u8
        } else {
            0u8
        }),
{
}

/// A register reads back what was written to it, whatever the lines hold:
/// each kind with a bit per pin but the two that only the device sets (INTF
/// and INTCAP) and GPIO; IOCON in the five bits that it keeps; and GPIO
/// where every pin of the bank is an output.
pub proof fn lemma_read_after_write(
    state: ChipState,
    register: Register,
    value: u8,
    levels: Seq<PinState>,
)
    requires
        state.wf(),
    ensures
        ChipState::writable(register._type) && register._type != RegisterType::IOCON
            && register._type != RegisterType::GPIO ==> state.write_register(
            register,
            value,
        ).read_register(register, levels) == value,
        register._type == RegisterType::IOCON ==> state.write_register(
            register,
            value,
        ).read_register(register, levels) == value & 0xE6,
        register._type == RegisterType::GPIO && (forall|i: int|
            8 * register.ab.index() <= i < 8 * register.ab.index() + 8
                ==> !#[trigger] state.io_directions[i]) ==> state.write_register(
            register,
            value,
        ).read_register(register, levels) == value,
{
    let written = state.write_register(register, value);
    lemma_bits_round_trip(value, bits_of_byte(value));
    lemma_kept_iocon_bits(value);
    if register._type == RegisterType::GPIO {
        if forall|i: int|
            8 * register.ab.index() <= i < 8 * register.ab.index() + 8
                ==> !#[trigger] state.io_directions[i] {
            assert(bank_bits(written.gpio_bits(levels), register.ab) =~= bits_of_byte(value));
        }
    } else if register._type != RegisterType::IOCON && ChipState::writable(register._type) {
        assert(bank_bits(written.bits(register._type), register.ab) =~= bits_of_byte(value));
    }
}

/// A confirmed read of GPIO or INTCAP leaves no interrupt flag set in the
/// bank that was read, so that the bank's INTF then reads as zero, and
/// leaves the other bank's flags as they were.
pub proof fn lemma_read_clears_flags(
    state: ChipState,
    register: Register,
    levels: Seq<PinState>,
    read_levels: Seq<PinState>,
)
    requires
        state.wf(),
        register._type == RegisterType::GPIO || register._type == RegisterType::INTCAP,
    ensures
        forall|i: int|
            0 <= i < 16 ==> #[trigger] state.read_side_effects(register, levels).int_flags[i] == (
            AB::of_pin(i) != register.ab && state.int_flags[i]),
        !state.read_side_effects(register, levels).bank_flagged(register.ab),
        state.read_side_effects(register, levels).read_register(
            Register { _type: RegisterType::INTF, ab: register.ab },
            read_levels,
        ) == 0,
        state.selected_register() == Some(register) ==> state.confirm_reads(1, levels)
            == state.read_side_effects(register, levels).advance(),
{
    reveal_with_fuel(ChipState::confirm_reads, 2);
}

proof fn lemma_writes_keep_flags(state: ChipState, values: Seq<u8>)
    ensures
        state.write_bytes(values).int_flags == state.int_flags,
    decreases values.len(),
{
    if values.len() > 0 {
        lemma_writes_keep_flags(state, values.drop_last());
    }
}

proof fn lemma_reads_set_no_flag(state: ChipState, count: nat, levels: Seq<PinState>)
    requires
        state.wf(),
    ensures
        state.confirm_reads(count, levels).wf(),
        forall|i: int|
            0 <= i < 16 && #[trigger] state.confirm_reads(count, levels).int_flags[i]
                ==> state.int_flags[i],
    decreases count,
{
    if count > 0 {
        lemma_reads_set_no_flag(state, (count - 1) as nat, levels);
    }
}

/// An interrupt flag is never set for a pin whose interrupt is not enabled.
/// A reset leaves no flag set; a write transaction leaves every flag as it
/// was; confirmed reads set none; and a level seen on a pin sets that pin's
/// flag alone, and only where the pin's GPINTEN bit is 1.
pub proof fn lemma_flags_need_enable(
    state: ChipState,
    bytes: Seq<u8>,
    count: nat,
    levels: Seq<PinState>,
    pin: int,
    level: PinState,
)
    requires
        state.wf(),
        0 <= pin < 16,
    ensures
        forall|i: int| 0 <= i < 16 ==> !#[trigger] ChipState::initial().int_flags[i],
        state.write_transaction(bytes).int_flags == state.int_flags,
        forall|i: int|
            0 <= i < 16 && #[trigger] state.confirm_reads(count, levels).int_flags[i]
                ==> state.int_flags[i],
        forall|i: int|
            0 <= i < 16 && #[trigger] state.observe_level(pin, level).int_flags[i]
                && !state.int_flags[i] ==> i == pin && state.int_enabled[i],
{
    if bytes.len() > 0 {
        lemma_writes_keep_flags(ChipState { selected_address: bytes[0], ..state }, bytes.skip(1));
    }
    lemma_reads_set_no_flag(state, count, levels);
}

/// A captured level is latched: INTCAP takes a pin's level at the moment
/// the pin's flag is set, and keeps it for as long as the flag stays set.
/// No write, no confirmed read and no level seen changes the captured level
/// of a pin whose flag was set.
pub proof fn lemma_capture_is_latched(
    state: ChipState,
    bytes: Seq<u8>,
    count: nat,
    levels: Seq<PinState>,
    pin: int,
    level: PinState,
)
    requires
        state.wf(),
        0 <= pin < 16,
    ensures
        state.write_transaction(bytes).int_captured_value == state.int_captured_value,
        state.confirm_reads(count, levels).int_captured_value == state.int_captured_value,
        forall|i: int|
            0 <= i < 16 && state.int_flags[i] ==> #[trigger] state.observe_level(
                pin,
                level,
            ).int_captured_value[i] == state.int_captured_value[i],
        state.triggers(pin, level) ==> state.observe_level(pin, level).int_flags[pin]
            && state.observe_level(pin, level).int_captured_value[pin] == level.is_high(),
{
    if bytes.len() > 0 {
        lemma_writes_keep_captures(
            ChipState { selected_address: bytes[0], ..state },
            bytes.skip(1),
        );
    }
    lemma_reads_keep_captures(state, count, levels);
}

proof fn lemma_writes_keep_captures(state: ChipState, values: Seq<u8>)
    ensures
        state.write_bytes(values).int_captured_value == state.int_captured_value,
    decreases values.len(),
{
    if values.len() > 0 {
        lemma_writes_keep_captures(state, values.drop_last());
    }
}

proof fn lemma_reads_keep_captures(state: ChipState, count: nat, levels: Seq<PinState>)
    ensures
        state.confirm_reads(count, levels).int_captured_value == state.int_captured_value,
    decreases count,
{
    if count > 0 {
        lemma_reads_keep_captures(state, (count - 1) as nat, levels);
    }
}

/// IOCON is one register behind two addresses: a write through either
/// alias does the same, and both read alike.
pub proof fn lemma_iocon_is_shared(state: ChipState, value: u8, levels: Seq<PinState>)
    ensures
        state.write_register(Register { _type: RegisterType::IOCON, ab: AB::A }, value)
            == state.write_register(Register { _type: RegisterType::IOCON, ab: AB::B }, value),
        state.read_register(Register { _type: RegisterType::IOCON, ab: AB::A }, levels)
            == state.read_register(Register { _type: RegisterType::IOCON, ab: AB::B }, levels),
{
}

/// With MIRROR set the two interrupt outputs are driven alike, in every
/// state.
pub proof fn lemma_mirrored_lines_agree(state: ChipState)
    requires
        state.mirror_interrupts,
    ensures
        state.interrupt_asserted(AB::A) == state.interrupt_asserted(AB::B),
        state.interrupt_level(AB::A) == state.interrupt_level(AB::B),
{
}

} // verus!
