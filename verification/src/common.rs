//! The register model shared by the controller and the emulated device.

use core::ops::Range;
use vstd::prelude::*;
use vstd::std_specs::convert::FromSpecImpl;
use vstd::std_specs::ops::NotSpecImpl;

verus! {

/// There are 8 GPIO pins for set A and set B
pub const N_GPIO_PINS_PER_SET: usize = 8;

/// The two sets together.
pub const N_TOTAL_GPIO_PINS: usize = 16;

/// The logic level of a pin.
#[derive(Debug, Clone, Copy, PartialEq, Eq, Structural)]
pub enum PinState {
    Low,
    High,
}

impl PinState {
    /// `true` for `High`.
    pub open spec fn is_high(self) -> bool {
        self == PinState::High
    }

    /// The level that stands for a register bit.
    pub open spec fn of_bit(bit: bool) -> PinState {
        if bit {
            PinState::High
        } else {
            PinState::Low
        }
    }
}

impl From<bool> for PinState {
    fn from(value: bool) -> (state: Self) {
        if value {
            PinState::High
        } else {
            PinState::Low
        }
    }
}

impl FromSpecImpl<bool> for PinState {
    open spec fn obeys_from_spec() -> bool {
        true
    }

    open spec fn from_spec(value: bool) -> Self {
        PinState::of_bit(value)
    }
}

impl From<PinState> for bool {
    fn from(value: PinState) -> (bit: Self) {
        match value {
            PinState::Low => false,
            PinState::High => true,
        }
    }
}

impl FromSpecImpl<PinState> for bool {
    open spec fn obeys_from_spec() -> bool {
        true
    }

    open spec fn from_spec(value: PinState) -> Self {
        value.is_high()
    }
}

impl core::ops::Not for PinState {
    type Output = PinState;

    fn not(self) -> (inverse: PinState) {
        match self {
            PinState::Low => PinState::High,
            PinState::High => PinState::Low,
        }
    }
}

impl NotSpecImpl for PinState {
    open spec fn obeys_not_spec() -> bool {
        true
    }

    open spec fn not_req(self) -> bool {
        true
    }

    open spec fn not_spec(self) -> PinState {
        PinState::of_bit(!self.is_high())
    }
}

/// One of the two 8-pin halves of the expander: A holds pins 0 to 7, B pins
/// 8 to 15.
#[derive(Debug, Clone, Copy, PartialEq, Eq, Structural, PartialOrd, Ord)]
pub enum AB {
    A,
    B,
}

impl AB {
    /// The number of banks.
    pub const COUNT: usize = 2;

    /// 0 for A, 1 for B.
    pub open spec fn index(self) -> int {
        match self {
            AB::A => 0,
            AB::B => 1,
        }
    }

    /// The bank that holds pin `pin`.
    pub open spec fn of_pin(pin: int) -> AB {
        if pin / 8 == 0 {
            AB::A
        } else {
            AB::B
        }
    }

    pub fn set_index(&self) -> (index: usize)
        ensures
            index == self.index(),
    {
        match self {
            Self::A => 0,
            Self::B => 1,
        }
    }

    /// The bank of a pin. Pins are numbered 0 to 15.
    pub fn from_index(index: usize) -> (bank: Self)
        requires
            index < N_TOTAL_GPIO_PINS,
        ensures
            bank == AB::of_pin(index as int),
            bank.index() == index / 8,
    {
        if index / N_GPIO_PINS_PER_SET == 0 {
            Self::A
        } else {
            Self::B
        }
    }

    /// The number of the bank's first pin.
    pub fn starting_index(&self) -> (start: usize)
        ensures
            start == 8 * self.index(),
    {
        self.set_index() * N_GPIO_PINS_PER_SET
    }

    /// The numbers of the bank's pins.
    pub fn range(&self) -> (pins: Range<usize>)
        ensures
            pins.start == 8 * self.index(),
            pins.end == 8 * self.index() + 8,
    {
        self.set_index() * N_GPIO_PINS_PER_SET..(self.set_index() + 1) * N_GPIO_PINS_PER_SET
    }
}

/// A pin number that is shown as its bank's letter and its place in the bank.
pub struct FormatPinIndex(pub usize);

impl FormatPinIndex {
    /// The bank's letter and the pin's number within the bank: pin 10 is
    /// `('B', 2)`.
    pub fn parts(&self) -> (parts: (char, usize))
        requires
            self.0 < N_TOTAL_GPIO_PINS,
        ensures
            parts.0 == (if self.0 < 8 {
                'A'
            } else {
                'B'
            }),
            parts.1 == self.0 % 8,
    {
        let letter = match AB::from_index(self.0) {
            AB::A => 'A',
            AB::B => 'B',
        };
        (letter, self.0 % N_GPIO_PINS_PER_SET)
    }
}

/// The eleven kinds of register, in the order of their addresses.
#[derive(Debug, Clone, Copy, PartialEq, Eq, Structural)]
pub enum RegisterType {
    /// Direction of each pin: 1 is input, 0 is output.
    IODIR,
    /// Input polarity inversion of each pin.
    IPOL,
    /// Interrupt-on-change enable of each pin.
    GPINTEN,
    /// The value each pin is compared with where its INTCON bit is 1.
    DEFVAL,
    /// 1 compares the pin with DEFVAL, 0 with its previous value.
    INTCON,
    /// The configuration of the whole device.
    IOCON,
    /// Pull-up enable of each pin.
    GPPU,
    /// Interrupt flag of each pin.
    INTF,
    /// The level of each pin when its interrupt was raised.
    INTCAP,
    /// The current level of each pin.
    GPIO,
    /// The output latch of each pin.
    OLAT,
}

impl RegisterType {
    /// The number of register kinds.
    pub const COUNT: usize = 11;

    /// The place of the kind in the address order, from 0.
    pub open spec fn ordinal(self) -> int {
        match self {
            RegisterType::IODIR => 0,
            RegisterType::IPOL => 1,
            RegisterType::GPINTEN => 2,
            RegisterType::DEFVAL => 3,
            RegisterType::INTCON => 4,
            RegisterType::IOCON => 5,
            RegisterType::GPPU => 6,
            RegisterType::INTF => 7,
            RegisterType::INTCAP => 8,
            RegisterType::GPIO => 9,
            RegisterType::OLAT => 10,
        }
    }

    /// The kind at a place of the address order, if there is one.
    pub open spec fn of_ordinal(ordinal: int) -> Option<RegisterType> {
        if ordinal == 0 {
            Some(RegisterType::IODIR)
        } else if ordinal == 1 {
            Some(RegisterType::IPOL)
        } else if ordinal == 2 {
            Some(RegisterType::GPINTEN)
        } else if ordinal == 3 {
            Some(RegisterType::DEFVAL)
        } else if ordinal == 4 {
            Some(RegisterType::INTCON)
        } else if ordinal == 5 {
            Some(RegisterType::IOCON)
        } else if ordinal == 6 {
            Some(RegisterType::GPPU)
        } else if ordinal == 7 {
            Some(RegisterType::INTF)
        } else if ordinal == 8 {
            Some(RegisterType::INTCAP)
        } else if ordinal == 9 {
            Some(RegisterType::GPIO)
        } else if ordinal == 10 {
            Some(RegisterType::OLAT)
        } else {
            None
        }
    }

    /// The kind's place in the address order.
    pub fn repr(self) -> (ordinal: u8)
        ensures
            ordinal == self.ordinal(),
    {
        match self {
            RegisterType::IODIR => 0,
            RegisterType::IPOL => 1,
            RegisterType::GPINTEN => 2,
            RegisterType::DEFVAL => 3,
            RegisterType::INTCON => 4,
            RegisterType::IOCON => 5,
            RegisterType::GPPU => 6,
            RegisterType::INTF => 7,
            RegisterType::INTCAP => 8,
            RegisterType::GPIO => 9,
            RegisterType::OLAT => 10,
        }
    }

    /// The kind at a place of the address order; `None` from 11 on.
    pub fn from_repr(ordinal: u8) -> (kind: Option<Self>)
        ensures
            kind == RegisterType::of_ordinal(ordinal as int),
            kind matches Some(k) ==> k.ordinal() == ordinal,
            kind is Some <==> ordinal < 11,
    {
        match ordinal {
            0 => Some(RegisterType::IODIR),
            1 => Some(RegisterType::IPOL),
            2 => Some(RegisterType::GPINTEN),
            3 => Some(RegisterType::DEFVAL),
            4 => Some(RegisterType::INTCON),
            5 => Some(RegisterType::IOCON),
            6 => Some(RegisterType::GPPU),
            7 => Some(RegisterType::INTF),
            8 => Some(RegisterType::INTCAP),
            9 => Some(RegisterType::GPIO),
            10 => Some(RegisterType::OLAT),
            _ => None,
        }
    }
}

/// One register of the device: a kind and the bank it serves.
#[derive(Debug, Clone, Copy, PartialEq, Eq, Structural)]
pub struct Register {
    pub _type: RegisterType,
    pub ab: AB,
}

impl Register {
    /// The register's address. With `bank_mode` off (IOCON.BANK = 0) the two
    /// banks of a kind are neighbours; with it on (IOCON.BANK = 1) each bank
    /// is a block of eleven.
    pub open spec fn spec_address(self, bank_mode: bool) -> int {
        if bank_mode {
            self.ab.index() * 11 + self._type.ordinal()
        } else {
            self._type.ordinal() * 2 + self.ab.index()
        }
    }

    /// The register at an address, if the address is one of the 22.
    pub open spec fn at_address(address: int, bank_mode: bool) -> Option<Register> {
        if 0 <= address < 22 {
            if bank_mode {
                Some(
                    Register {
                        _type: RegisterType::of_ordinal(address % 11).unwrap(),
                        ab: if address < 11 {
                            AB::A
                        } else {
                            AB::B
                        },
                    },
                )
            } else {
                Some(
                    Register {
                        _type: RegisterType::of_ordinal(address / 2).unwrap(),
                        ab: if address % 2 == 0 {
                            AB::A
                        } else {
                            AB::B
                        },
                    },
                )
            }
        } else {
            None
        }
    }

    /// If the address is invalid, returns `None`
    pub fn from_address(address: u8, bank_mode: bool) -> (register: Option<Self>)
        ensures
            register == Register::at_address(address as int, bank_mode),
            register is Some <==> address < 22,
            register matches Some(r) ==> r.spec_address(bank_mode) == address,
    {
        if bank_mode {
            if address < 11 {
                match RegisterType::from_repr(address) {
                    Some(_type) => Some(Self { ab: AB::A, _type }),
                    None => None,
                }
            } else {
                match RegisterType::from_repr(address - 11) {
                    Some(_type) => Some(Self { ab: AB::B, _type }),
                    None => None,
                }
            }
        } else {
            match RegisterType::from_repr(address / 2) {
                Some(_type) => Some(
                    Self {
                        ab: if address % 2 == 0 {
                            AB::A
                        } else {
                            AB::B
                        },
                        _type,
                    },
                ),
                None => None,
            }
        }
    }

    /// The register's address under the given IOCON.BANK setting.
    pub fn address(&self, bank_mode: bool) -> (address: u8)
        ensures
            address == self.spec_address(bank_mode),
            address < 22,
    {
        if bank_mode {
            let block: u8 = match self.ab {
                AB::A => 0,
                AB::B => 11,
            };
            block + self._type.repr()
        } else {
            let offset: u8 = match self.ab {
                AB::A => 0,
                AB::B => 1,
            };
            self._type.repr() * 2 + offset
        }
    }
}

/// Address mapping is a bijection between the 22 registers and the
/// addresses 0 to 21, under either IOCON.BANK setting: the register found
/// at a register's address is that register, and an address holds a
/// register exactly when that register's address is it.
pub proof fn lemma_address_round_trip(register: Register, address: int, bank_mode: bool)
    ensures
        Register::at_address(register.spec_address(bank_mode), bank_mode) == Some(register),
        Register::at_address(address, bank_mode) == Some(register) <==> register.spec_address(
            bank_mode,
        ) == address,
{
}

/// The two IOCON registers never share an address: IOCON is reachable at
/// two addresses under either IOCON.BANK setting.
pub proof fn lemma_iocon_has_two_addresses(bank_mode: bool)
    ensures
        (Register { _type: RegisterType::IOCON, ab: AB::A }).spec_address(bank_mode) != (Register {
            _type: RegisterType::IOCON,
            ab: AB::B,
        }).spec_address(bank_mode),
{
}

/// What a pin's level is compared with to raise an interrupt.
#[derive(Debug, Clone, Copy, PartialEq, Eq, Structural)]
pub enum InterruptControl {
    /// Compare with `DEFVAL` register
    CompareWithConfiguredValue,
    CompareWithPreviousValue,
}

impl InterruptControl {
    /// The INTCON bit: 1 compares with DEFVAL.
    pub open spec fn bit(self) -> bool {
        self == InterruptControl::CompareWithConfiguredValue
    }

    /// The setting that an INTCON bit stands for.
    pub open spec fn of_bit(bit: bool) -> InterruptControl {
        if bit {
            InterruptControl::CompareWithConfiguredValue
        } else {
            InterruptControl::CompareWithPreviousValue
        }
    }
}

impl From<bool> for InterruptControl {
    fn from(value: bool) -> (control: Self) {
        match value {
            true => Self::CompareWithConfiguredValue,
            false => Self::CompareWithPreviousValue,
        }
    }
}

impl FromSpecImpl<bool> for InterruptControl {
    open spec fn obeys_from_spec() -> bool {
        true
    }

    open spec fn from_spec(value: bool) -> Self {
        InterruptControl::of_bit(value)
    }
}

impl From<InterruptControl> for bool {
    fn from(value: InterruptControl) -> (bit: Self) {
        match value {
            InterruptControl::CompareWithConfiguredValue => true,
            InterruptControl::CompareWithPreviousValue => false,
        }
    }
}

impl FromSpecImpl<InterruptControl> for bool {
    open spec fn obeys_from_spec() -> bool {
        true
    }

    open spec fn from_spec(value: InterruptControl) -> Self {
        value.bit()
    }
}

/// The direction of a pin.
#[derive(Debug, Clone, Copy, PartialEq, Eq, Structural)]
pub enum IoDirection {
    Output,
    Input,
}

impl IoDirection {
    /// The IODIR bit: 1 is input.
    pub open spec fn bit(self) -> bool {
        self == IoDirection::Input
    }

    /// The direction that an IODIR bit stands for.
    pub open spec fn of_bit(bit: bool) -> IoDirection {
        if bit {
            IoDirection::Input
        } else {
            IoDirection::Output
        }
    }
}

impl From<bool> for IoDirection {
    fn from(value: bool) -> (direction: Self) {
        if value {
            IoDirection::Input
        } else {
            IoDirection::Output
        }
    }
}

impl FromSpecImpl<bool> for IoDirection {
    open spec fn obeys_from_spec() -> bool {
        true
    }

    open spec fn from_spec(value: bool) -> Self {
        IoDirection::of_bit(value)
    }
}

impl From<IoDirection> for bool {
    fn from(value: IoDirection) -> (bit: Self) {
        match value {
            IoDirection::Output => false,
            IoDirection::Input => true,
        }
    }
}

impl FromSpecImpl<IoDirection> for bool {
    open spec fn obeys_from_spec() -> bool {
        true
    }

    open spec fn from_spec(value: IoDirection) -> Self {
        value.bit()
    }
}

/// How the interrupt outputs are driven.
#[derive(Debug, Clone, Copy, PartialEq, Eq, Structural)]
pub enum InterruptMode {
    OpenDrain,
    ActiveDriver,
}

impl InterruptMode {
    /// The IOCON.ODR bit: 1 is open drain.
    pub open spec fn bit(self) -> bool {
        self == InterruptMode::OpenDrain
    }

    /// The mode that an IOCON.ODR bit stands for.
    pub open spec fn of_bit(bit: bool) -> InterruptMode {
        if bit {
            InterruptMode::OpenDrain
        } else {
            InterruptMode::ActiveDriver
        }
    }
}

impl From<bool> for InterruptMode {
    fn from(value: bool) -> (mode: Self) {
        match value {
            true => Self::OpenDrain,
            false => Self::ActiveDriver,
        }
    }
}

impl FromSpecImpl<bool> for InterruptMode {
    open spec fn obeys_from_spec() -> bool {
        true
    }

    open spec fn from_spec(value: bool) -> Self {
        InterruptMode::of_bit(value)
    }
}

impl From<InterruptMode> for bool {
    fn from(value: InterruptMode) -> (bit: Self) {
        match value {
            InterruptMode::OpenDrain => true,
            InterruptMode::ActiveDriver => false,
        }
    }
}

impl FromSpecImpl<InterruptMode> for bool {
    open spec fn obeys_from_spec() -> bool {
        true
    }

    open spec fn from_spec(value: InterruptMode) -> Self {
        value.bit()
    }
}

} // verus!
