//! How the address pointer moves after each byte of a transaction.

use vstd::prelude::*;

verus! {

/// The three ways in which the address pointer moves.
#[derive(Debug, Clone, Copy, PartialEq, Eq, Structural)]
pub enum AdvanceAddressMode {
    /// `IOCON.SEQOP = 0`, `IOCON.BANK = 1`
    Fixed,
    /// `IOCON.SEQOP = 0`, `IOCON.BANK = 0`
    Toggle,
    /// `IOCON.SEQOP = 1`
    Cycle,
}

/// The pointer after one byte. `Fixed` leaves it; `Toggle` moves it to the
/// other register of its pair; `Cycle` adds one, going from 21, the last
/// register, and from 255, the last byte value, back to 0.
pub open spec fn advanced(address: u8, mode: AdvanceAddressMode) -> u8 {
    match mode {
        AdvanceAddressMode::Fixed => address,
        AdvanceAddressMode::Toggle => if address % 2 == 0 {
            (address + 1) as u8
        } else {
            (address - 1) as u8
        },
        AdvanceAddressMode::Cycle => if address == 21 || address == 255 {
            0
        } else {
            (address + 1) as u8
        },
    }
}

/// The pointer after `count` bytes.
pub open spec fn advanced_by(address: u8, mode: AdvanceAddressMode, count: nat) -> u8
    decreases count,
{
    if count == 0 {
        address
    } else {
        advanced(advanced_by(address, mode, (count - 1) as nat), mode)
    }
}

pub fn advance_address(current_address: u8, mode: AdvanceAddressMode) -> (next: u8)
    ensures
        next == advanced(current_address, mode),
{
    match mode {
        AdvanceAddressMode::Fixed => current_address,
        AdvanceAddressMode::Toggle => {
            if current_address % 2 == 0 {
                current_address + 1
            } else {
                current_address - 1
            }
        },
        AdvanceAddressMode::Cycle => {
            if current_address == 21 || current_address == 255 {
                0
            } else {
                current_address + 1
            }
        },
    }
}

proof fn lemma_cycle_steps(address: u8, count: nat)
    requires
        address < 22,
    ensures
        advanced_by(address, AdvanceAddressMode::Cycle, count) == (address + count) % 22,
    decreases count,
{
    if count > 0 {
        lemma_cycle_steps(address, (count - 1) as nat);
    }
}

/// In `Toggle` mode two advances bring the pointer back, wherever it
/// stands. In `Cycle` mode 22 advances bring it back where it stands on one
/// of the 22 registers. In `Fixed` mode it never moves.
pub proof fn lemma_advance_returns(address: u8, count: nat)
    ensures
        advanced_by(address, AdvanceAddressMode::Toggle, 2) == address,
        address < 22 ==> advanced_by(address, AdvanceAddressMode::Cycle, 22) == address,
        advanced_by(address, AdvanceAddressMode::Fixed, count) == address,
    decreases count,
{
    reveal_with_fuel(advanced_by, 3);
    if address < 22 {
        lemma_cycle_steps(address, 22);
    }
    if count > 0 {
        lemma_advance_returns(address, (count - 1) as nat);
    }
}

} // verus!
