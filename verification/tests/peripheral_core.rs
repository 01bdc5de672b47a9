use mcp23017::common::{
    InterruptMode, IoDirection, PinState, Register, RegisterType, AB,
};
use mcp23017::peripheral::address::{advance_address, AdvanceAddressMode};
use mcp23017::peripheral::mcp23017::{InterruptLines, Mcp23017, PinConfiguration};
use mcp23017::peripheral::reset_pin::{ResetPin, MINIMUM_RESET_PULSE_US};

const LOW: [PinState; 16] = [PinState::Low; 16];
const HIGH: [PinState; 16] = [PinState::High; 16];

const PIN_KINDS: [RegisterType; 7] = [
    RegisterType::IODIR,
    RegisterType::IPOL,
    RegisterType::GPINTEN,
    RegisterType::DEFVAL,
    RegisterType::INTCON,
    RegisterType::GPPU,
    RegisterType::OLAT,
];

fn register(kind: RegisterType, ab: AB) -> Register {
    Register { _type: kind, ab }
}

fn read(device: &Mcp23017, kind: RegisterType, ab: AB, levels: &[PinState; 16]) -> u8 {
    device.read_register(register(kind, ab), levels)
}

#[test]
fn toggle_moves_between_the_two_banks_of_a_kind() {
    assert_eq!(advance_address(0x00, AdvanceAddressMode::Toggle), 0x01);
    assert_eq!(advance_address(0x01, AdvanceAddressMode::Toggle), 0x00);
    assert_eq!(advance_address(0x14, AdvanceAddressMode::Toggle), 0x15);
    assert_eq!(advance_address(0xFE, AdvanceAddressMode::Toggle), 0xFF);
    assert_eq!(advance_address(0xFF, AdvanceAddressMode::Toggle), 0xFE);
}

#[test]
fn two_toggles_are_the_identity() {
    for address in 0..=255u8 {
        let once = advance_address(address, AdvanceAddressMode::Toggle);
        assert_eq!(once, address ^ 1);
        assert_eq!(advance_address(once, AdvanceAddressMode::Toggle), address);
    }
}

#[test]
fn cycle_wraps_after_the_last_register() {
    assert_eq!(advance_address(0, AdvanceAddressMode::Cycle), 1);
    assert_eq!(advance_address(20, AdvanceAddressMode::Cycle), 21);
    assert_eq!(advance_address(21, AdvanceAddressMode::Cycle), 0);
    assert_eq!(advance_address(22, AdvanceAddressMode::Cycle), 23);
    assert_eq!(advance_address(255, AdvanceAddressMode::Cycle), 0);
}

#[test]
fn twenty_two_cycle_steps_are_the_identity() {
    for start in 0..22u8 {
        let mut address = start;
        for _ in 0..22 {
            address = advance_address(address, AdvanceAddressMode::Cycle);
        }
        assert_eq!(address, start);
    }
}

#[test]
fn fixed_never_moves() {
    for address in 0..=255u8 {
        assert_eq!(advance_address(address, AdvanceAddressMode::Fixed), address);
    }
}

#[test]
fn a_new_device_holds_the_reset_values() {
    let device = Mcp23017::new();
    for ab in [AB::A, AB::B] {
        assert_eq!(read(&device, RegisterType::IODIR, ab, &LOW), 0xFF);
        for kind in [
            RegisterType::IPOL,
            RegisterType::GPINTEN,
            RegisterType::DEFVAL,
            RegisterType::INTCON,
            RegisterType::IOCON,
            RegisterType::GPPU,
            RegisterType::INTF,
            RegisterType::INTCAP,
            RegisterType::OLAT,
        ] {
            assert_eq!(read(&device, kind, ab, &HIGH), 0x00);
        }
        assert_eq!(read(&device, RegisterType::GPIO, ab, &LOW), 0x00);
        assert_eq!(read(&device, RegisterType::GPIO, ab, &HIGH), 0xFF);
    }
    assert_eq!(device.advance_address_mode(), AdvanceAddressMode::Toggle);
    for pin in 0..16 {
        assert_eq!(
            device.pin_configuration(pin),
            PinConfiguration {
                io_direction: IoDirection::Input,
                pull_up_enabled: false,
                level: PinState::Low,
            }
        );
        assert_eq!(device.wait_level(pin), None);
    }
    assert_eq!(
        device.interrupt_lines(),
        InterruptLines { mode: InterruptMode::ActiveDriver, a: PinState::High, b: PinState::High }
    );
}

#[test]
fn a_register_reads_back_what_was_written() {
    for kind in PIN_KINDS {
        for ab in [AB::A, AB::B] {
            for byte in 0..=255u8 {
                let mut device = Mcp23017::new();
                device.write_register(register(kind, ab), byte);
                assert_eq!(read(&device, kind, ab, &LOW), byte);
                assert_eq!(read(&device, kind, ab, &HIGH), byte);
            }
        }
    }
}

#[test]
fn a_write_to_one_bank_leaves_the_other() {
    let mut device = Mcp23017::new();
    device.write_register(register(RegisterType::GPPU, AB::A), 0xA5);
    assert_eq!(read(&device, RegisterType::GPPU, AB::B, &LOW), 0x00);
    device.write_register(register(RegisterType::GPPU, AB::B), 0x3C);
    assert_eq!(read(&device, RegisterType::GPPU, AB::A, &LOW), 0xA5);
    assert_eq!(read(&device, RegisterType::GPPU, AB::B, &LOW), 0x3C);
    assert_eq!(read(&device, RegisterType::OLAT, AB::A, &LOW), 0x00);
}

#[test]
fn iocon_keeps_five_bits() {
    for ab in [AB::A, AB::B] {
        for byte in 0..=255u8 {
            let mut device = Mcp23017::new();
            device.write_register(register(RegisterType::IOCON, ab), byte);
            assert_eq!(read(&device, RegisterType::IOCON, AB::A, &LOW), byte & 0xE6);
            assert_eq!(read(&device, RegisterType::IOCON, AB::B, &LOW), byte & 0xE6);
        }
    }
}

#[test]
fn iocon_sets_the_pointer_walk() {
    let mut device = Mcp23017::new();
    device.write_register(register(RegisterType::IOCON, AB::A), 0x80);
    assert_eq!(device.advance_address_mode(), AdvanceAddressMode::Fixed);
    device.write_register(register(RegisterType::IOCON, AB::A), 0x20);
    assert_eq!(device.advance_address_mode(), AdvanceAddressMode::Cycle);
    device.write_register(register(RegisterType::IOCON, AB::A), 0xA0);
    assert_eq!(device.advance_address_mode(), AdvanceAddressMode::Cycle);
    device.write_register(register(RegisterType::IOCON, AB::A), 0x00);
    assert_eq!(device.advance_address_mode(), AdvanceAddressMode::Toggle);
}

#[test]
fn a_write_to_gpio_goes_to_the_latch() {
    let mut device = Mcp23017::new();
    device.write_register(register(RegisterType::GPIO, AB::B), 0x5A);
    assert_eq!(read(&device, RegisterType::OLAT, AB::B, &LOW), 0x5A);
    // The pins are inputs: GPIO shows the lines, not the latch
    assert_eq!(read(&device, RegisterType::GPIO, AB::B, &LOW), 0x00);
    device.write_register(register(RegisterType::IODIR, AB::B), 0x0F);
    // The upper four are outputs now and show the latch
    assert_eq!(read(&device, RegisterType::GPIO, AB::B, &LOW), 0x50);
    assert_eq!(read(&device, RegisterType::GPIO, AB::B, &HIGH), 0x5F);
    device.write_register(register(RegisterType::IODIR, AB::B), 0x00);
    assert_eq!(read(&device, RegisterType::GPIO, AB::B, &HIGH), 0x5A);
}

#[test]
fn interrupt_flags_and_captures_take_no_writes() {
    let mut device = Mcp23017::new();
    for kind in [RegisterType::INTF, RegisterType::INTCAP] {
        let changed = device.write_register(register(kind, AB::A), 0xFF);
        assert_eq!(changed, [false; 16]);
        assert_eq!(read(&device, kind, AB::A, &LOW), 0x00);
    }
    assert_eq!(
        device.interrupt_lines(),
        InterruptLines { mode: InterruptMode::ActiveDriver, a: PinState::High, b: PinState::High }
    );
}

#[test]
fn a_write_names_the_pins_to_configure_anew() {
    let mut device = Mcp23017::new();
    let changed = device.write_register(register(RegisterType::IODIR, AB::A), 0b1111_0110);
    let mut expected = [false; 16];
    expected[0] = true;
    expected[3] = true;
    assert_eq!(changed, expected);
    assert_eq!(device.pin_configuration(3).io_direction, IoDirection::Output);
    assert_eq!(device.pin_configuration(4).io_direction, IoDirection::Input);
    // The same value again changes nothing
    assert_eq!(device.write_register(register(RegisterType::IODIR, AB::A), 0b1111_0110), [false; 16]);
    let changed = device.write_register(register(RegisterType::GPPU, AB::B), 0x80);
    let mut expected = [false; 16];
    expected[15] = true;
    assert_eq!(changed, expected);
    assert!(device.pin_configuration(15).pull_up_enabled);
    let changed = device.write_register(register(RegisterType::OLAT, AB::A), 0x08);
    let mut expected = [false; 16];
    expected[3] = true;
    assert_eq!(changed, expected);
    assert_eq!(device.pin_configuration(3).level, PinState::High);
    let changed = device.write_register(register(RegisterType::GPINTEN, AB::A), 0x01);
    let mut expected = [false; 16];
    expected[0] = true;
    assert_eq!(changed, expected);
    // Kinds that do not reach the adapter name no pin
    for kind in [RegisterType::IPOL, RegisterType::DEFVAL, RegisterType::INTCON, RegisterType::IOCON] {
        assert_eq!(device.write_register(register(kind, AB::A), 0xFF), [false; 16]);
    }
}

#[test]
fn a_write_transaction_walks_the_pair() {
    let mut device = Mcp23017::new();
    let changed = device.process_write_transaction(&[0x00, 0xFB, 0xFD]);
    assert_eq!(read(&device, RegisterType::IODIR, AB::A, &LOW), 0xFB);
    assert_eq!(read(&device, RegisterType::IODIR, AB::B, &LOW), 0xFD);
    let mut expected = [false; 16];
    expected[2] = true;
    expected[9] = true;
    assert_eq!(changed, expected);
    // A third data byte lands on bank A again
    device.process_write_transaction(&[0x0C, 0x01, 0x02, 0x04]);
    assert_eq!(read(&device, RegisterType::GPPU, AB::A, &LOW), 0x04);
    assert_eq!(read(&device, RegisterType::GPPU, AB::B, &LOW), 0x02);
}

#[test]
fn a_write_transaction_names_a_pin_changed_and_changed_back() {
    let mut device = Mcp23017::new();
    let changed = device.process_write_transaction(&[0x14, 0x01, 0x00, 0x00]);
    let mut expected = [false; 16];
    expected[0] = true;
    assert_eq!(changed, expected);
    assert_eq!(read(&device, RegisterType::OLAT, AB::A, &LOW), 0x00);
}

#[test]
fn an_empty_or_address_only_transaction_writes_nothing() {
    let mut device = Mcp23017::new();
    assert_eq!(device.process_write_transaction(&[]), [false; 16]);
    assert_eq!(device.process_write_transaction(&[0x14]), [false; 16]);
    for ab in [AB::A, AB::B] {
        assert_eq!(read(&device, RegisterType::OLAT, ab, &LOW), 0x00);
        assert_eq!(read(&device, RegisterType::IODIR, ab, &LOW), 0xFF);
    }
    // The address alone has set the pointer
    let mut buffer = [0u8; 1];
    device.process_write_transaction(&[0x00]);
    device.prepare_read_buffer(&LOW, &mut buffer);
    assert_eq!(buffer, [0xFF]);
}

#[test]
fn a_byte_for_an_invalid_address_is_dropped_and_the_pointer_moves_on() {
    let mut device = Mcp23017::new();
    // Sequential mode, so that the pointer leaves the invalid range by wrapping
    device.process_write_transaction(&[0x0A, 0x20]);
    let changed = device.process_write_transaction(&[0xFF, 0x12, 0x34]);
    // 0xFF holds no register; the pointer wraps to 0, which is IODIR A
    assert_eq!(read(&device, RegisterType::IODIR, AB::A, &LOW), 0x34);
    let mut expected = [false; 16];
    for pin in [0, 1, 3, 6, 7] {
        expected[pin] = true;
    }
    assert_eq!(changed, expected);
    let mut untouched = Mcp23017::new();
    assert_eq!(untouched.process_write_transaction(&[0x16, 0xAA, 0xBB]), [false; 16]);
    for kind in PIN_KINDS {
        for ab in [AB::A, AB::B] {
            let reset = if kind == RegisterType::IODIR { 0xFF } else { 0x00 };
            assert_eq!(read(&untouched, kind, ab, &LOW), reset);
        }
    }
}

#[test]
fn sequential_mode_walks_all_registers() {
    let mut device = Mcp23017::new();
    device.process_write_transaction(&[0x0A, 0x20]);
    device.process_write_transaction(&[0x14, 0x11, 0x22, 0x33]);
    // OLAT A, OLAT B, then around to IODIR A
    assert_eq!(read(&device, RegisterType::OLAT, AB::A, &LOW), 0x11);
    assert_eq!(read(&device, RegisterType::OLAT, AB::B, &LOW), 0x22);
    assert_eq!(read(&device, RegisterType::IODIR, AB::A, &LOW), 0x33);
}

#[test]
fn bank_mode_changes_the_addresses_within_a_transaction() {
    let mut device = Mcp23017::new();
    // IOCON A at 0x0A takes BANK = 1; the pointer then stays (fixed mode) on
    // 0x0A, which is now OLAT A
    device.process_write_transaction(&[0x0A, 0x80, 0x55]);
    assert_eq!(device.advance_address_mode(), AdvanceAddressMode::Fixed);
    assert_eq!(read(&device, RegisterType::OLAT, AB::A, &LOW), 0x55);
    // IOCON B is now at 16: both aliases reach the one configuration
    device.process_write_transaction(&[16, 0x00]);
    assert_eq!(device.advance_address_mode(), AdvanceAddressMode::Toggle);
    assert_eq!(read(&device, RegisterType::IOCON, AB::A, &LOW), 0x00);
}

#[test]
fn a_read_buffer_follows_the_pointer_without_moving_it() {
    let mut device = Mcp23017::new();
    device.process_write_transaction(&[0x0C, 0x81, 0x42]);
    device.process_write_transaction(&[0x0C]);
    let mut buffer = [0u8; 3];
    device.prepare_read_buffer(&LOW, &mut buffer);
    assert_eq!(buffer, [0x81, 0x42, 0x81]);
    let mut again = [0u8; 2];
    device.prepare_read_buffer(&LOW, &mut again);
    assert_eq!(again, [0x81, 0x42]);
    device.confirm_bytes_read(&LOW, 1);
    device.prepare_read_buffer(&LOW, &mut again);
    assert_eq!(again, [0x42, 0x81]);
}

#[test]
fn a_read_of_an_invalid_address_keeps_the_byte() {
    let mut device = Mcp23017::new();
    device.process_write_transaction(&[0x0A, 0x20]);
    device.process_write_transaction(&[0xFE]);
    let mut buffer = [0xAA, 0xBB, 0xCC];
    device.prepare_read_buffer(&LOW, &mut buffer);
    // 0xFE and 0xFF hold nothing; then the pointer wraps to IODIR A
    assert_eq!(buffer, [0xAA, 0xBB, 0xFF]);
}

#[test]
fn gpio_shows_latches_of_outputs_and_lines_of_inputs() {
    let mut device = Mcp23017::new();
    device.process_write_transaction(&[0x00, 0xF0]);
    device.process_write_transaction(&[0x14, 0x05]);
    let mut levels = LOW;
    levels[1] = PinState::High;
    levels[4] = PinState::High;
    levels[7] = PinState::High;
    assert_eq!(read(&device, RegisterType::GPIO, AB::A, &levels), 0b1001_0101);
}

#[test]
fn a_level_raises_an_interrupt_only_where_enabled() {
    let mut device = Mcp23017::new();
    assert!(!device.observe_level(4, PinState::High));
    assert_eq!(read(&device, RegisterType::INTF, AB::A, &LOW), 0x00);
    device.write_register(register(RegisterType::GPINTEN, AB::A), 0x10);
    assert_eq!(device.wait_level(4), Some(PinState::High));
    assert_eq!(device.wait_level(5), None);
    // The known level: nothing to report
    assert!(!device.observe_level(4, PinState::Low));
    assert!(!device.observe_level(5, PinState::High));
    assert!(device.observe_level(4, PinState::High));
    assert_eq!(read(&device, RegisterType::INTF, AB::A, &LOW), 0x10);
    assert_eq!(read(&device, RegisterType::INTCAP, AB::A, &LOW), 0x10);
    // While the flag is set the pin is not watched
    assert_eq!(device.wait_level(4), None);
    assert!(!device.observe_level(4, PinState::Low));
    assert_eq!(read(&device, RegisterType::INTCAP, AB::A, &LOW), 0x10);
}

#[test]
fn a_flag_stays_when_its_enable_is_cleared() {
    let mut device = Mcp23017::new();
    device.write_register(register(RegisterType::GPINTEN, AB::B), 0x01);
    assert!(device.observe_level(8, PinState::High));
    device.write_register(register(RegisterType::GPINTEN, AB::B), 0x00);
    assert_eq!(read(&device, RegisterType::INTF, AB::B, &LOW), 0x01);
    assert!(!device.observe_level(9, PinState::High));
    assert_eq!(read(&device, RegisterType::INTF, AB::B, &LOW), 0x01);
}

#[test]
fn comparing_with_the_configured_value() {
    let mut device = Mcp23017::new();
    device.write_register(register(RegisterType::DEFVAL, AB::A), 0x01);
    device.write_register(register(RegisterType::INTCON, AB::A), 0x01);
    device.write_register(register(RegisterType::GPINTEN, AB::A), 0x01);
    assert_eq!(device.wait_level(0), Some(PinState::Low));
    assert!(!device.observe_level(0, PinState::High));
    assert!(device.observe_level(0, PinState::Low));
    assert_eq!(read(&device, RegisterType::INTF, AB::A, &LOW), 0x01);
    assert_eq!(read(&device, RegisterType::INTCAP, AB::A, &LOW), 0x00);
}

#[test]
fn comparing_with_the_previous_value_means_the_last_gpio_read() {
    let mut device = Mcp23017::new();
    device.write_register(register(RegisterType::GPINTEN, AB::A), 0x04);
    let mut levels = LOW;
    levels[2] = PinState::High;
    // Reading GPIO notes the level as the known one
    device.read_side_effects(register(RegisterType::GPIO, AB::A), &levels);
    assert_eq!(device.wait_level(2), Some(PinState::Low));
    assert!(!device.observe_level(2, PinState::High));
    assert!(device.observe_level(2, PinState::Low));
    // The captured level is the known one from then on
    device.read_side_effects(register(RegisterType::INTCAP, AB::A), &levels);
    assert_eq!(device.wait_level(2), Some(PinState::High));
}

#[test]
fn reading_gpio_or_intcap_clears_the_flags_of_that_bank() {
    for kind in [RegisterType::GPIO, RegisterType::INTCAP] {
        for ab in [AB::A, AB::B] {
            let mut device = Mcp23017::new();
            device.process_write_transaction(&[0x04, 0xFF, 0xFF]);
            assert!(device.observe_level(1, PinState::High));
            assert!(device.observe_level(12, PinState::High));
            assert_eq!(read(&device, RegisterType::INTF, AB::A, &LOW), 0x02);
            assert_eq!(read(&device, RegisterType::INTF, AB::B, &LOW), 0x10);
            device.process_write_transaction(&[register(kind, ab).address(false)]);
            let mut buffer = [0u8; 1];
            device.prepare_read_buffer(&HIGH, &mut buffer);
            // Preparing the answer changes nothing yet
            assert_eq!(read(&device, RegisterType::INTF, ab, &LOW), if ab == AB::A { 0x02 } else { 0x10 });
            device.confirm_bytes_read(&HIGH, 1);
            assert_eq!(read(&device, RegisterType::INTF, ab, &LOW), 0x00);
            let (other, kept) = if ab == AB::A { (AB::B, 0x10) } else { (AB::A, 0x02) };
            assert_eq!(read(&device, RegisterType::INTF, other, &LOW), kept);
        }
    }
}

#[test]
fn an_unconfirmed_read_has_no_side_effects() {
    let mut device = Mcp23017::new();
    device.write_register(register(RegisterType::GPINTEN, AB::A), 0x01);
    assert!(device.observe_level(0, PinState::High));
    device.process_write_transaction(&[0x10]);
    let mut buffer = [0u8; 2];
    device.prepare_read_buffer(&HIGH, &mut buffer);
    assert_eq!(buffer, [0x01, 0x00]);
    device.confirm_bytes_read(&HIGH, 0);
    assert_eq!(read(&device, RegisterType::INTF, AB::A, &LOW), 0x01);
}

#[test]
fn reading_other_kinds_has_no_side_effects() {
    let mut device = Mcp23017::new();
    device.write_register(register(RegisterType::GPINTEN, AB::A), 0x01);
    assert!(device.observe_level(0, PinState::High));
    for kind in [RegisterType::INTF, RegisterType::IODIR, RegisterType::OLAT, RegisterType::IOCON] {
        device.read_side_effects(register(kind, AB::A), &HIGH);
        assert_eq!(read(&device, RegisterType::INTF, AB::A, &LOW), 0x01);
    }
}

#[test]
fn interrupt_outputs_without_mirror_follow_their_bank() {
    let mut device = Mcp23017::new();
    device.process_write_transaction(&[0x04, 0xFF, 0xFF]);
    assert!(device.observe_level(3, PinState::High));
    assert_eq!(
        device.interrupt_lines(),
        InterruptLines { mode: InterruptMode::ActiveDriver, a: PinState::Low, b: PinState::High }
    );
    assert!(device.observe_level(11, PinState::High));
    assert_eq!(
        device.interrupt_lines(),
        InterruptLines { mode: InterruptMode::ActiveDriver, a: PinState::Low, b: PinState::Low }
    );
    device.read_side_effects(register(RegisterType::INTCAP, AB::A), &LOW);
    assert_eq!(
        device.interrupt_lines(),
        InterruptLines { mode: InterruptMode::ActiveDriver, a: PinState::High, b: PinState::Low }
    );
}

#[test]
fn mirrored_interrupt_outputs_are_always_equal() {
    for polarity in [0x00u8, 0x02] {
        let mut device = Mcp23017::new();
        device.process_write_transaction(&[0x0A, 0x44 | polarity]);
        device.process_write_transaction(&[0x04, 0xFF, 0xFF]);
        let (active, idle) = if polarity == 0 {
            (PinState::Low, PinState::High)
        } else {
            (PinState::High, PinState::Low)
        };
        let lines = device.interrupt_lines();
        assert_eq!(lines, InterruptLines { mode: InterruptMode::OpenDrain, a: idle, b: idle });
        assert!(device.observe_level(14, PinState::High));
        let lines = device.interrupt_lines();
        assert_eq!(lines, InterruptLines { mode: InterruptMode::OpenDrain, a: active, b: active });
        assert!(device.observe_level(0, PinState::High));
        let lines = device.interrupt_lines();
        assert_eq!(lines.a, lines.b);
        device.read_side_effects(register(RegisterType::GPIO, AB::B), &HIGH);
        let lines = device.interrupt_lines();
        assert_eq!(lines, InterruptLines { mode: InterruptMode::OpenDrain, a: active, b: active });
        device.read_side_effects(register(RegisterType::GPIO, AB::A), &HIGH);
        let lines = device.interrupt_lines();
        assert_eq!(lines, InterruptLines { mode: InterruptMode::OpenDrain, a: idle, b: idle });
    }
}

#[test]
fn reset_pulse_of_one_microsecond_is_enough() {
    assert_eq!(MINIMUM_RESET_PULSE_US, 1);
    let mut reset = ResetPin::new(7u8);
    assert!(!reset.is_low());
    reset.went_low(100);
    assert!(reset.is_low());
    assert!(reset.went_high(101));
    assert!(!reset.is_low());
    assert_eq!(reset.into_pin(), 7);
}

#[test]
fn reset_pulse_shorter_than_a_microsecond_is_ignored() {
    let mut reset = ResetPin::new(());
    reset.went_low(100);
    assert!(!reset.went_high(100));
    assert!(!reset.is_low());
    // A rise without a fall before it is no pulse
    assert!(!reset.went_high(500));
    // A clock that went back gives no pulse either
    reset.went_low(100);
    assert!(!reset.went_high(50));
}

#[test]
fn a_pulse_lasts_from_its_first_fall() {
    let mut reset = ResetPin::new(());
    reset.went_low(10);
    reset.went_low(20);
    assert!(reset.went_high(11));
    *reset.pin_mut() = ();
}

#[test]
fn reset_emulator() {
    let mut device = Mcp23017::new();
    device.process_write_transaction(&[0x0A, 0x44]);
    device.process_write_transaction(&[0x00, 0x00, 0x0F]);
    device.process_write_transaction(&[0x14, 0xAA, 0x55]);
    device.process_write_transaction(&[0x0C, 0xFF, 0xFF]);
    device.process_write_transaction(&[0x04, 0x00, 0x0F]);
    assert!(device.observe_level(8, PinState::High));
    assert_eq!(device.interrupt_lines().a, PinState::Low);

    // A low pulse of 2 µs on the reset input
    let mut reset = ResetPin::new(());
    reset.went_low(1_000);
    assert!(reset.went_high(1_002));
    device.reset();

    // All registers revert to their defaults
    for ab in [AB::A, AB::B] {
        assert_eq!(read(&device, RegisterType::IODIR, ab, &LOW), 0xFF);
        for kind in [
            RegisterType::IPOL,
            RegisterType::GPINTEN,
            RegisterType::DEFVAL,
            RegisterType::INTCON,
            RegisterType::IOCON,
            RegisterType::GPPU,
            RegisterType::INTF,
            RegisterType::INTCAP,
            RegisterType::OLAT,
        ] {
            assert_eq!(read(&device, kind, ab, &LOW), 0x00);
        }
    }
    // The pointer is back at 0
    let mut buffer = [0u8; 1];
    device.prepare_read_buffer(&LOW, &mut buffer);
    assert_eq!(buffer, [0xFF]);
    // Every adapter is to be configured as an input without pull-up
    for pin in 0..16 {
        assert_eq!(
            device.pin_configuration(pin),
            PinConfiguration {
                io_direction: IoDirection::Input,
                pull_up_enabled: false,
                level: PinState::Low,
            }
        );
    }
    // The interrupt outputs are deasserted: actively driven, active low, idle
    assert_eq!(
        device.interrupt_lines(),
        InterruptLines { mode: InterruptMode::ActiveDriver, a: PinState::High, b: PinState::High }
    );
}
