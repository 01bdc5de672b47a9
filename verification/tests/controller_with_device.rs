use mcp23017::common::{PinState, Register, RegisterType, AB};
use mcp23017::controller::request::{InputOp, Published, Request, RequestState};
use mcp23017::controller::runner::{Action, Runner};
use mcp23017::controller::transfer::{startup_write, ReadRequest};
use mcp23017::peripheral::mcp23017::Mcp23017;

/// What went over the bus.
#[derive(Debug, Clone, PartialEq, Eq)]
enum Transfer {
    Write(Vec<u8>),
    Read { address: u8, bytes: Vec<u8> },
}

/// A controller and an emulated device on one bus.
struct Bench {
    runner: Runner,
    slots: [Request; 16],
    device: Mcp23017,
    levels: [PinState; 16],
    trace: Vec<Transfer>,
}

fn bench() -> Bench {
    let mut bench = Bench {
        runner: Runner::new(),
        slots: [Request::new(); 16],
        device: Mcp23017::new(),
        levels: [PinState::Low; 16],
        trace: Vec::new(),
    };
    write(&mut bench, startup_write().as_slice());
    bench
}

fn write(bench: &mut Bench, bytes: &[u8]) {
    bench.device.process_write_transaction(bytes);
    bench.trace.push(Transfer::Write(bytes.to_vec()));
}

fn read(bench: &mut Bench, request: ReadRequest) -> Vec<u8> {
    bench.device.process_write_transaction(&[request.address]);
    let mut bytes = vec![0u8; request.count];
    bench.device.prepare_read_buffer(&bench.levels, &mut bytes);
    bench.device.confirm_bytes_read(&bench.levels, request.count);
    bench.trace.push(Transfer::Read { address: request.address, bytes: bytes.clone() });
    bytes
}

/// The shared interrupt line is open-drain and active low.
fn interrupt_line_is_low(bench: &Bench) -> bool {
    let lines = bench.device.interrupt_lines();
    lines.a == PinState::Low || lines.b == PinState::Low
}

/// Sets the level of a line and lets the device look at it.
fn set_level(bench: &mut Bench, pin: usize, level: PinState) {
    bench.levels[pin] = level;
    bench.device.observe_level(pin, level);
}

/// One iteration of the runner. Returns the pins whose slot was settled.
fn iterate(bench: &mut Bench) -> Vec<usize> {
    let pending = interrupt_line_is_low(bench);
    bench.runner.begin(&mut bench.slots, pending);
    let mut actions = 0;
    loop {
        // No iteration has more than ten actions
        assert!(actions <= 10);
        actions += 1;
        match bench.runner.next_action() {
            Action::Write(buffer) => {
                write(bench, buffer.as_slice());
                bench.runner.written();
            }
            Action::ReadInterrupts { flags, captured } => {
                let flags = read(bench, flags);
                let captured = read(bench, captured);
                bench.runner.interrupts_read(&flags, &captured);
            }
            Action::ReadGpio(request) => {
                let bytes = read(bench, request);
                bench.runner.gpio_read(&bytes);
            }
            Action::Complete => break,
        }
    }
    let mut settled = Vec::new();
    for pin in 0..16 {
        if bench.runner.complete(pin, &mut bench.slots[pin]) {
            settled.push(pin);
        }
    }
    settled
}

/// Runs the runner until an iteration does no bus work.
fn settle(bench: &mut Bench) -> Vec<usize> {
    let mut settled = Vec::new();
    loop {
        settled.extend(iterate(bench));
        if !bench.runner.worked() {
            return settled;
        }
    }
}

fn device_register(bench: &Bench, kind: RegisterType, ab: AB) -> u8 {
    bench.device.read_register(Register { _type: kind, ab }, &bench.levels)
}

#[test]
fn output_toggle() {
    let mut bench = bench();
    assert_eq!(bench.slots[3].into_output(PinState::Low), Published::Pending { signal: true });
    assert_eq!(settle(&mut bench), vec![3]);
    assert_eq!(bench.slots[3].set_state(PinState::High), Published::Pending { signal: true });
    assert_eq!(settle(&mut bench), vec![3]);
    assert_eq!(bench.slots[3].is_set_state(PinState::High), Some(true));
    assert_eq!(bench.slots[3].set_state(PinState::Low), Published::Pending { signal: true });
    assert_eq!(settle(&mut bench), vec![3]);
    assert_eq!(bench.slots[3].is_set_state(PinState::Low), Some(true));
    // IODIR holds 1 for an input: pin 3 alone is an output
    assert_eq!(
        bench.trace,
        vec![
            Transfer::Write(vec![0x0A, 0x44]),
            Transfer::Write(vec![0x00, 0b1111_0111]),
            Transfer::Write(vec![0x14, 0b0000_1000]),
            Transfer::Write(vec![0x14, 0b0000_0000]),
        ]
    );
    // Setting the level it already has costs nothing
    assert_eq!(bench.slots[3].set_state(PinState::Low), Published::Settled);
    assert_eq!(settle(&mut bench), Vec::<usize>::new());
    assert_eq!(bench.trace.len(), 4);
}

#[test]
fn read_once_input() {
    for level in [PinState::High, PinState::Low] {
        let mut bench = bench();
        bench.levels[10] = level;
        assert_eq!(bench.slots[10].into_input(true), Published::Pending { signal: true });
        assert_eq!(settle(&mut bench), vec![10]);
        assert!(bench.slots[10].request_input(InputOp::Read { response: None }));
        assert_eq!(settle(&mut bench), vec![10]);
        assert_eq!(bench.slots[10].response(), Some(level));
        let gpio_b = if level == PinState::High { 0x04 } else { 0x00 };
        // Pin 10 is an input from reset on, so IODIR B keeps 0xFF unwritten
        assert_eq!(
            bench.trace,
            vec![
                Transfer::Write(vec![0x0A, 0x44]),
                Transfer::Write(vec![0x0D, 0x04]),
                Transfer::Read { address: 0x13, bytes: vec![gpio_b] },
            ]
        );
        assert_eq!(device_register(&bench, RegisterType::IODIR, AB::B), 0xFF);
        assert_eq!(device_register(&bench, RegisterType::GPPU, AB::B), 0x04);
        // A second read goes over the bus again
        bench.levels[10] = !level;
        assert!(bench.slots[10].request_input(InputOp::Read { response: None }));
        assert_eq!(settle(&mut bench), vec![10]);
        assert_eq!(bench.slots[10].response(), Some(!level));
    }
}

#[test]
fn wait_for_state() {
    let mut bench = bench();
    assert_eq!(bench.slots[0].into_input(false), Published::Settled);
    assert!(bench.slots[0].request_input(InputOp::WaitForState(PinState::High)));
    assert_eq!(settle(&mut bench), Vec::<usize>::new());
    assert_eq!(bench.slots[0].state, RequestState::ProcessingRequest);
    assert_eq!(device_register(&bench, RegisterType::DEFVAL, AB::A) & 0x01, 0x00);
    assert_eq!(device_register(&bench, RegisterType::INTCON, AB::A) & 0x01, 0x01);
    assert_eq!(device_register(&bench, RegisterType::GPINTEN, AB::A) & 0x01, 0x01);
    assert_eq!(
        bench.trace,
        vec![
            Transfer::Write(vec![0x0A, 0x44]),
            Transfer::Write(vec![0x08, 0x01]),
            Transfer::Write(vec![0x04, 0x01]),
        ]
    );
    assert!(!interrupt_line_is_low(&bench));

    set_level(&mut bench, 0, PinState::High);
    assert!(interrupt_line_is_low(&bench));
    assert_eq!(iterate(&mut bench), vec![0]);
    assert!(bench.slots[0].is_done());
    assert_eq!(
        bench.trace[3..],
        [
            Transfer::Read { address: 0x0E, bytes: vec![0x01] },
            Transfer::Read { address: 0x10, bytes: vec![0x01] },
        ]
    );
    // Reading INTCAP has released the line
    assert!(!interrupt_line_is_low(&bench));
}

#[test]
fn any_edge_then_specific_edge() {
    let mut bench = bench();
    assert!(bench.slots[5].request_input(InputOp::WaitForAnyEdge));
    assert_eq!(settle(&mut bench), Vec::<usize>::new());
    // Compare with the previous value, which the read of GPIO has set
    assert_eq!(device_register(&bench, RegisterType::INTCON, AB::A) & 0x20, 0x00);
    assert_eq!(device_register(&bench, RegisterType::GPINTEN, AB::A) & 0x20, 0x20);
    assert_eq!(
        bench.trace[1..],
        [
            Transfer::Write(vec![0x04, 0x20]),
            Transfer::Read { address: 0x12, bytes: vec![0x00] },
        ]
    );

    // The first transition completes the wait for any edge
    set_level(&mut bench, 5, PinState::High);
    assert!(interrupt_line_is_low(&bench));
    assert_eq!(iterate(&mut bench), vec![5]);
    assert!(bench.slots[5].is_done());

    // Back to low, unseen by any wait: the runner clears it
    set_level(&mut bench, 5, PinState::Low);
    settle(&mut bench);
    assert!(!interrupt_line_is_low(&bench));

    assert!(bench.slots[5].request_input(InputOp::WaitForSpecificEdge {
        after_state: PinState::Low
    }));
    assert_eq!(settle(&mut bench), Vec::<usize>::new());
    assert_eq!(bench.slots[5].state, RequestState::ProcessingRequest);

    // An edge to high is not the one waited for
    set_level(&mut bench, 5, PinState::High);
    assert!(interrupt_line_is_low(&bench));
    assert_eq!(settle(&mut bench), Vec::<usize>::new());
    assert_eq!(bench.slots[5].state, RequestState::ProcessingRequest);
    assert!(!interrupt_line_is_low(&bench));

    // The edge to low is
    set_level(&mut bench, 5, PinState::Low);
    assert!(interrupt_line_is_low(&bench));
    assert_eq!(iterate(&mut bench), vec![5]);
    assert!(bench.slots[5].is_done());
    let last = bench.trace.len();
    assert_eq!(
        bench.trace[last - 2..],
        [
            Transfer::Read { address: 0x0E, bytes: vec![0x20] },
            Transfer::Read { address: 0x10, bytes: vec![0x00] },
        ]
    );
}

#[test]
fn multi_pin_batching() {
    let mut bench = bench();
    assert_eq!(bench.slots[2].into_output(PinState::High), Published::Pending { signal: true });
    assert_eq!(bench.slots[9].into_output(PinState::High), Published::Pending { signal: true });
    assert_eq!(settle(&mut bench), vec![2, 9]);
    // One transaction per kind, each with the bytes of both banks
    assert_eq!(
        bench.trace,
        vec![
            Transfer::Write(vec![0x0A, 0x44]),
            Transfer::Write(vec![0x00, 0b1111_1011, 0b1111_1101]),
            Transfer::Write(vec![0x14, 0b0000_0100, 0b0000_0010]),
        ]
    );
    assert_eq!(device_register(&bench, RegisterType::IODIR, AB::A), 0b1111_1011);
    assert_eq!(device_register(&bench, RegisterType::IODIR, AB::B), 0b1111_1101);
    assert_eq!(device_register(&bench, RegisterType::OLAT, AB::A), 0b0000_0100);
    assert_eq!(device_register(&bench, RegisterType::OLAT, AB::B), 0b0000_0010);
    assert_eq!(device_register(&bench, RegisterType::GPIO, AB::A), 0b0000_0100);
}

#[test]
fn the_cache_equals_the_device_after_every_iteration() {
    let mut bench = bench();
    let kinds = [
        RegisterType::IODIR,
        RegisterType::GPPU,
        RegisterType::OLAT,
        RegisterType::DEFVAL,
        RegisterType::INTCON,
        RegisterType::GPINTEN,
    ];
    let steps: [(usize, u8); 8] = [(0, 0), (9, 1), (3, 2), (12, 3), (0, 4), (15, 5), (9, 0), (7, 6)];
    for (pin, what) in steps {
        match what {
            0 => {
                bench.slots[pin].into_output(PinState::High);
            }
            1 => {
                bench.slots[pin].into_input(true);
            }
            2 => {
                bench.slots[pin].into_watch(false);
            }
            3 => {
                bench.slots[pin].request_input(InputOp::WaitForState(PinState::Low));
            }
            4 => {
                bench.slots[pin].into_input(false);
            }
            5 => {
                bench.slots[pin].request_input(InputOp::WaitForAnyEdge);
            }
            _ => {
                set_level(&mut bench, 3, PinState::High);
            }
        }
        settle(&mut bench);
        for kind in kinds {
            let bits = mcp23017::controller::registers::bits_of_kind(bench.runner.registers(), kind);
            for ab in [AB::A, AB::B] {
                assert_eq!(
                    mcp23017::util::pack_bank(&bits, ab),
                    device_register(&bench, kind, ab)
                );
            }
        }
    }
    assert_eq!(bench.slots[3].watched_value(), Some(PinState::High));
}
