use std::cell::{Cell, RefCell};
use std::rc::Rc;

use rustic::arch::{create, Architecture, ArchitectureState, Cpu, TrapHandler};
use rustic::mach::{
    Board, InterruptController, KeyboardController, Screen, SerialConfig, SerialPort, Timer,
};

/// A CPU that comes up or not as `WORKS` says, and counts what it is told.
struct StubCpu<const WORKS: bool> {
    inits: usize,
    flags: Vec<bool>,
    waits: Cell<usize>,
}

impl<const WORKS: bool> Cpu for StubCpu<WORKS> {
    fn new() -> Self {
        StubCpu { inits: 0, flags: Vec::new(), waits: Cell::new(0) }
    }

    fn init(&mut self) -> bool {
        self.inits += 1;
        WORKS
    }

    fn set_interrupts(&mut self, on: bool) {
        self.flags.push(on);
    }

    fn wait_for_event(&self) {
        self.waits.set(self.waits.get() + 1);
    }
}

/// A device of any kind that comes up or not as `WORKS` says, on line `IRQ`.
struct Device<const WORKS: bool, const IRQ: usize> {
    inits: usize,
    enabled: Vec<usize>,
    served: Vec<usize>,
}

impl<const WORKS: bool, const IRQ: usize> Device<WORKS, IRQ> {
    fn fresh() -> Self {
        Device { inits: 0, enabled: Vec::new(), served: Vec::new() }
    }

    fn start(&mut self) -> bool {
        self.inits += 1;
        WORKS
    }
}

impl<const WORKS: bool, const IRQ: usize> TrapHandler for Device<WORKS, IRQ> {
    fn trap(&mut self, num: usize) {
        self.served.push(num);
    }
}

impl<const WORKS: bool, const IRQ: usize> SerialPort for Device<WORKS, IRQ> {
    fn new() -> Self {
        Self::fresh()
    }

    fn configure(&mut self, _config: SerialConfig) -> bool {
        self.start()
    }
}

impl<const WORKS: bool, const IRQ: usize> InterruptController for Device<WORKS, IRQ> {
    fn new() -> Self {
        Self::fresh()
    }

    fn init(&mut self) -> bool {
        self.start()
    }

    fn enable(&mut self, line: usize) {
        self.enabled.push(line);
    }

    fn disable(&mut self, _line: usize) {}
}

impl<const WORKS: bool, const IRQ: usize> Timer for Device<WORKS, IRQ> {
    fn new() -> Self {
        Self::fresh()
    }

    fn init(&mut self, _hz: usize) -> bool {
        self.start()
    }

    fn irq_num(&self) -> usize {
        IRQ
    }
}

impl<const WORKS: bool, const IRQ: usize> KeyboardController for Device<WORKS, IRQ> {
    fn new() -> Self {
        Self::fresh()
    }

    fn init(&mut self) -> bool {
        self.start()
    }

    fn irq_num(&self) -> usize {
        IRQ
    }

    fn leds(&mut self, _state: u8) {}
}

impl<const WORKS: bool, const IRQ: usize> Screen for Device<WORKS, IRQ> {
    fn new() -> Self {
        Self::fresh()
    }

    fn init(&mut self) -> bool {
        self.start()
    }
}

/// A board with the timer on line 0 and the keyboard on line 1, whose display
/// comes up or not as `SCREEN` says.
struct Pc<const SCREEN: bool>;

impl<const SCREEN: bool> Board for Pc<SCREEN> {
    type Serial = Device<true, 0>;
    type Controller = Device<true, 0>;
    type Timer = Device<true, 0>;
    type Keyboard = Device<true, 1>;
    type Screen = Device<SCREEN, 0>;
}

type Callback = Box<dyn Fn(usize)>;

type Calls = Rc<RefCell<Vec<(&'static str, usize)>>>;

type Good = ArchitectureState<StubCpu<true>, Pc<true>, Callback>;

fn calls() -> Calls {
    Rc::new(RefCell::new(Vec::new()))
}

fn handler(name: &'static str, calls: &Calls) -> Callback {
    let calls = calls.clone();
    Box::new(move |arg| calls.borrow_mut().push((name, arg)))
}

#[test]
fn created_state_is_not_initialised() {
    let arch: Box<Good> = create();
    assert!(!arch.is_initialised());
    assert!(!arch.get_interrupts());
    assert_eq!(arch.cpu.inits, 0);
    assert_eq!(arch.machine().irq_ctlr.inits, 0);
}

#[test]
fn boot_on_a_fresh_machine_with_working_devices() {
    let log = calls();
    let mut arch: Box<Good> = create();
    arch.machine_mut().register_timer(handler("A", &log));
    arch.machine_mut().register_timer(handler("B", &log));
    assert!(arch.initialise());
    assert!(arch.is_initialised());
    assert_eq!(arch.cpu.inits, 1);
    assert_eq!(arch.machine().irq_ctlr.enabled, vec![0, 1]);
    arch.machine_mut().timer_fired(16);
    assert_eq!(*log.borrow(), vec![("A", 16), ("B", 16)]);
}

#[test]
fn boot_with_a_failing_cpu_touches_no_device() {
    let mut arch: ArchitectureState<StubCpu<false>, Pc<true>, Callback> = ArchitectureState::new();
    assert!(!arch.initialise());
    assert!(!arch.is_initialised());
    assert_eq!(arch.cpu.inits, 1);
    assert_eq!(arch.machine().serial.inits, 0);
    assert_eq!(arch.machine().irq_ctlr.inits, 0);
    assert!(arch.machine().irq_ctlr.enabled.is_empty());
}

#[test]
fn boot_with_a_failing_device_is_not_initialised() {
    let mut arch: ArchitectureState<StubCpu<true>, Pc<false>, Callback> = ArchitectureState::new();
    assert!(!arch.initialise());
    assert!(!arch.is_initialised());
    assert_eq!(arch.machine().screen.inits, 1);
}

#[test]
fn interrupt_flag_reads_as_it_was_set() {
    let mut arch: Box<Good> = create();
    arch.set_interrupts(true);
    assert!(arch.get_interrupts());
    arch.set_interrupts(false);
    assert!(!arch.get_interrupts());
}

#[test]
fn interrupt_flag_set_twice_reads_the_same() {
    let mut arch: Box<Good> = create();
    arch.set_interrupts(true);
    arch.set_interrupts(true);
    assert!(arch.get_interrupts());
    assert!(arch.get_interrupts());
    arch.set_interrupts(false);
    arch.set_interrupts(false);
    assert!(!arch.get_interrupts());
    assert_eq!(arch.cpu.flags, vec![true, true, false, false]);
}

#[test]
fn interrupt_flag_outlives_other_operations() {
    let log = calls();
    let mut arch: Box<Good> = create();
    arch.set_interrupts(true);
    arch.register_trap(3, handler("three", &log));
    arch.trap(3);
    assert!(arch.initialise());
    arch.wait_for_event();
    assert!(arch.get_interrupts());
}

#[test]
fn registered_trap_calls_its_handler_with_its_number() {
    let log = calls();
    let mut arch: Box<Good> = create();
    arch.register_trap(14, handler("page fault", &log));
    arch.trap(14);
    assert_eq!(*log.borrow(), vec![("page fault", 14)]);
}

#[test]
fn unregistered_trap_is_dropped() {
    let log = calls();
    let mut arch: Box<Good> = create();
    arch.register_trap(14, handler("page fault", &log));
    arch.trap(15);
    assert!(log.borrow().is_empty());
    assert!(!arch.is_initialised());
    assert!(!arch.get_interrupts());
}

#[test]
fn last_registration_for_a_trap_wins() {
    let log = calls();
    let mut arch: Box<Good> = create();
    arch.register_trap(6, handler("first", &log));
    arch.register_trap(6, handler("second", &log));
    arch.trap(6);
    assert_eq!(*log.borrow(), vec![("second", 6)]);
}

#[test]
fn traps_and_interrupt_lines_are_kept_apart() {
    let log = calls();
    let mut arch: Box<Good> = create();
    arch.register_trap(2, handler("trap", &log));
    arch.machine_mut().register_irq(2, handler("irq", &log), true);
    arch.trap(2);
    arch.machine_mut().irq(2);
    assert_eq!(*log.borrow(), vec![("trap", 2), ("irq", 2)]);
}

#[test]
fn wait_for_event_halts_the_cpu_once() {
    let arch: Box<Good> = create();
    arch.wait_for_event();
    arch.wait_for_event();
    assert_eq!(arch.cpu.waits.get(), 2);
}
