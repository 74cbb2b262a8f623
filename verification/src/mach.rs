//! The board: its devices, its interrupt lines, and what it has done so far.
//!
//! The device controllers are outside this library. Each is a type parameter
//! behind a small trait, and the library promises nothing of what a device does.
//! What the library does with the devices is written down instead: the machine
//! keeps a record, the trace, of every operation it handed to a device and of
//! every handler it called, in the order in which it did so. The contracts of
//! the machine speak of a model, [`Machine`], which holds the interrupt lines,
//! the timer handlers and that trace.

pub mod io;
pub mod irq;
pub mod pc;
pub mod trace;

use crate::arch::TrapHandler;
use vstd::prelude::*;

verus! {

/// The baud rate the serial port is set to at bring-up.
pub const SERIAL_BAUD: usize = 115200;

/// The number of data bits the serial port is set to at bring-up.
pub const SERIAL_DATA_BITS: usize = 8;

/// The number of stop bits the serial port is set to at bring-up.
pub const SERIAL_STOP_BITS: usize = 1;

/// The frequency, in ticks per second, that the timer is started with.
pub const TIMER_HZ: usize = 100;

/// The time between two ticks of the timer, in milliseconds.
pub const TICK_MS: usize = 1000 / TIMER_HZ;

/// The parity mode of a serial line.
#[derive(Clone, Copy, Debug, PartialEq, Eq, Structural)]
pub enum Parity {
    NoParity,
    EvenParity,
    OddParity,
}

/// The settings of a serial port.
#[derive(Clone, Copy, Debug, PartialEq, Eq, Structural)]
pub struct SerialConfig {
    pub baud_rate: usize,
    pub data_bits: usize,
    pub parity: Parity,
    pub stop_bits: usize,
}

/// The settings that bring-up gives the serial port.
pub open spec fn boot_serial_config() -> SerialConfig {
    SerialConfig {
        baud_rate: SERIAL_BAUD,
        data_bits: SERIAL_DATA_BITS,
        parity: Parity::NoParity,
        stop_bits: SERIAL_STOP_BITS,
    }
}

/// A serial port.
pub trait SerialPort: Sized {
    /// The port before it is configured.
    fn new() -> Self;

    /// Applies the settings and says whether the port took them.
    fn configure(&mut self, config: SerialConfig) -> bool;
}

/// The chip that masks and unmasks interrupt lines.
pub trait InterruptController: Sized {
    /// The chip before bring-up.
    fn new() -> Self;

    /// Brings the chip up with every line masked and says whether it came up.
    fn init(&mut self) -> bool;

    /// Unmasks a line.
    fn enable(&mut self, line: usize);

    /// Masks a line.
    fn disable(&mut self, line: usize);
}

/// The timer chip. Its `trap` serves the timer's own interrupt.
pub trait Timer: TrapHandler + Sized {
    /// The timer before bring-up.
    fn new() -> Self;

    /// Starts the timer at `hz` ticks per second and says whether it started.
    fn init(&mut self, hz: usize) -> bool;

    /// The interrupt line the timer is wired to.
    fn irq_num(&self) -> usize;
}

/// The keyboard controller. Its `trap` serves the keyboard's own interrupt.
pub trait KeyboardController: TrapHandler + Sized {
    /// The controller before bring-up.
    fn new() -> Self;

    /// Brings the controller up and says whether it came up.
    fn init(&mut self) -> bool;

    /// The interrupt line the keyboard is wired to.
    fn irq_num(&self) -> usize;

    /// Sets the keyboard's lights.
    fn leds(&mut self, state: u8);
}

/// The display.
pub trait Screen: Sized {
    /// The display before bring-up.
    fn new() -> Self;

    /// Brings the display up and says whether it came up.
    fn init(&mut self) -> bool;
}

/// The devices of one board.
pub trait Board {
    type Serial: SerialPort;

    type Controller: InterruptController;

    type Timer: Timer;

    type Keyboard: KeyboardController;

    type Screen: Screen;
}

/// What serves an interrupt line.
pub enum Handler<F> {
    /// The board's timer, which then passes the tick on to the timer handlers.
    Timer,
    /// The board's keyboard controller.
    Keyboard,
    /// A handler that the kernel registered.
    Shared(F),
}

/// What is registered for one interrupt line.
pub struct Line<F> {
    pub handler: Handler<F>,
    pub level_triggered: bool,
}

/// One thing done to the outside: an operation on the CPU or on a device, with
/// what it answered, or a call of a handler.
pub enum Event<F> {
    /// The CPU was brought up, and said `ok`.
    CpuStarted { ok: bool },
    /// The CPU's interrupt flag was set to `on`.
    InterruptsSet { on: bool },
    /// The serial port was given `config`, and said `ok`.
    SerialConfigured { config: SerialConfig, ok: bool },
    /// The interrupt controller was brought up, and said `ok`.
    ControllerStarted { ok: bool },
    /// The timer was started at `hz` ticks per second, and said `ok`.
    TimerStarted { hz: usize, ok: bool },
    /// The keyboard controller was brought up, and said `ok`.
    KeyboardStarted { ok: bool },
    /// The display was brought up, and said `ok`.
    ScreenStarted { ok: bool },
    /// The interrupt controller was told to unmask `line`.
    LineEnabled { line: usize },
    /// The interrupt controller was told to mask `line`.
    LineDisabled { line: usize },
    /// The timer was told to serve its interrupt on `line`.
    TimerServiced { line: usize },
    /// The keyboard controller was told to serve its interrupt on `line`.
    KeyboardServiced { line: usize },
    /// The keyboard's lights were set to `state`.
    LedsSet { state: u8 },
    /// `handler` was called with `arg`.
    Called { handler: F, arg: usize },
}

/// What the devices answer during one bring-up: whether each came up, and the
/// lines that the timer and the keyboard name as theirs. A step that bring-up
/// does not reach has no say.
pub struct BringUp {
    pub serial: bool,
    pub controller: bool,
    pub timer: bool,
    pub keyboard: bool,
    pub screen: bool,
    pub timer_irq: usize,
    pub keyboard_irq: usize,
}

impl BringUp {
    /// Every device came up.
    pub open spec fn all_ok(self) -> bool {
        self.serial && self.controller && self.timer && self.keyboard && self.screen
    }

    /// Every device that is started before the interrupt lines are wired came
    /// up.
    pub open spec fn wired(self) -> bool {
        self.serial && self.controller && self.timer && self.keyboard
    }
}

/// The calls that one tick of `ms` milliseconds makes: one to each handler, in
/// the order of the handlers, each with `ms`.
pub open spec fn fan_out<F>(handlers: Seq<F>, ms: usize) -> Seq<Event<F>> {
    Seq::new(handlers.len(), |i: int| Event::Called { handler: handlers[i], arg: ms })
}

/// The model of the machine.
pub struct Machine<F> {
    /// The handler and trigger mode of each line that has one.
    pub lines: Map<usize, Line<F>>,
    /// The lines that are unmasked.
    pub enabled: Set<usize>,
    /// The timer handlers, oldest first.
    pub timers: Seq<F>,
    /// Everything done to the outside so far, oldest first.
    pub trace: Seq<Event<F>>,
}

impl<F> Machine<F> {
    /// A machine that has nothing registered and has done nothing.
    pub open spec fn fresh() -> Self {
        Machine {
            lines: Map::empty(),
            enabled: Set::empty(),
            timers: Seq::empty(),
            trace: Seq::empty(),
        }
    }

    /// The machine after one more event.
    pub open spec fn traced(self, event: Event<F>) -> Self {
        Machine { trace: self.trace.push(event), ..self }
    }

    /// The machine after `handler` is written into the table for `line`.
    pub open spec fn register(
        self,
        line: usize,
        handler: Handler<F>,
        level_triggered: bool,
    ) -> Self {
        Machine { lines: self.lines.insert(line, Line { handler, level_triggered }), ..self }
    }

    /// The machine after `line` is unmasked.
    pub open spec fn enable(self, line: usize) -> Self {
        Machine { enabled: self.enabled.insert(line), ..self }.traced(Event::LineEnabled { line })
    }

    /// The machine after `line` is masked.
    pub open spec fn disable(self, line: usize) -> Self {
        Machine { enabled: self.enabled.remove(line), ..self }.traced(Event::LineDisabled { line })
    }

    /// The machine after `handler` is registered for `line` and the line is
    /// unmasked.
    pub open spec fn register_irq(self, line: usize, handler: F, level_triggered: bool) -> Self {
        self.register(line, Handler::Shared(handler), level_triggered).enable(line)
    }

    /// The machine after one more timer handler is registered.
    pub open spec fn register_timer(self, handler: F) -> Self {
        Machine { timers: self.timers.push(handler), ..self }
    }

    /// The machine after each of `handlers` is registered as a timer handler,
    /// first to last.
    pub open spec fn register_timers(self, handlers: Seq<F>) -> Self
        decreases handlers.len(),
    {
        if handlers.len() == 0 {
            self
        } else {
            self.register_timers(handlers.drop_last()).register_timer(handlers.last())
        }
    }

    /// The machine after a tick of `ms` milliseconds went to the timer
    /// handlers.
    pub open spec fn timer_fired(self, ms: usize) -> Self {
        Machine { trace: self.trace + fan_out(self.timers, ms), ..self }
    }

    /// An interrupt on `line` reaches a handler: the line is unmasked and has
    /// one.
    pub open spec fn delivers(self, line: usize) -> bool {
        self.enabled.contains(line) && self.lines.contains_key(line)
    }

    /// The machine after an interrupt on `line`. A line that is masked or has
    /// no handler leaves the machine as it was.
    pub open spec fn interrupt(self, line: usize) -> Self {
        if !self.delivers(line) {
            self
        } else {
            match self.lines[line].handler {
                Handler::Shared(handler) => self.traced(Event::Called { handler, arg: line }),
                Handler::Timer => self.traced(Event::TimerServiced { line }).timer_fired(TICK_MS),
                Handler::Keyboard => self.traced(Event::KeyboardServiced { line }),
            }
        }
    }

    /// The machine after the keyboard's lights are set.
    pub open spec fn kb_leds(self, state: u8) -> Self {
        self.traced(Event::LedsSet { state })
    }

    /// The machine after the timer and the keyboard are registered for the
    /// lines they name, both level-triggered, and the two lines are unmasked.
    pub open spec fn wire(self, timer_irq: usize, keyboard_irq: usize) -> Self {
        self.register(timer_irq, Handler::Timer, true).register(
            keyboard_irq,
            Handler::Keyboard,
            true,
        ).enable(timer_irq).enable(keyboard_irq)
    }

    /// The machine after a bring-up in which the devices answer `o`. The steps
    /// run in a fixed order, and the first device that fails ends the
    /// bring-up.
    pub open spec fn booted(self, o: BringUp) -> Self {
        let serial = self.traced(
            Event::SerialConfigured { config: boot_serial_config(), ok: o.serial },
        );
        if !o.serial {
            serial
        } else {
            let controller = serial.traced(Event::ControllerStarted { ok: o.controller });
            if !o.controller {
                controller
            } else {
                let masked = Machine { lines: Map::empty(), enabled: Set::empty(), ..controller };
                let timer = masked.traced(Event::TimerStarted { hz: TIMER_HZ, ok: o.timer });
                if !o.timer {
                    timer
                } else {
                    let keyboard = timer.traced(Event::KeyboardStarted { ok: o.keyboard });
                    if !o.keyboard {
                        keyboard
                    } else {
                        keyboard.wire(o.timer_irq, o.keyboard_irq).traced(
                            Event::ScreenStarted { ok: o.screen },
                        )
                    }
                }
            }
        }
    }
}

/// Registering timer handlers one after another appends them, and touches
/// nothing else.
pub proof fn lemma_register_timers<F>(m: Machine<F>, handlers: Seq<F>)
    ensures
        m.register_timers(handlers) == (Machine { timers: m.timers + handlers, ..m }),
    decreases handlers.len(),
{
    if handlers.len() == 0 {
        assert(m.timers + handlers =~= m.timers);
    } else {
        lemma_register_timers(m, handlers.drop_last());
        assert((m.timers + handlers.drop_last()).push(handlers.last()) =~= m.timers + handlers);
    }
}

/// After any handlers are registered one after another, one tick calls every
/// handler of the machine exactly once, those that were there before first and
/// then the new ones in the order in which they were registered, each with the
/// tick's value; and the tick does nothing else.
pub proof fn lemma_tick_calls_each_handler_once_in_order<F>(
    m: Machine<F>,
    handlers: Seq<F>,
    ms: usize,
)
    ensures
        ({
            let all = m.timers + handlers;
            let fired = m.register_timers(handlers).timer_fired(ms);
            &&& fired.timers == all
            &&& fired.lines == m.lines
            &&& fired.enabled == m.enabled
            &&& fired.trace.len() == m.trace.len() + all.len()
            &&& fired.trace.take(m.trace.len() as int) == m.trace
            &&& forall|i: int|
                0 <= i < all.len() ==> #[trigger] fired.trace[m.trace.len() + i] == (Event::Called {
                    handler: all[i],
                    arg: ms,
                })
        }),
{
    lemma_register_timers(m, handlers);
    let fired = m.register_timers(handlers).timer_fired(ms);
    assert(fired.trace.take(m.trace.len() as int) =~= m.trace);
}

/// Of two handlers registered for one line, the second is the line's handler:
/// an interrupt on the line calls the second with the line's number, and that
/// call is all the interrupt does.
pub proof fn lemma_last_registration_wins<F>(
    m: Machine<F>,
    line: usize,
    first: F,
    first_level: bool,
    second: F,
    second_level: bool,
)
    ensures
        ({
            let twice = m.register_irq(line, first, first_level).register_irq(
                line,
                second,
                second_level,
            );
            &&& twice.lines[line] == (Line {
                handler: Handler::Shared(second),
                level_triggered: second_level,
            })
            &&& twice.enabled.contains(line)
            &&& twice.interrupt(line) == twice.traced(Event::Called { handler: second, arg: line })
        }),
{
}

/// An interrupt on a line that is masked, or that has no handler, changes
/// nothing.
pub proof fn lemma_undelivered_interrupt_is_dropped<F>(m: Machine<F>, line: usize)
    requires
        !m.enabled.contains(line) || !m.lines.contains_key(line),
    ensures
        m.interrupt(line) == m,
{
}

/// Bring-up leaves the timer handlers alone, and only adds to the trace.
pub proof fn lemma_bring_up_keeps_history<F>(m: Machine<F>, o: BringUp)
    ensures
        m.booted(o).timers == m.timers,
        m.trace.len() < m.booted(o).trace.len(),
        m.booted(o).trace.take(m.trace.len() as int) == m.trace,
{
    assert(m.booted(o).trace.take(m.trace.len() as int) =~= m.trace);
}

/// A bring-up that gets as far as wiring the device lines leaves the timer's
/// line and the keyboard's line unmasked, level-triggered, and served by the
/// keyboard and, unless both name the same line, by the timer; no other line
/// has a handler or is unmasked.
pub proof fn lemma_bring_up_wires_device_lines<F>(m: Machine<F>, o: BringUp)
    requires
        o.wired(),
    ensures
        ({
            let up = m.booted(o);
            &&& up.enabled == set![o.timer_irq, o.keyboard_irq]
            &&& up.lines.dom() == set![o.timer_irq, o.keyboard_irq]
            &&& up.lines[o.keyboard_irq] == (Line::<F> {
                handler: Handler::Keyboard,
                level_triggered: true,
            })
            &&& o.timer_irq != o.keyboard_irq ==> up.lines[o.timer_irq] == (Line::<F> {
                handler: Handler::Timer,
                level_triggered: true,
            })
        }),
{
    let up = m.booted(o);
    assert(up.enabled =~= set![o.timer_irq, o.keyboard_irq]);
    assert(up.lines.dom() =~= set![o.timer_irq, o.keyboard_irq]);
}

/// A bring-up that fails before the device lines are wired unmasks no line:
/// what is unmasked afterwards was unmasked before, no line is unmasked at the
/// interrupt controller, and no step after the one that failed is taken.
pub proof fn lemma_failed_bring_up_unmasks_nothing<F>(m: Machine<F>, o: BringUp)
    requires
        !o.wired(),
    ensures
        m.booted(o).enabled.subset_of(m.enabled),
        forall|i: int|
            m.trace.len() <= i < m.booted(o).trace.len() ==> !(#[trigger] m.booted(o).trace[i]
                is LineEnabled),
        m.booted(o).trace.last() == (if !o.serial {
            Event::<F>::SerialConfigured { config: boot_serial_config(), ok: false }
        } else if !o.controller {
            Event::<F>::ControllerStarted { ok: false }
        } else if !o.timer {
            Event::<F>::TimerStarted { hz: TIMER_HZ, ok: false }
        } else {
            Event::<F>::KeyboardStarted { ok: false }
        }),
{
}

} // verus!
