//! The PC-class board: its bring-up, its interrupt lines and its timer
//! handlers.

use crate::mach::irq::{InterruptTable, IrqHandler};
use crate::mach::trace::{Callback, Trace};
use crate::mach::{
    fan_out, Board, BringUp, Handler, InterruptController, KeyboardController, Machine, Parity,
    Screen, SerialConfig, SerialPort, Timer, SERIAL_BAUD, SERIAL_DATA_BITS, SERIAL_STOP_BITS,
    TICK_MS, TIMER_HZ,
};
use vstd::prelude::*;

verus! {

/// The number of timer handlers that a new machine has room for before its
/// list grows.
pub const TIMER_HANDLERS_RESERVED: usize = 16;

/// The state of the machine: the four device controllers and the serial port,
/// the interrupt dispatch table, and the timer handlers.
pub struct State<B: Board, F: Fn(usize)> {
    pub serial: B::Serial,
    pub irq_ctlr: B::Controller,
    pub timer: B::Timer,
    pub keyboard: B::Keyboard,
    pub screen: B::Screen,
    irqs: InterruptTable<F>,
    timer_handlers: Vec<Callback<F>>,
    trace: Trace<F>,
}

impl<B: Board, F: Fn(usize)> State<B, F> {
    /// The machine's model: its interrupt lines, its timer handlers, and what
    /// it has done so far.
    pub closed spec fn view(&self) -> Machine<F> {
        Machine {
            lines: self.irqs.lines(),
            enabled: self.irqs.enabled(),
            timers: Seq::new(self.timer_handlers@.len(), |i: int| self.timer_handlers@[i]@),
            trace: self.trace@,
        }
    }

    /// A machine whose devices are not brought up yet, with no handler
    /// registered and every line masked.
    pub fn new() -> (state: Self)
        ensures
            state@ == Machine::<F>::fresh(),
    {
        let state = State {
            serial: B::Serial::new(),
            irq_ctlr: B::Controller::new(),
            timer: B::Timer::new(),
            keyboard: B::Keyboard::new(),
            screen: B::Screen::new(),
            irqs: InterruptTable::new(),
            timer_handlers: Vec::with_capacity(TIMER_HANDLERS_RESERVED),
            trace: Trace::new(),
        };
        assert(state@.timers =~= Seq::<F>::empty());
        state
    }

    /// Brings the board up: the serial port, the interrupt controller, the
    /// timer, the keyboard controller, then the two device lines, then the
    /// display, in this order. The first device that does not come up ends the
    /// bring-up, and nothing after it is touched. Returns whether every device
    /// came up.
    ///
    /// The machine that results is the model's `booted` for what the devices
    /// answered.
    pub fn initialise(&mut self) -> (ok: bool)
        ensures
            exists|o: BringUp| final(self)@ == #[trigger] old(self)@.booted(o) && ok == o.all_ok(),
    {
        let ghost before = self@;
        let ghost mut o = BringUp {
            serial: false,
            controller: false,
            timer: false,
            keyboard: false,
            screen: false,
            timer_irq: 0,
            keyboard_irq: 0,
        };
        let config = SerialConfig {
            baud_rate: SERIAL_BAUD,
            data_bits: SERIAL_DATA_BITS,
            parity: Parity::NoParity,
            stop_bits: SERIAL_STOP_BITS,
        };
        let serial = self.trace.configure_serial(&mut self.serial, config);
        proof {
            o.serial = serial;
        }
        if !serial {
            assert(self@ == before.booted(o));
            return false;
        }
        let controller = self.trace.start_controller(&mut self.irq_ctlr);
        proof {
            o.controller = controller;
        }
        if !controller {
            assert(self@ == before.booted(o));
            return false;
        }
        self.irqs = InterruptTable::new();
        let timer = self.trace.start_timer(&mut self.timer, TIMER_HZ);
        proof {
            o.timer = timer;
        }
        if !timer {
            assert(self@ == before.booted(o));
            return false;
        }
        let keyboard = self.trace.start_keyboard(&mut self.keyboard);
        proof {
            o.keyboard = keyboard;
        }
        if !keyboard {
            assert(self@ == before.booted(o));
            return false;
        }
        let timer_irq: usize = self.timer.irq_num();
        let keyboard_irq: usize = self.keyboard.irq_num();
        proof {
            o.timer_irq = timer_irq;
            o.keyboard_irq = keyboard_irq;
        }
        self.irqs.register(timer_irq, IrqHandler::Timer, true);
        self.irqs.register(keyboard_irq, IrqHandler::Keyboard, true);
        self.enable_irq(timer_irq);
        self.enable_irq(keyboard_irq);
        let screen = self.trace.start_screen(&mut self.screen);
        proof {
            o.screen = screen;
            assert(self@ == before.booted(o));
        }
        screen
    }

    /// Unmasks `line`, in the table and at the interrupt controller.
    pub fn enable_irq(&mut self, line: usize)
        ensures
            final(self)@ == old(self)@.enable(line),
    {
        self.irqs.enable(line);
        self.trace.enable_line(&mut self.irq_ctlr, line);
    }

    /// Masks `line`, in the table and at the interrupt controller.
    pub fn disable_irq(&mut self, line: usize)
        ensures
            final(self)@ == old(self)@.disable(line),
    {
        self.irqs.disable(line);
        self.trace.disable_line(&mut self.irq_ctlr, line);
    }

    /// Makes `handler` the handler of `line` and unmasks the line. A handler
    /// registered for the line before is replaced.
    pub fn register_irq(&mut self, line: usize, handler: F, level_trigger: bool)
        requires
            forall|n: usize| call_requires(handler, (n,)),
        ensures
            final(self)@ == old(self)@.register_irq(line, handler, level_trigger),
    {
        self.irqs.register(line, IrqHandler::Shared(Callback::new(handler)), level_trigger);
        self.enable_irq(line);
    }

    /// Adds `handler` to the end of the timer handlers.
    pub fn register_timer(&mut self, handler: F)
        requires
            forall|n: usize| call_requires(handler, (n,)),
        ensures
            final(self)@ == old(self)@.register_timer(handler),
    {
        self.timer_handlers.push(Callback::new(handler));
        assert(self@.timers =~= old(self)@.timers.push(handler));
    }

    /// Calls every timer handler once with `ms`, in the order in which they
    /// were registered.
    pub fn timer_fired(&mut self, ms: usize)
        ensures
            final(self)@ == old(self)@.timer_fired(ms),
            forall|i: int|
                0 <= i < old(self)@.timers.len() ==> call_ensures(
                    #[trigger] old(self)@.timers[i],
                    (ms,),
                    (),
                ),
    {
        let ghost before = self@;
        let mut i: usize = 0;
        while i < self.timer_handlers.len()
            invariant
                i <= self.timer_handlers@.len(),
                self@.timers == before.timers,
                self@.lines == before.lines,
                self@.enabled == before.enabled,
                self@.trace == before.trace + fan_out(before.timers, ms).take(i as int),
                forall|j: int| 0 <= j < i ==> call_ensures(#[trigger] before.timers[j], (ms,), ()),
            decreases self.timer_handlers@.len() - i,
        {
            self.trace.invoke(&self.timer_handlers[i], ms);
            proof {
                let calls = fan_out(before.timers, ms);
                assert(self@.trace =~= before.trace + calls.take(i + 1));
            }
            i += 1;
        }
        proof {
            let calls = fan_out(before.timers, ms);
            assert(calls.take(i as int) =~= calls);
        }
    }

    /// Serves an interrupt on `line`. An unmasked line with a handler has its
    /// handler called with the line's number; the timer's line lets the timer
    /// serve the interrupt and then passes one tick on to the timer handlers. A
    /// line that is masked or has no handler is dropped.
    pub fn irq(&mut self, line: usize)
        ensures
            final(self)@ == old(self)@.interrupt(line),
            old(self)@.delivers(line) ==> match old(self)@.lines[line].handler {
                Handler::Shared(handler) => call_ensures(handler, (line,), ()),
                Handler::Timer => forall|i: int|
                    0 <= i < old(self)@.timers.len() ==> call_ensures(
                        #[trigger] old(self)@.timers[i],
                        (TICK_MS,),
                        (),
                    ),
                Handler::Keyboard => true,
            },
    {
        match self.irqs.deliver(line) {
            None => {},
            Some(IrqHandler::Shared(callback)) => {
                self.trace.invoke(callback, line);
            },
            Some(IrqHandler::Timer) => {
                self.trace.service_timer(&mut self.timer, line);
                self.timer_fired(TICK_MS);
            },
            Some(IrqHandler::Keyboard) => {
                self.trace.service_keyboard(&mut self.keyboard, line);
            },
        }
    }

    /// Sets the keyboard's lights.
    pub fn kb_leds(&mut self, state: u8)
        ensures
            final(self)@ == old(self)@.kb_leds(state),
    {
        self.trace.set_leds(&mut self.keyboard, state);
    }
}

} // verus!
