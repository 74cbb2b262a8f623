//! The one place where the library reaches outside.
//!
//! Every operation that changes the CPU or a device, and every call of a
//! handler, goes through a method of [`Trace`], which performs it and then
//! writes it down. Nothing else in the library does such a thing, and nothing
//! else can write to a trace, so a trace holds what was done, in the order in
//! which it was done. Asking a device for its line number, and halting the CPU,
//! change nothing and are not written down.

use crate::arch::{Cpu, TrapHandler};
use crate::mach::{
    Event, InterruptController, KeyboardController, Screen, SerialConfig, SerialPort, Timer,
};
use vstd::prelude::*;

verus! {

/// A handler that can be called with every number.
pub struct Callback<F: Fn(usize)> {
    f: F,
}

impl<F: Fn(usize)> Callback<F> {
    #[verifier::type_invariant]
    spec fn total(self) -> bool {
        forall|n: usize| call_requires(self.f, (n,))
    }

    /// The function that is called.
    pub closed spec fn view(&self) -> F {
        self.f
    }

    /// Wraps a function that accepts every number.
    pub fn new(f: F) -> (callback: Self)
        requires
            forall|n: usize| call_requires(f, (n,)),
        ensures
            callback@ == f,
    {
        Callback { f }
    }
}

/// The record of what was done to the outside. It exists in proofs only.
pub(crate) struct Trace<F> {
    events: Ghost<Seq<Event<F>>>,
}

impl<F> Trace<F> {
    /// The events so far, oldest first.
    pub(crate) closed spec fn view(&self) -> Seq<Event<F>> {
        self.events@
    }

    /// The trace of a machine that has done nothing yet.
    pub(crate) fn new() -> (trace: Self)
        ensures
            trace@ == Seq::<Event<F>>::empty(),
    {
        Trace { events: Ghost(Seq::empty()) }
    }

    /// Brings the CPU up.
    pub(crate) fn start_cpu<C: Cpu>(&mut self, cpu: &mut C) -> (ok: bool)
        ensures
            final(self)@ == old(self)@.push(Event::CpuStarted { ok }),
    {
        let ok = cpu.init();
        proof {
            self.events@ = self.events@.push(Event::CpuStarted { ok });
        }
        ok
    }

    /// Sets or clears the CPU's interrupt flag.
    pub(crate) fn set_interrupts<C: Cpu>(&mut self, cpu: &mut C, on: bool)
        ensures
            final(self)@ == old(self)@.push(Event::InterruptsSet { on }),
    {
        cpu.set_interrupts(on);
        proof {
            self.events@ = self.events@.push(Event::InterruptsSet { on });
        }
    }

    /// Configures the serial port.
    pub(crate) fn configure_serial<S: SerialPort>(
        &mut self,
        port: &mut S,
        config: SerialConfig,
    ) -> (ok: bool)
        ensures
            final(self)@ == old(self)@.push(Event::SerialConfigured { config, ok }),
    {
        let ok = port.configure(config);
        proof {
            self.events@ = self.events@.push(Event::SerialConfigured { config, ok });
        }
        ok
    }

    /// Brings the interrupt controller up.
    pub(crate) fn start_controller<P: InterruptController>(&mut self, chip: &mut P) -> (ok: bool)
        ensures
            final(self)@ == old(self)@.push(Event::ControllerStarted { ok }),
    {
        let ok = chip.init();
        proof {
            self.events@ = self.events@.push(Event::ControllerStarted { ok });
        }
        ok
    }

    /// Starts the timer.
    pub(crate) fn start_timer<T: Timer>(&mut self, timer: &mut T, hz: usize) -> (ok: bool)
        ensures
            final(self)@ == old(self)@.push(Event::TimerStarted { hz, ok }),
    {
        let ok = timer.init(hz);
        proof {
            self.events@ = self.events@.push(Event::TimerStarted { hz, ok });
        }
        ok
    }

    /// Brings the keyboard controller up.
    pub(crate) fn start_keyboard<K: KeyboardController>(&mut self, keyboard: &mut K) -> (ok: bool)
        ensures
            final(self)@ == old(self)@.push(Event::KeyboardStarted { ok }),
    {
        let ok = keyboard.init();
        proof {
            self.events@ = self.events@.push(Event::KeyboardStarted { ok });
        }
        ok
    }

    /// Brings the display up.
    pub(crate) fn start_screen<D: Screen>(&mut self, screen: &mut D) -> (ok: bool)
        ensures
            final(self)@ == old(self)@.push(Event::ScreenStarted { ok }),
    {
        let ok = screen.init();
        proof {
            self.events@ = self.events@.push(Event::ScreenStarted { ok });
        }
        ok
    }

    /// Unmasks a line at the interrupt controller.
    pub(crate) fn enable_line<P: InterruptController>(&mut self, chip: &mut P, line: usize)
        ensures
            final(self)@ == old(self)@.push(Event::LineEnabled { line }),
    {
        chip.enable(line);
        proof {
            self.events@ = self.events@.push(Event::LineEnabled { line });
        }
    }

    /// Masks a line at the interrupt controller.
    pub(crate) fn disable_line<P: InterruptController>(&mut self, chip: &mut P, line: usize)
        ensures
            final(self)@ == old(self)@.push(Event::LineDisabled { line }),
    {
        chip.disable(line);
        proof {
            self.events@ = self.events@.push(Event::LineDisabled { line });
        }
    }

    /// Lets the timer serve its interrupt.
    pub(crate) fn service_timer<T: Timer>(&mut self, timer: &mut T, line: usize)
        ensures
            final(self)@ == old(self)@.push(Event::TimerServiced { line }),
    {
        timer.trap(line);
        proof {
            self.events@ = self.events@.push(Event::TimerServiced { line });
        }
    }

    /// Lets the keyboard controller serve its interrupt.
    pub(crate) fn service_keyboard<K: KeyboardController>(&mut self, keyboard: &mut K, line: usize)
        ensures
            final(self)@ == old(self)@.push(Event::KeyboardServiced { line }),
    {
        keyboard.trap(line);
        proof {
            self.events@ = self.events@.push(Event::KeyboardServiced { line });
        }
    }

    /// Sets the keyboard's lights.
    pub(crate) fn set_leds<K: KeyboardController>(&mut self, keyboard: &mut K, state: u8)
        ensures
            final(self)@ == old(self)@.push(Event::LedsSet { state }),
    {
        keyboard.leds(state);
        proof {
            self.events@ = self.events@.push(Event::LedsSet { state });
        }
    }
}

impl<F: Fn(usize)> Trace<F> {
    /// Calls a handler with `arg`.
    pub(crate) fn invoke(&mut self, callback: &Callback<F>, arg: usize)
        ensures
            final(self)@ == old(self)@.push(Event::Called { handler: callback@, arg }),
            call_ensures(callback@, (arg,), ()),
    {
        proof {
            use_type_invariant(callback);
        }
        (callback.f)(arg);
        proof {
            self.events@ = self.events@.push(Event::Called { handler: callback@, arg });
        }
    }
}

} // verus!
