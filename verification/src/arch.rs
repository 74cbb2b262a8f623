//! The architecture: the CPU's state, its traps and its interrupt flag, and the
//! machine it runs on.
//!
//! What is specific to a CPU family stands behind the trait [`Cpu`]. The rest
//! is the same for every family and is verified once: the table of trap
//! handlers, the interrupt flag as the kernel set it, and the order of
//! bring-up.

use crate::mach::pc::State;
use crate::mach::trace::{Callback, Trace};
use crate::mach::{Board, BringUp, Event, Machine};
use crate::table::Table;
use vstd::prelude::*;

verus! {

/// What a CPU family offers the kernel.
pub trait Architecture<F: Fn(usize)> {
    /// Whether the CPU takes interrupts.
    spec fn interrupts(&self) -> bool;

    /// Brings up the CPU and then the machine, and says whether both came up.
    /// It is meant to be called once.
    fn initialise(&mut self) -> bool;

    /// Makes `handler` the handler of trap `num`. A handler registered for the
    /// trap before is replaced.
    fn register_trap(&mut self, num: usize, handler: F)
        requires
            forall|n: usize| call_requires(handler, (n,)),
        ensures
            final(self).interrupts() == old(self).interrupts(),
    ;

    /// Whether the CPU takes interrupts.
    fn get_interrupts(&self) -> (on: bool)
        ensures
            on == self.interrupts(),
    ;

    /// Lets the CPU take interrupts, or stops it from taking them.
    fn set_interrupts(&mut self, on: bool)
        ensures
            final(self).interrupts() == on,
    ;

    /// Halts the CPU until the next interrupt, whichever it is.
    fn wait_for_event(&self);
}

/// The type of a result that never comes. No value of it is ever made, so a
/// function that returns it does not return.
pub struct Never {
    nothing: (),
}

/// The three ways in which the kernel asks for scheduling. The scheduler that
/// answers is not part of this library.
pub trait Threads {
    /// Makes a new thread that starts at `entry`.
    fn spawn_thread<E: FnOnce() + Send + 'static>(&mut self, entry: E)
        requires
            call_requires(entry, ()),
    ;

    /// Ends the calling thread. Control never comes back to the caller.
    fn thread_terminate(&mut self) -> Never;

    /// Asks the scheduler to choose again which thread runs.
    fn reschedule(&mut self);
}

/// Something that serves traps and interrupts.
pub trait TrapHandler {
    /// Serves trap number `num`.
    fn trap(&mut self, num: usize);
}

/// What is specific to one CPU family.
pub trait Cpu: Sized {
    /// The CPU before bring-up.
    fn new() -> Self;

    /// Brings the CPU up, its trap table included, and says whether that
    /// worked.
    fn init(&mut self) -> bool;

    /// Sets or clears the CPU's interrupt flag.
    fn set_interrupts(&mut self, on: bool);

    /// Halts until the next interrupt.
    fn wait_for_event(&self);
}

/// The model of the architecture's state.
pub struct Arch<F> {
    /// Bring-up has run and everything came up.
    pub initialised: bool,
    /// The interrupt flag as it was last set.
    pub interrupts: bool,
    /// The handler of each trap that has one.
    pub traps: Map<usize, F>,
    /// What was done to the CPU and which trap handlers were called so far,
    /// oldest first.
    pub trace: Seq<Event<F>>,
    /// The machine.
    pub machine: Machine<F>,
}

impl<F> Arch<F> {
    /// The state before bring-up: interrupts off, no trap handler, and a fresh
    /// machine.
    pub open spec fn fresh() -> Self {
        Arch {
            initialised: false,
            interrupts: false,
            traps: Map::empty(),
            trace: Seq::empty(),
            machine: Machine::fresh(),
        }
    }

    /// The state after one more event.
    pub open spec fn traced(self, event: Event<F>) -> Self {
        Arch { trace: self.trace.push(event), ..self }
    }

    /// The state after a bring-up in which the CPU answers `cpu` and the
    /// devices answer `o`. A CPU that does not come up leaves the machine
    /// untouched.
    pub open spec fn booted(self, cpu: bool, o: BringUp) -> Self {
        let started = self.traced(Event::CpuStarted { ok: cpu });
        if cpu {
            Arch { initialised: o.all_ok(), machine: self.machine.booted(o), ..started }
        } else {
            Arch { initialised: false, ..started }
        }
    }

    /// The state after `handler` is registered for trap `num`.
    pub open spec fn register_trap(self, num: usize, handler: F) -> Self {
        Arch { traps: self.traps.insert(num, handler), ..self }
    }

    /// The state after the interrupt flag is set to `on`.
    pub open spec fn set_interrupts(self, on: bool) -> Self {
        Arch { interrupts: on, ..self }.traced(Event::InterruptsSet { on })
    }

    /// The state after trap `num`. A trap without a handler leaves the state
    /// as it was.
    pub open spec fn trap(self, num: usize) -> Self {
        if self.traps.contains_key(num) {
            self.traced(Event::Called { handler: self.traps[num], arg: num })
        } else {
            self
        }
    }
}

/// The state of the architecture: the CPU, the trap handlers, and the machine.
pub struct ArchitectureState<C: Cpu, B: Board, F: Fn(usize)> {
    pub cpu: C,
    initialised: bool,
    interrupts: bool,
    traps: Table<Callback<F>>,
    trace: Trace<F>,
    state: State<B, F>,
}

impl<C: Cpu, B: Board, F: Fn(usize)> ArchitectureState<C, B, F> {
    /// The model of this state.
    pub closed spec fn view(&self) -> Arch<F> {
        Arch {
            initialised: self.initialised,
            interrupts: self.interrupts,
            traps: Map::new(
                |num: usize| self.traps@.contains_key(num),
                |num: usize| self.traps@[num]@,
            ),
            trace: self.trace@,
            machine: self.state@,
        }
    }

    /// The state before bring-up.
    pub fn new() -> (arch: Self)
        ensures
            arch@ == Arch::<F>::fresh(),
    {
        let arch = ArchitectureState {
            cpu: C::new(),
            initialised: false,
            interrupts: false,
            traps: Table::new(),
            trace: Trace::new(),
            state: State::new(),
        };
        assert(arch@.traps =~= Map::<usize, F>::empty());
        arch
    }

    /// Whether bring-up has run and everything came up.
    pub fn is_initialised(&self) -> (initialised: bool)
        ensures
            initialised == self@.initialised,
    {
        self.initialised
    }

    /// The machine.
    pub fn machine(&self) -> (machine: &State<B, F>)
        ensures
            machine@ == self@.machine,
    {
        &self.state
    }

    /// The machine, to work on. Whatever is done to it is done to this state's
    /// machine, and to nothing else of this state.
    pub fn machine_mut(&mut self) -> (machine: &mut State<B, F>)
        ensures
            machine@ == old(self)@.machine,
            final(self)@ == (Arch { machine: final(machine)@, ..old(self)@ }),
    {
        &mut self.state
    }
}

impl<C: Cpu, B: Board, F: Fn(usize)> Architecture<F> for ArchitectureState<C, B, F> {
    open spec fn interrupts(&self) -> bool {
        self@.interrupts
    }

    /// The state that results is the model's `booted` for what the CPU and the
    /// devices answered.
    fn initialise(&mut self) -> (ok: bool)
        ensures
            exists|cpu: bool, o: BringUp|
                final(self)@ == #[trigger] old(self)@.booted(cpu, o) && ok == (cpu && o.all_ok()),
            ok == final(self)@.initialised,
    {
        let ghost before = self@;
        let cpu = self.trace.start_cpu(&mut self.cpu);
        if !cpu {
            self.initialised = false;
            proof {
                let o = BringUp {
                    serial: false,
                    controller: false,
                    timer: false,
                    keyboard: false,
                    screen: false,
                    timer_irq: 0,
                    keyboard_irq: 0,
                };
                assert(self@ == before.booted(false, o));
            }
            return false;
        }
        let ok = self.state.initialise();
        self.initialised = ok;
        proof {
            let o = choose|o: BringUp|
                self.state@ == #[trigger] before.machine.booted(o) && ok == o.all_ok();
            assert(self@ == before.booted(true, o));
        }
        ok
    }

    fn register_trap(&mut self, num: usize, handler: F)
        ensures
            final(self)@ == old(self)@.register_trap(num, handler),
    {
        self.traps.insert(num, Callback::new(handler));
        assert(self@.traps =~= old(self)@.traps.insert(num, handler));
    }

    fn get_interrupts(&self) -> (on: bool)
        ensures
            on == self@.interrupts,
    {
        self.interrupts
    }

    fn set_interrupts(&mut self, on: bool)
        ensures
            final(self)@ == old(self)@.set_interrupts(on),
    {
        self.trace.set_interrupts(&mut self.cpu, on);
        self.interrupts = on;
    }

    fn wait_for_event(&self) {
        self.cpu.wait_for_event();
    }
}

impl<C: Cpu, B: Board, F: Fn(usize)> TrapHandler for ArchitectureState<C, B, F> {
    /// Calls the handler registered for trap `num` with `num`. A trap without
    /// a handler is dropped.
    fn trap(&mut self, num: usize)
        ensures
            final(self)@ == old(self)@.trap(num),
            old(self)@.traps.contains_key(num) ==> call_ensures(old(self)@.traps[num], (num,), ()),
    {
        match self.traps.get(num) {
            Some(callback) => {
                self.trace.invoke(callback, num);
            },
            None => {},
        }
    }
}

/// A new architecture state, before bring-up, on the heap.
pub fn create<C: Cpu, B: Board, F: Fn(usize)>() -> (arch: Box<ArchitectureState<C, B, F>>)
    ensures
        arch@ == Arch::<F>::fresh(),
{
    Box::new(ArchitectureState::new())
}

/// Where the CPU comes up, bring-up succeeds exactly when every device comes
/// up: the serial port, the interrupt controller, the timer, the keyboard
/// controller and the display. The state is marked initialised exactly then.
pub proof fn lemma_bring_up_succeeds_iff_every_device_does<F>(a: Arch<F>, o: BringUp)
    ensures
        a.booted(true, o).initialised <==> (o.serial && o.controller && o.timer && o.keyboard
            && o.screen),
{
}

/// A bring-up that fails before the device lines are wired, in the CPU or in a
/// device, leaves no line unmasked that was masked before.
pub proof fn lemma_failed_bring_up_unmasks_nothing<F>(a: Arch<F>, cpu: bool, o: BringUp)
    requires
        !cpu || !o.wired(),
    ensures
        !a.booted(cpu, o).initialised,
        a.booted(cpu, o).machine.enabled.subset_of(a.machine.enabled),
{
    if cpu {
        crate::mach::lemma_failed_bring_up_unmasks_nothing(a.machine, o);
    }
}

/// The interrupt flag reads as it was last set: setting it twice to the same
/// value reads as setting it once, and of two different values the later one
/// is read. Setting the flag touches nothing else but the trace.
pub proof fn lemma_interrupt_flag<F>(a: Arch<F>, on: bool)
    ensures
        a.set_interrupts(on).interrupts == on,
        a.set_interrupts(on).set_interrupts(on).interrupts == on,
        a.set_interrupts(!on).set_interrupts(on).interrupts == on,
        a.set_interrupts(on) == (Arch {
            interrupts: on,
            trace: a.trace.push(Event::InterruptsSet { on }),
            ..a
        }),
{
}

/// Of two handlers registered for one trap, the second is the trap's handler.
pub proof fn lemma_last_trap_registration_wins<F>(a: Arch<F>, num: usize, first: F, second: F)
    ensures
        ({
            let twice = a.register_trap(num, first).register_trap(num, second);
            &&& twice.traps[num] == second
            &&& twice.trap(num) == twice.traced(Event::Called { handler: second, arg: num })
        }),
{
}

/// A trap with a handler calls that handler with the trap's number, and does
/// nothing else; a trap without a handler does nothing.
pub proof fn lemma_trap_calls_its_handler_only<F>(a: Arch<F>, num: usize, handler: F, other: usize)
    requires
        other != num,
        !a.traps.contains_key(other),
    ensures
        ({
            let registered = a.register_trap(num, handler);
            &&& registered.trap(num) == registered.traced(Event::Called { handler, arg: num })
            &&& registered.trap(other) == registered
        }),
{
}

} // verus!
