//! The interrupt dispatch table: which handler serves which line, in which
//! trigger mode, and which lines are unmasked.
//!
//! A line has at most one handler, and registering a line again replaces the
//! handler that was there. Whether a line is unmasked is kept apart from its
//! handler: registering does not unmask.

use crate::mach::trace::Callback;
use crate::mach::{Handler, Line};
use crate::table::Table;
use vstd::prelude::*;

verus! {

/// What serves an interrupt line, as the table holds it.
pub enum IrqHandler<F: Fn(usize)> {
    /// The board's timer.
    Timer,
    /// The board's keyboard controller.
    Keyboard,
    /// A handler that the kernel registered.
    Shared(Callback<F>),
}

impl<F: Fn(usize)> IrqHandler<F> {
    /// The handler in the model.
    pub open spec fn view(&self) -> Handler<F> {
        match *self {
            IrqHandler::Timer => Handler::Timer,
            IrqHandler::Keyboard => Handler::Keyboard,
            IrqHandler::Shared(callback) => Handler::Shared(callback@),
        }
    }
}

/// The table's entry for one line.
pub struct IrqLine<F: Fn(usize)> {
    pub handler: IrqHandler<F>,
    pub level_triggered: bool,
}

impl<F: Fn(usize)> IrqLine<F> {
    /// The entry in the model.
    pub open spec fn view(&self) -> Line<F> {
        Line { handler: self.handler@, level_triggered: self.level_triggered }
    }
}

/// The interrupt dispatch table.
pub struct InterruptTable<F: Fn(usize)> {
    lines: Table<IrqLine<F>>,
    masks: Table<bool>,
}

impl<F: Fn(usize)> InterruptTable<F> {
    /// The handler and trigger mode of each line that has one.
    pub closed spec fn lines(&self) -> Map<usize, Line<F>> {
        Map::new(|line: usize| self.lines@.contains_key(line), |line: usize| self.lines@[line]@)
    }

    /// The lines that are unmasked.
    pub closed spec fn enabled(&self) -> Set<usize> {
        Set::new(|line: usize| self.masks@.contains_key(line) && self.masks@[line])
    }

    /// A table with no handler and every line masked.
    pub fn new() -> (table: Self)
        ensures
            table.lines() == Map::<usize, Line<F>>::empty(),
            table.enabled() == Set::<usize>::empty(),
    {
        let table = InterruptTable { lines: Table::new(), masks: Table::new() };
        assert(table.lines() =~= Map::<usize, Line<F>>::empty());
        assert(table.enabled() =~= Set::<usize>::empty());
        table
    }

    /// Makes `handler` the handler of `line`, in the given trigger mode. The
    /// handler that the line had, if any, is gone. The line stays masked or
    /// unmasked as it was.
    pub fn register(&mut self, line: usize, handler: IrqHandler<F>, level_triggered: bool)
        ensures
            final(self).lines() == old(self).lines().insert(
                line,
                Line { handler: handler@, level_triggered },
            ),
            final(self).enabled() == old(self).enabled(),
    {
        self.lines.insert(line, IrqLine { handler, level_triggered });
        assert(self.lines() =~= old(self).lines().insert(
            line,
            Line { handler: handler@, level_triggered },
        ));
    }

    /// Unmasks `line`.
    pub fn enable(&mut self, line: usize)
        ensures
            final(self).enabled() == old(self).enabled().insert(line),
            final(self).lines() == old(self).lines(),
    {
        self.masks.insert(line, true);
        assert(self.enabled() =~= old(self).enabled().insert(line));
    }

    /// Masks `line`.
    pub fn disable(&mut self, line: usize)
        ensures
            final(self).enabled() == old(self).enabled().remove(line),
            final(self).lines() == old(self).lines(),
    {
        self.masks.insert(line, false);
        assert(self.enabled() =~= old(self).enabled().remove(line));
    }

    /// Whether `line` is unmasked.
    pub fn is_enabled(&self, line: usize) -> (enabled: bool)
        ensures
            enabled == self.enabled().contains(line),
    {
        match self.masks.get(line) {
            Some(unmasked) => *unmasked,
            None => false,
        }
    }

    /// The entry of `line`, if the line has a handler.
    pub fn get(&self, line: usize) -> (entry: Option<&IrqLine<F>>)
        ensures
            match entry {
                Some(found) => self.lines().contains_key(line) && found@ == self.lines()[line],
                None => !self.lines().contains_key(line),
            },
    {
        self.lines.get(line)
    }

    /// The handler that an interrupt on `line` goes to: the line's handler if
    /// the line is unmasked and has one, and none otherwise.
    pub fn deliver(&self, line: usize) -> (target: Option<&IrqHandler<F>>)
        ensures
            match target {
                Some(handler) => {
                    &&& self.enabled().contains(line)
                    &&& self.lines().contains_key(line)
                    &&& handler@ == self.lines()[line].handler
                },
                None => !(self.enabled().contains(line) && self.lines().contains_key(line)),
            },
    {
        if !self.is_enabled(line) {
            return None;
        }
        match self.lines.get(line) {
            Some(entry) => Some(&entry.handler),
            None => None,
        }
    }
}

} // verus!
