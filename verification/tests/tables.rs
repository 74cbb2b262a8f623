use rustic::mach::irq::{InterruptTable, IrqHandler};
use rustic::mach::trace::Callback;
use rustic::table::Table;

fn name(handler: Option<&IrqHandler<fn(usize)>>) -> &'static str {
    match handler {
        None => "none",
        Some(IrqHandler::Timer) => "timer",
        Some(IrqHandler::Keyboard) => "keyboard",
        Some(IrqHandler::Shared(_)) => "shared",
    }
}

fn nothing(_: usize) {}

#[test]
fn empty_table_holds_nothing() {
    let table: Table<u32> = Table::new();
    assert_eq!(table.get(0), None);
    assert_eq!(table.get(usize::MAX), None);
}

#[test]
fn table_returns_what_was_written() {
    let mut table: Table<u32> = Table::new();
    table.insert(3, 30);
    table.insert(0, 7);
    table.insert(usize::MAX, 9);
    assert_eq!(table.get(3), Some(&30));
    assert_eq!(table.get(0), Some(&7));
    assert_eq!(table.get(usize::MAX), Some(&9));
    assert_eq!(table.get(4), None);
}

#[test]
fn table_overwrites_a_key_written_again() {
    let mut table: Table<u32> = Table::new();
    table.insert(3, 30);
    table.insert(5, 50);
    table.insert(3, 31);
    assert_eq!(table.get(3), Some(&31));
    assert_eq!(table.get(5), Some(&50));
    table.insert(3, 32);
    table.insert(5, 51);
    assert_eq!(table.get(3), Some(&32));
    assert_eq!(table.get(5), Some(&51));
}

#[test]
fn new_interrupt_table_delivers_nothing() {
    let table: InterruptTable<fn(usize)> = InterruptTable::new();
    assert!(!table.is_enabled(0));
    assert!(table.get(0).is_none());
    assert_eq!(name(table.deliver(0)), "none");
}

#[test]
fn registering_does_not_unmask() {
    let mut table: InterruptTable<fn(usize)> = InterruptTable::new();
    table.register(4, IrqHandler::Timer, true);
    assert!(!table.is_enabled(4));
    assert_eq!(name(table.deliver(4)), "none");
    assert!(table.get(4).is_some());
    table.enable(4);
    assert!(table.is_enabled(4));
    assert_eq!(name(table.deliver(4)), "timer");
}

#[test]
fn registered_line_keeps_its_trigger_mode() {
    let mut table: InterruptTable<fn(usize)> = InterruptTable::new();
    table.register(4, IrqHandler::Timer, true);
    table.register(5, IrqHandler::Keyboard, false);
    assert!(table.get(4).unwrap().level_triggered);
    assert!(!table.get(5).unwrap().level_triggered);
    table.register(4, IrqHandler::Keyboard, false);
    assert!(!table.get(4).unwrap().level_triggered);
}

#[test]
fn registering_again_replaces_the_handler_and_keeps_the_mask() {
    let mut table: InterruptTable<fn(usize)> = InterruptTable::new();
    table.register(2, IrqHandler::Timer, true);
    table.enable(2);
    table.register(2, IrqHandler::Shared(Callback::new(nothing)), false);
    assert!(table.is_enabled(2));
    assert_eq!(name(table.deliver(2)), "shared");
    table.register(2, IrqHandler::Keyboard, false);
    assert_eq!(name(table.deliver(2)), "keyboard");
}

#[test]
fn masking_stops_delivery_and_keeps_the_handler() {
    let mut table: InterruptTable<fn(usize)> = InterruptTable::new();
    table.register(2, IrqHandler::Keyboard, true);
    table.enable(2);
    table.disable(2);
    assert!(!table.is_enabled(2));
    assert_eq!(name(table.deliver(2)), "none");
    assert!(table.get(2).is_some());
    table.enable(2);
    assert_eq!(name(table.deliver(2)), "keyboard");
}

#[test]
fn unmasking_a_line_leaves_the_others_masked() {
    let mut table: InterruptTable<fn(usize)> = InterruptTable::new();
    table.register(2, IrqHandler::Keyboard, true);
    table.register(3, IrqHandler::Timer, true);
    table.enable(3);
    assert!(!table.is_enabled(2));
    assert_eq!(name(table.deliver(2)), "none");
    assert_eq!(name(table.deliver(3)), "timer");
}

#[test]
fn unmasked_line_without_handler_delivers_nothing() {
    let mut table: InterruptTable<fn(usize)> = InterruptTable::new();
    table.enable(8);
    assert!(table.is_enabled(8));
    assert_eq!(name(table.deliver(8)), "none");
}
