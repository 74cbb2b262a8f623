use rustic::mach::io::{IoPort, Memory, Mmio, PortSpace, PORTS};

#[test]
fn port_space_has_65536_cells() {
    assert_eq!(PORTS, 65536);
}

#[test]
fn unwritten_port_reads_zero() {
    let ports = PortSpace::new();
    assert_eq!(ports.inport::<u8>(0x60), 0);
    assert_eq!(ports.inport::<u16>(0x3f8), 0);
    assert_eq!(ports.inport::<u32>(0xcf8), 0);
}

#[test]
fn port_round_trip_u8() {
    let mut ports = PortSpace::new();
    ports.outport(0x60, 0xabu8);
    assert_eq!(ports.inport::<u8>(0x60), 0xab);
    ports.outport(0, 0u8);
    ports.outport(0xffff, 0xffu8);
    assert_eq!(ports.inport::<u8>(0), 0);
    assert_eq!(ports.inport::<u8>(0xffff), 0xff);
}

#[test]
fn port_round_trip_u16() {
    let mut ports = PortSpace::new();
    ports.outport(0x1f0, 0xbeefu16);
    assert_eq!(ports.inport::<u16>(0x1f0), 0xbeef);
    ports.outport(0x1f0, u16::MAX);
    assert_eq!(ports.inport::<u16>(0x1f0), u16::MAX);
}

#[test]
fn port_round_trip_u32() {
    let mut ports = PortSpace::new();
    ports.outport(0xcf8, 0x8000_1234u32);
    assert_eq!(ports.inport::<u32>(0xcf8), 0x8000_1234);
    ports.outport(0xcf8, 0u32);
    assert_eq!(ports.inport::<u32>(0xcf8), 0);
}

#[test]
fn port_value_lies_lowest_byte_first() {
    let mut ports = PortSpace::new();
    ports.outport(0x40, 0x1122_3344u32);
    assert_eq!(ports.inport::<u8>(0x40), 0x44);
    assert_eq!(ports.inport::<u8>(0x41), 0x33);
    assert_eq!(ports.inport::<u8>(0x42), 0x22);
    assert_eq!(ports.inport::<u8>(0x43), 0x11);
    assert_eq!(ports.inport::<u16>(0x40), 0x3344);
    assert_eq!(ports.inport::<u16>(0x42), 0x1122);
    assert_eq!(ports.inport::<u16>(0x41), 0x2233);
}

#[test]
fn port_write_replaces_only_its_own_cells() {
    let mut ports = PortSpace::new();
    ports.outport(0x40, 0x1122_3344u32);
    ports.outport(0x41, 0xaau8);
    assert_eq!(ports.inport::<u32>(0x40), 0x1122_aa44);
    ports.outport(0x42, 0xbbccu16);
    assert_eq!(ports.inport::<u32>(0x40), 0xbbcc_aa44);
    assert_eq!(ports.inport::<u8>(0x44), 0);
    assert_eq!(ports.inport::<u8>(0x3f), 0);
}

#[test]
fn port_space_wraps_at_its_end() {
    let mut ports = PortSpace::new();
    ports.outport(0xffff, 0x1234u16);
    assert_eq!(ports.inport::<u16>(0xffff), 0x1234);
    assert_eq!(ports.inport::<u8>(0xffff), 0x34);
    assert_eq!(ports.inport::<u8>(0), 0x12);
    ports.outport(0xfffe, 0xa1b2_c3d4u32);
    assert_eq!(ports.inport::<u32>(0xfffe), 0xa1b2_c3d4);
    assert_eq!(ports.inport::<u16>(0), 0xa1b2);
}

#[test]
fn unwritten_memory_reads_zero() {
    let memory = Memory::new();
    assert_eq!(memory.mmio_read::<u8>(0xb8000), 0);
    assert_eq!(memory.mmio_read::<u64>(0xb8000), 0);
}

#[test]
fn memory_round_trip_u8() {
    let mut memory = Memory::new();
    memory.mmio_write(0xb8001, 0x07u8);
    assert_eq!(memory.mmio_read::<u8>(0xb8001), 0x07);
    memory.mmio_write(usize::MAX, 0xffu8);
    assert_eq!(memory.mmio_read::<u8>(usize::MAX), 0xff);
    memory.mmio_write(0, 1u8);
    assert_eq!(memory.mmio_read::<u8>(0), 1);
}

#[test]
fn memory_round_trip_u16() {
    let mut memory = Memory::new();
    memory.mmio_write(0xb8000, 0x0741u16);
    assert_eq!(memory.mmio_read::<u16>(0xb8000), 0x0741);
    memory.mmio_write(usize::MAX - 1, 0xfffeu16);
    assert_eq!(memory.mmio_read::<u16>(usize::MAX - 1), 0xfffe);
}

#[test]
fn memory_round_trip_u32() {
    let mut memory = Memory::new();
    memory.mmio_write(0xfee0_00b0, 0xdead_beefu32);
    assert_eq!(memory.mmio_read::<u32>(0xfee0_00b0), 0xdead_beef);
    memory.mmio_write(usize::MAX - 3, u32::MAX);
    assert_eq!(memory.mmio_read::<u32>(usize::MAX - 3), u32::MAX);
}

#[test]
fn memory_round_trip_u64() {
    let mut memory = Memory::new();
    memory.mmio_write(0x1000, 0x0123_4567_89ab_cdefu64);
    assert_eq!(memory.mmio_read::<u64>(0x1000), 0x0123_4567_89ab_cdef);
    memory.mmio_write(usize::MAX - 7, u64::MAX);
    assert_eq!(memory.mmio_read::<u64>(usize::MAX - 7), u64::MAX);
}

#[test]
fn memory_value_lies_lowest_byte_first() {
    let mut memory = Memory::new();
    memory.mmio_write(0x2000, 0x0123_4567_89ab_cdefu64);
    assert_eq!(memory.mmio_read::<u8>(0x2000), 0xef);
    assert_eq!(memory.mmio_read::<u8>(0x2007), 0x01);
    assert_eq!(memory.mmio_read::<u16>(0x2002), 0x89ab);
    assert_eq!(memory.mmio_read::<u32>(0x2004), 0x0123_4567);
    assert_eq!(memory.mmio_read::<u32>(0x2000), 0x89ab_cdef);
}

#[test]
fn memory_write_replaces_only_its_own_cells() {
    let mut memory = Memory::new();
    memory.mmio_write(0x3000, 0x1111_1111u32);
    memory.mmio_write(0x3004, 0x2222_2222u32);
    memory.mmio_write(0x3002, 0xabcdu16);
    assert_eq!(memory.mmio_read::<u32>(0x3000), 0xabcd_1111);
    assert_eq!(memory.mmio_read::<u32>(0x3004), 0x2222_2222);
    assert_eq!(memory.mmio_read::<u64>(0x3000), 0x2222_2222_abcd_1111);
}

#[test]
fn ports_and_memory_are_apart() {
    let mut ports = PortSpace::new();
    let mut memory = Memory::new();
    ports.outport(0x80, 0x55u8);
    memory.mmio_write(0x80, 0xaau8);
    assert_eq!(ports.inport::<u8>(0x80), 0x55);
    assert_eq!(memory.mmio_read::<u8>(0x80), 0xaa);
}

/// Sets the divisor latch of a serial port at `base`, as a driver would.
fn set_divisor<P: IoPort>(ports: &mut P, base: u16, divisor: u16) {
    let line: u8 = ports.inport(base + 3);
    ports.outport(base + 3, line | 0x80);
    ports.outport(base, divisor);
    ports.outport(base + 3, line);
}

#[test]
fn driver_code_runs_on_simulated_ports() {
    let mut ports = PortSpace::new();
    ports.outport(0x3f8 + 3, 0x03u8);
    set_divisor(&mut ports, 0x3f8, 0x0102);
    assert_eq!(ports.inport::<u8>(0x3f8), 0x02);
    assert_eq!(ports.inport::<u8>(0x3f8 + 1), 0x01);
    assert_eq!(ports.inport::<u8>(0x3f8 + 3), 0x03);
}

/// Clears `cells` cells of a text display at `base`, as a driver would.
fn clear_text<M: Mmio>(memory: &mut M, base: usize, cells: usize) {
    for cell in 0..cells {
        memory.mmio_write::<u16>(base + 2 * cell, 0x0720);
    }
}

#[test]
fn driver_code_runs_on_simulated_memory() {
    let mut memory = Memory::new();
    memory.mmio_write(0xb8000, 0xffff_ffffu32);
    clear_text(&mut memory, 0xb8000, 3);
    assert_eq!(memory.mmio_read::<u16>(0xb8000), 0x0720);
    assert_eq!(memory.mmio_read::<u16>(0xb8004), 0x0720);
    assert_eq!(memory.mmio_read::<u8>(0xb8005), 0x07);
    assert_eq!(memory.mmio_read::<u16>(0xb8006), 0);
}
