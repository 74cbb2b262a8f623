//! Raw port and memory-mapped access.
//!
//! [`IoPort`] and [`Mmio`] are what a driver is given to reach its device. On
//! hardware nothing can be promised of them: what a register gives back is the
//! device's affair. [`PortSpace`] and [`Memory`] are the simulated machine, on
//! which everything is known.
//!
//! A simulated port space and a simulated memory are maps from a cell's number
//! to the byte in it. A value of 8, 16, 32 or 64 bits lies in as many cells as
//! it has bytes, lowest byte first. A cell that was never written reads as
//! zero. The port space has 65536 cells and wraps at its end; ports take values
//! of up to 32 bits.

use crate::table::Table;
use vstd::prelude::*;

verus! {

/// The number of cells in the port space.
pub const PORTS: usize = 0x1_0000;

/// A value that can be moved to or from a device: an unsigned integer of a
/// fixed width.
pub trait IoValue: Copy + Sized {
    /// The number of bytes of a value.
    spec fn width() -> nat;

    /// The bytes of a value, lowest first.
    spec fn le_bytes(self) -> Seq<u8>;

    /// The value that bytes stand for, lowest byte first.
    spec fn from_le(bytes: Seq<u8>) -> Self;

    /// Whether a value may lie at `address`: the address is a multiple of the
    /// width.
    spec fn aligned(address: usize) -> bool;

    /// A value at an address where it may lie ends at or before the last
    /// address.
    proof fn lemma_aligned(address: usize)
        requires
            Self::aligned(address),
        ensures
            address + Self::width() <= usize::MAX + 1,
    ;

    /// A value has one, two, four or eight bytes.
    proof fn lemma_width()
        ensures
            Self::width() == 1 || Self::width() == 2 || Self::width() == 4 || Self::width() == 8,
    ;

    /// A value has `width` bytes, and they stand for the value.
    proof fn lemma_le_bytes(self)
        ensures
            self.le_bytes().len() == Self::width(),
            Self::from_le(self.le_bytes()) == self,
    ;

    /// The number of bytes of a value.
    fn size() -> (n: usize)
        ensures
            n == Self::width(),
    ;

    /// The bytes of the value, lowest first.
    fn encode(self) -> (bytes: Vec<u8>)
        ensures
            bytes@ == self.le_bytes(),
    ;

    /// The value that the bytes stand for.
    fn decode(bytes: &Vec<u8>) -> (value: Self)
        requires
            bytes@.len() == Self::width(),
        ensures
            value == Self::from_le(bytes@),
    ;
}

/// A value of a width that the CPU's port instructions move.
pub trait PortValue: IoValue {

}

impl IoValue for u8 {
    open spec fn width() -> nat {
        1
    }

    open spec fn aligned(address: usize) -> bool {
        true
    }

    proof fn lemma_aligned(address: usize) {
    }

    open spec fn le_bytes(self) -> Seq<u8> {
        seq![self]
    }

    open spec fn from_le(bytes: Seq<u8>) -> Self {
        bytes[0]
    }

    proof fn lemma_width() {
    }

    proof fn lemma_le_bytes(self) {
    }

    fn size() -> (n: usize) {
        1
    }

    fn encode(self) -> (bytes: Vec<u8>) {
        let mut bytes: Vec<u8> = Vec::new();
        bytes.push(self);
        assert(bytes@ =~= seq![self]);
        bytes
    }

    fn decode(bytes: &Vec<u8>) -> (value: Self) {
        bytes[0]
    }
}

impl IoValue for u16 {
    open spec fn width() -> nat {
        2
    }

    open spec fn aligned(address: usize) -> bool {
        address % 2 == 0
    }

    proof fn lemma_aligned(address: usize) {
        lemma_multiple_fits(address, 2);
    }

    open spec fn le_bytes(self) -> Seq<u8> {
        seq![(self % 0x100) as u8, (self / 0x100) as u8]
    }

    open spec fn from_le(bytes: Seq<u8>) -> Self {
        (bytes[0] + bytes[1] * 0x100) as u16
    }

    proof fn lemma_width() {
    }

    proof fn lemma_le_bytes(self) {
    }

    fn size() -> (n: usize) {
        2
    }

    fn encode(self) -> (bytes: Vec<u8>) {
        let mut bytes: Vec<u8> = Vec::new();
        bytes.push((self % 0x100) as u8);
        bytes.push((self / 0x100) as u8);
        assert(bytes@ =~= self.le_bytes());
        bytes
    }

    fn decode(bytes: &Vec<u8>) -> (value: Self) {
        bytes[0] as u16 + (bytes[1] as u16) * 0x100
    }
}

impl IoValue for u32 {
    open spec fn width() -> nat {
        4
    }

    open spec fn aligned(address: usize) -> bool {
        address % 4 == 0
    }

    proof fn lemma_aligned(address: usize) {
        lemma_multiple_fits(address, 4);
    }

    open spec fn le_bytes(self) -> Seq<u8> {
        seq![
            (self % 0x100) as u8,
            (self / 0x100 % 0x100) as u8,
            (self / 0x1_0000 % 0x100) as u8,
            (self / 0x100_0000) as u8,
        ]
    }

    open spec fn from_le(bytes: Seq<u8>) -> Self {
        (bytes[0] + bytes[1] * 0x100 + bytes[2] * 0x1_0000 + bytes[3] * 0x100_0000) as u32
    }

    proof fn lemma_width() {
    }

    proof fn lemma_le_bytes(self) {
    }

    fn size() -> (n: usize) {
        4
    }

    fn encode(self) -> (bytes: Vec<u8>) {
        let mut bytes: Vec<u8> = Vec::new();
        bytes.push((self % 0x100) as u8);
        bytes.push((self / 0x100 % 0x100) as u8);
        bytes.push((self / 0x1_0000 % 0x100) as u8);
        bytes.push((self / 0x100_0000) as u8);
        assert(bytes@ =~= self.le_bytes());
        bytes
    }

    fn decode(bytes: &Vec<u8>) -> (value: Self) {
        bytes[0] as u32
            + (bytes[1] as u32) * 0x100
            + (bytes[2] as u32) * 0x1_0000
            + (bytes[3] as u32) * 0x100_0000
    }
}

impl IoValue for u64 {
    open spec fn width() -> nat {
        8
    }

    open spec fn aligned(address: usize) -> bool {
        address % 8 == 0
    }

    proof fn lemma_aligned(address: usize) {
        lemma_multiple_fits(address, 8);
    }

    open spec fn le_bytes(self) -> Seq<u8> {
        seq![
            (self % 0x100) as u8,
            (self / 0x100 % 0x100) as u8,
            (self / 0x1_0000 % 0x100) as u8,
            (self / 0x100_0000 % 0x100) as u8,
            (self / 0x1_0000_0000 % 0x100) as u8,
            (self / 0x100_0000_0000 % 0x100) as u8,
            (self / 0x1_0000_0000_0000 % 0x100) as u8,
            (self / 0x100_0000_0000_0000) as u8,
        ]
    }

    open spec fn from_le(bytes: Seq<u8>) -> Self {
        (bytes[0]
            + bytes[1] * 0x100
            + bytes[2] * 0x1_0000
            + bytes[3] * 0x100_0000
            + bytes[4] * 0x1_0000_0000
            + bytes[5] * 0x100_0000_0000
            + bytes[6] * 0x1_0000_0000_0000
            + bytes[7] * 0x100_0000_0000_0000) as u64
    }

    proof fn lemma_width() {
    }

    proof fn lemma_le_bytes(self) {
        let x: int = self as int;
        let q1: int = x / 0x100;
        let q2: int = x / 0x1_0000;
        let q3: int = x / 0x100_0000;
        let q4: int = x / 0x1_0000_0000;
        let q5: int = x / 0x100_0000_0000;
        let q6: int = x / 0x1_0000_0000_0000;
        let q7: int = x / 0x100_0000_0000_0000;
        vstd::arithmetic::div_mod::lemma_div_denominator(x, 0x100, 0x100);
        vstd::arithmetic::div_mod::lemma_div_denominator(x, 0x1_0000, 0x100);
        vstd::arithmetic::div_mod::lemma_div_denominator(x, 0x100_0000, 0x100);
        vstd::arithmetic::div_mod::lemma_div_denominator(x, 0x1_0000_0000, 0x100);
        vstd::arithmetic::div_mod::lemma_div_denominator(x, 0x100_0000_0000, 0x100);
        vstd::arithmetic::div_mod::lemma_div_denominator(x, 0x1_0000_0000_0000, 0x100);
        assert(q2 == q1 / 0x100 && q3 == q2 / 0x100 && q4 == q3 / 0x100);
        assert(q5 == q4 / 0x100 && q6 == q5 / 0x100 && q7 == q6 / 0x100);
        assert(x == x % 0x100 + 0x100 * q1);
        assert(q1 == q1 % 0x100 + 0x100 * q2);
        assert(q2 == q2 % 0x100 + 0x100 * q3);
        assert(q3 == q3 % 0x100 + 0x100 * q4);
        assert(q4 == q4 % 0x100 + 0x100 * q5);
        assert(q5 == q5 % 0x100 + 0x100 * q6);
        assert(q6 == q6 % 0x100 + 0x100 * q7);
        assert(0 <= q7 < 0x100);
        let bytes = self.le_bytes();
        assert(bytes[0] == x % 0x100 && bytes[1] == q1 % 0x100 && bytes[2] == q2 % 0x100);
        assert(bytes[3] == q3 % 0x100 && bytes[4] == q4 % 0x100 && bytes[5] == q5 % 0x100);
        assert(bytes[6] == q6 % 0x100 && bytes[7] == q7);
    }

    fn size() -> (n: usize) {
        8
    }

    fn encode(self) -> (bytes: Vec<u8>) {
        let mut bytes: Vec<u8> = Vec::new();
        bytes.push((self % 0x100) as u8);
        bytes.push((self / 0x100 % 0x100) as u8);
        bytes.push((self / 0x1_0000 % 0x100) as u8);
        bytes.push((self / 0x100_0000 % 0x100) as u8);
        bytes.push((self / 0x1_0000_0000 % 0x100) as u8);
        bytes.push((self / 0x100_0000_0000 % 0x100) as u8);
        bytes.push((self / 0x1_0000_0000_0000 % 0x100) as u8);
        bytes.push((self / 0x100_0000_0000_0000) as u8);
        assert(bytes@ =~= self.le_bytes());
        bytes
    }

    fn decode(bytes: &Vec<u8>) -> (value: Self) {
        bytes[0] as u64
            + (bytes[1] as u64) * 0x100
            + (bytes[2] as u64) * 0x1_0000
            + (bytes[3] as u64) * 0x100_0000
            + (bytes[4] as u64) * 0x1_0000_0000
            + (bytes[5] as u64) * 0x100_0000_0000
            + (bytes[6] as u64) * 0x1_0000_0000_0000
            + (bytes[7] as u64) * 0x100_0000_0000_0000
    }
}

impl PortValue for u8 {

}

impl PortValue for u16 {

}

impl PortValue for u32 {

}

/// Access to the ports of the machine.
pub trait IoPort {
    /// Writes `val` to `port`. The port is not checked.
    fn outport<T: PortValue>(&mut self, port: u16, val: T);

    /// Reads a value from `port`. The port is not checked.
    fn inport<T: PortValue>(&self, port: u16) -> T;
}

/// Access to the memory-mapped registers of the machine.
pub trait Mmio {
    /// Writes `val` at `address`, which must be a multiple of the value's
    /// width.
    fn mmio_write<T: IoValue>(&mut self, address: usize, val: T)
        requires
            T::aligned(address),
    ;

    /// Reads a value at `address`, which must be a multiple of the value's
    /// width.
    fn mmio_read<T: IoValue>(&self, address: usize) -> T
        requires
            T::aligned(address),
    ;
}

/// The byte in a cell: what was written there last, or zero.
pub open spec fn byte_at(cells: Map<usize, u8>, cell: usize) -> u8 {
    if cells.contains_key(cell) {
        cells[cell]
    } else {
        0
    }
}

/// The cells after `bytes` are written to the cells `at`, one byte to each,
/// first to last.
pub open spec fn stored(cells: Map<usize, u8>, at: Seq<usize>, bytes: Seq<u8>) -> Map<usize, u8>
    decreases bytes.len(),
{
    if bytes.len() == 0 || at.len() == 0 {
        cells
    } else {
        stored(cells, at.drop_last(), bytes.drop_last()).insert(at.last(), bytes.last())
    }
}

/// The bytes in the cells `at`, in that order.
pub open spec fn loaded(cells: Map<usize, u8>, at: Seq<usize>) -> Seq<u8> {
    Seq::new(at.len(), |i: int| byte_at(cells, at[i]))
}

/// The cells that a value of `n` bytes at port `port` lies in. The port space
/// wraps at its end.
pub open spec fn port_cells(port: u16, n: nat) -> Seq<usize> {
    Seq::new(n, |i: int| ((port + i) % 0x1_0000) as usize)
}

/// The cells that a value of `n` bytes at `address` lies in.
pub open spec fn memory_cells(address: usize, n: nat) -> Seq<usize> {
    Seq::new(n, |i: int| (address + i) as usize)
}

/// Bytes written to distinct cells are read back from them as they were
/// written.
pub proof fn lemma_load_after_store(cells: Map<usize, u8>, at: Seq<usize>, bytes: Seq<u8>)
    requires
        at.len() == bytes.len(),
        at.no_duplicates(),
    ensures
        loaded(stored(cells, at, bytes), at) == bytes,
    decreases bytes.len(),
{
    if bytes.len() > 0 {
        let before = stored(cells, at.drop_last(), bytes.drop_last());
        lemma_load_after_store(cells, at.drop_last(), bytes.drop_last());
        let after = stored(cells, at, bytes);
        assert forall|i: int| 0 <= i < at.len() implies loaded(after, at)[i] == bytes[i] by {
            if i < at.len() - 1 {
                assert(at[i] != at.last());
                assert(loaded(before, at.drop_last())[i] == bytes.drop_last()[i]);
            }
        }
    }
    assert(loaded(stored(cells, at, bytes), at) =~= bytes);
}

/// The cells of a value of at most eight bytes at a port are distinct.
proof fn lemma_port_cells_distinct(port: u16, n: nat)
    requires
        n <= 8,
    ensures
        port_cells(port, n).no_duplicates(),
        port_cells(port, n).len() == n,
{
    let cells = port_cells(port, n);
    assert forall|i: int, j: int| 0 <= i < n && 0 <= j < n && i != j implies cells[i]
        != cells[j] by {
        assert(((port + i) % 0x1_0000) != ((port + j) % 0x1_0000));
    }
}

/// The cells of a value in memory are distinct, where the value does not run
/// past the last address.
proof fn lemma_memory_cells_distinct(address: usize, n: nat)
    requires
        address + n <= usize::MAX + 1,
    ensures
        memory_cells(address, n).no_duplicates(),
        memory_cells(address, n).len() == n,
{
}

/// An address that is a multiple of two, four or eight leaves room for as many
/// bytes below the end of the address space.
proof fn lemma_multiple_fits(address: usize, width: nat)
    requires
        width == 2 || width == 4 || width == 8,
        address as int % width as int == 0,
    ensures
        address + width <= usize::MAX + 1,
{
    let end: int = usize::MAX + 1;
    assert(end == 0x1_0000_0000 || end == 0x1_0000_0000_0000_0000) by {
        assert(usize::BITS == 32 || usize::BITS == 64);
    }
    let a: int = address as int;
    if width == 2 {
        assert(a % 2 == 0);
        assert(a != end - 1);
    } else if width == 4 {
        assert(a % 4 == 0);
        assert(a != end - 1 && a != end - 2 && a != end - 3);
    } else {
        assert(a % 8 == 0);
        assert(a != end - 1 && a != end - 2 && a != end - 3 && a != end - 4);
        assert(a != end - 5 && a != end - 6 && a != end - 7);
    }
}

/// A value written to a port is the value read from that port afterwards, for
/// every width that ports take.
pub proof fn lemma_port_round_trip<T: PortValue>(cells: Map<usize, u8>, port: u16, val: T)
    ensures
        T::from_le(
            loaded(
                stored(cells, port_cells(port, T::width()), val.le_bytes()),
                port_cells(port, T::width()),
            ),
        ) == val,
{
    T::lemma_width();
    val.lemma_le_bytes();
    lemma_port_cells_distinct(port, T::width());
    lemma_load_after_store(cells, port_cells(port, T::width()), val.le_bytes());
}

/// A value written at an address is the value read at that address afterwards,
/// for every width, where the address is a multiple of the width.
pub proof fn lemma_memory_round_trip<T: IoValue>(cells: Map<usize, u8>, address: usize, val: T)
    requires
        T::aligned(address),
    ensures
        T::from_le(
            loaded(
                stored(cells, memory_cells(address, T::width()), val.le_bytes()),
                memory_cells(address, T::width()),
            ),
        ) == val,
{
    T::lemma_width();
    val.lemma_le_bytes();
    T::lemma_aligned(address);
    lemma_memory_cells_distinct(address, T::width());
    lemma_load_after_store(cells, memory_cells(address, T::width()), val.le_bytes());
}

/// Writes `bytes` to the cells `at`, one byte to each.
fn store(cells: &mut Table<u8>, at: &Vec<usize>, bytes: &Vec<u8>)
    requires
        at@.len() == bytes@.len(),
    ensures
        final(cells)@ == stored(old(cells)@, at@, bytes@),
{
    let mut i: usize = 0;
    while i < bytes.len()
        invariant
            i <= bytes@.len(),
            at@.len() == bytes@.len(),
            cells@ == stored(old(cells)@, at@.take(i as int), bytes@.take(i as int)),
        decreases bytes@.len() - i,
    {
        cells.insert(at[i], bytes[i]);
        proof {
            let next: int = i + 1;
            assert(at@.take(next).drop_last() =~= at@.take(i as int));
            assert(bytes@.take(next).drop_last() =~= bytes@.take(i as int));
        }
        i += 1;
    }
    assert(at@.take(i as int) =~= at@);
    assert(bytes@.take(i as int) =~= bytes@);
}

/// Reads the bytes in the cells `at`.
fn load(cells: &Table<u8>, at: &Vec<usize>) -> (bytes: Vec<u8>)
    ensures
        bytes@ == loaded(cells@, at@),
{
    let mut bytes: Vec<u8> = Vec::new();
    let mut i: usize = 0;
    while i < at.len()
        invariant
            i <= at@.len(),
            bytes@ == loaded(cells@, at@.take(i as int)),
        decreases at@.len() - i,
    {
        let byte = match cells.get(at[i]) {
            Some(found) => *found,
            None => 0,
        };
        bytes.push(byte);
        assert(bytes@ =~= loaded(cells@, at@.take(i + 1)));
        i += 1;
    }
    assert(at@.take(i as int) =~= at@);
    bytes
}

/// A simulated port space.
pub struct PortSpace {
    cells: Table<u8>,
}

impl PortSpace {
    /// The bytes written so far, by cell.
    pub closed spec fn view(&self) -> Map<usize, u8> {
        self.cells@
    }

    /// A port space in which nothing was written.
    pub fn new() -> (ports: Self)
        ensures
            ports@ == Map::<usize, u8>::empty(),
    {
        PortSpace { cells: Table::new() }
    }

    /// The cells of a value of `n` bytes at `port`.
    fn cells_of(port: u16, n: usize) -> (at: Vec<usize>)
        requires
            n <= 8,
        ensures
            at@ == port_cells(port, n as nat),
    {
        let mut at: Vec<usize> = Vec::new();
        let mut i: usize = 0;
        while i < n
            invariant
                i <= n <= 8,
                at@ == port_cells(port, i as nat),
            decreases n - i,
        {
            at.push((port as usize + i) % PORTS);
            assert(at@ =~= port_cells(port, (i + 1) as nat));
            i += 1;
        }
        at
    }

}

impl IoPort for PortSpace {
    /// Writes the bytes of `val` to the cells at `port`.
    fn outport<T: PortValue>(&mut self, port: u16, val: T)
        ensures
            final(self)@ == stored(old(self)@, port_cells(port, T::width()), val.le_bytes()),
    {
        proof {
            T::lemma_width();
            val.lemma_le_bytes();
        }
        let at = Self::cells_of(port, T::size());
        let bytes = val.encode();
        store(&mut self.cells, &at, &bytes);
    }

    /// Reads the value whose bytes are in the cells at `port`.
    fn inport<T: PortValue>(&self, port: u16) -> (val: T)
        ensures
            val == T::from_le(loaded(self@, port_cells(port, T::width()))),
    {
        proof {
            T::lemma_width();
        }
        let at = Self::cells_of(port, T::size());
        let bytes = load(&self.cells, &at);
        T::decode(&bytes)
    }
}

/// A simulated memory.
pub struct Memory {
    cells: Table<u8>,
}

impl Memory {
    /// The bytes written so far, by address.
    pub closed spec fn view(&self) -> Map<usize, u8> {
        self.cells@
    }

    /// A memory in which nothing was written.
    pub fn new() -> (memory: Self)
        ensures
            memory@ == Map::<usize, u8>::empty(),
    {
        Memory { cells: Table::new() }
    }

    /// The cells of a value of `n` bytes at `address`.
    fn cells_of(address: usize, n: usize) -> (at: Vec<usize>)
        requires
            address + n <= usize::MAX + 1,
        ensures
            at@ == memory_cells(address, n as nat),
    {
        let mut at: Vec<usize> = Vec::new();
        let mut i: usize = 0;
        while i < n
            invariant
                i <= n,
                address + n <= usize::MAX + 1,
                at@ == memory_cells(address, i as nat),
            decreases n - i,
        {
            at.push(address + i);
            assert(at@ =~= memory_cells(address, (i + 1) as nat));
            i += 1;
        }
        at
    }

}

impl Mmio for Memory {
    /// Writes the bytes of `val` to the cells at `address`.
    fn mmio_write<T: IoValue>(&mut self, address: usize, val: T)
        ensures
            final(self)@ == stored(old(self)@, memory_cells(address, T::width()), val.le_bytes()),
    {
        proof {
            T::lemma_width();
            val.lemma_le_bytes();
            T::lemma_aligned(address);
        }
        let at = Self::cells_of(address, T::size());
        let bytes = val.encode();
        store(&mut self.cells, &at, &bytes);
    }

    /// Reads the value whose bytes are in the cells at `address`.
    fn mmio_read<T: IoValue>(&self, address: usize) -> (val: T)
        ensures
            val == T::from_le(loaded(self@, memory_cells(address, T::width()))),
    {
        proof {
            T::lemma_width();
            T::lemma_aligned(address);
        }
        let at = Self::cells_of(address, T::size());
        let bytes = load(&self.cells, &at);
        T::decode(&bytes)
    }
}

} // verus!
