//! A flat 64 KiB bus: every address is readable and writable RAM.
use vstd::prelude::*;

verus! {

/// Size of the 16-bit address space.
pub const ADDRESS_SPACE: usize = 0x10000;

/// `c + k`, held at the largest `u64`.
pub open spec fn sat(c: u64, k: int) -> u64 {
    if c + k > u64::MAX {
        u64::MAX
    } else {
        (c + k) as u64
    }
}

/// One bus cycle as the bus sees it.
#[derive(Clone, Copy, Debug, PartialEq, Eq, Structural)]
pub struct BusAccess {
    pub addr: u16,
    /// True for a write, false for a read.
    pub write: bool,
    /// The byte read or written.
    pub value: u8,
}

/// A read cycle at `addr` of memory `mem`.
pub open spec fn rd(mem: Seq<u8>, addr: u16) -> BusAccess {
    BusAccess { addr, write: false, value: mem[addr as int] }
}

/// A write cycle of `value` at `addr`.
pub open spec fn wr(addr: u16, value: u8) -> BusAccess {
    BusAccess { addr, write: true, value }
}

/// `new` is `old` followed by `k` more bus cycles.
pub open spec fn extends(old: Seq<BusAccess>, new: Seq<BusAccess>, k: int) -> bool {
    &&& new.len() == old.len() + k
    &&& forall|j: int| 0 <= j < old.len() ==> #[trigger] new[j] == old[j]
}

/// The last bus cycles of `log` are `tail`.
pub open spec fn ends_with(log: Seq<BusAccess>, tail: Seq<BusAccess>) -> bool {
    &&& tail.len() <= log.len()
    &&& forall|j: int| 0 <= j < tail.len() ==> #[trigger] log[log.len() - tail.len() + j] == tail[j]
}

/// Byte-addressed memory covering the whole 16-bit address space. Accesses made as bus
/// cycles (`read`, `write`) are counted; inspection and loading (`get`, `set`, `load`)
/// are not.
pub struct Memory {
    bytes: [u8; 0x10000],
    accesses: u64,
    log: Ghost<Seq<BusAccess>>,
}

impl View for Memory {
    type V = Seq<u8>;

    closed spec fn view(&self) -> Seq<u8> {
        self.bytes@
    }
}

impl Memory {
    /// Bus cycles seen so far.
    pub closed spec fn bus_cycles(&self) -> u64 {
        self.accesses
    }

    /// Every bus cycle seen so far, in order.
    pub closed spec fn log(&self) -> Seq<BusAccess> {
        self.log@
    }

    /// Bus cycles seen so far.
    pub fn bus_accesses(&self) -> (r: u64)
        ensures
            r == self.bus_cycles(),
    {
        self.accesses
    }

    /// One bus read cycle: the byte at `addr`.
    pub fn read(&mut self, addr: u16) -> (r: u8)
        ensures
            r == old(self)@[addr as int],
            final(self)@ == old(self)@,
            final(self).bus_cycles() == sat(old(self).bus_cycles(), 1),
            final(self).log() == old(self).log().push(rd(old(self)@, addr)),
    {
        self.log = Ghost(self.log@.push(rd(self@, addr)));
        self.accesses = self.accesses.saturating_add(1);
        self.bytes[addr as usize]
    }

    /// One bus write cycle: stores `v` at `addr`.
    pub fn write(&mut self, addr: u16, v: u8)
        ensures
            final(self)@ == old(self)@.update(addr as int, v),
            final(self).bus_cycles() == sat(old(self).bus_cycles(), 1),
            final(self).log() == old(self).log().push(wr(addr, v)),
    {
        self.log = Ghost(self.log@.push(wr(addr, v)));
        self.accesses = self.accesses.saturating_add(1);
        self.bytes[addr as usize] = v;
    }

    /// The view always covers the whole address space.
    pub proof fn lemma_len(&self)
        ensures
            self@.len() == ADDRESS_SPACE,
    {
    }

    /// Memory with every byte zero.
    pub fn new() -> (r: Self)
        ensures
            r@.len() == ADDRESS_SPACE,
            forall|i: int| 0 <= i < ADDRESS_SPACE ==> r@[i] == 0,
            r.bus_cycles() == 0,
            r.log() == Seq::<BusAccess>::empty(),
    {
        Memory { bytes: [0u8; 0x10000], accesses: 0, log: Ghost(Seq::empty()) }
    }

    /// Memory holding `image` from address 0 on; the rest is zero.
    pub fn new_with_rom(image: &[u8]) -> (r: Self)
        requires
            image@.len() <= ADDRESS_SPACE,
        ensures
            r@.len() == ADDRESS_SPACE,
            forall|i: int| 0 <= i < image@.len() ==> r@[i] == image@[i],
            forall|i: int| image@.len() <= i < ADDRESS_SPACE ==> r@[i] == 0,
            r.bus_cycles() == 0,
    {
        let mut m = Memory::new();
        m.load(image, 0);
        assert forall|i: int| 0 <= i < image@.len() implies m@[i] == image@[i] by {
            assert((0 + i) % 0x10000 == i);
        }
        assert forall|i: int| image@.len() <= i < ADDRESS_SPACE implies m@[i] == 0 by {
            assert((i - 0) % 0x10000 == i);
        }
        m
    }

    /// The byte at `addr`, looked at without a bus cycle.
    pub fn get(&self, addr: u16) -> (r: u8)
        ensures
            r == self@[addr as int],
    {
        self.bytes[addr as usize]
    }

    /// Stores `v` at `addr` without a bus cycle.
    pub fn set(&mut self, addr: u16, v: u8)
        ensures
            final(self)@ == old(self)@.update(addr as int, v),
            final(self).bus_cycles() == old(self).bus_cycles(),
            final(self).log() == old(self).log(),
    {
        self.bytes[addr as usize] = v;
    }

    /// Copies `data` to consecutive addresses from `addr` on, wrapping at the top, without
    /// bus cycles.
    pub fn load(&mut self, data: &[u8], addr: u16)
        requires
            data@.len() <= ADDRESS_SPACE,
        ensures
            final(self)@.len() == ADDRESS_SPACE,
            final(self).bus_cycles() == old(self).bus_cycles(),
            final(self).log() == old(self).log(),
            forall|i: int|
                0 <= i < data@.len() ==> #[trigger] final(self)@[(addr + i) % 0x10000] == data@[i],
            forall|j: int|
                0 <= j < ADDRESS_SPACE && !(0 <= (j - addr) % 0x10000 < data@.len())
                    ==> #[trigger] final(self)@[j] == old(self)@[j],
    {
        let ghost start = self@;
        let mut i: usize = 0;
        while i < data.len()
            invariant
                i <= data@.len() <= ADDRESS_SPACE,
                self@.len() == ADDRESS_SPACE,
                self.bus_cycles() == old(self).bus_cycles(),
                self.log() == old(self).log(),
                start.len() == ADDRESS_SPACE,
                forall|k: int| 0 <= k < i ==> #[trigger] self@[(addr + k) % 0x10000] == data@[k],
                forall|j: int|
                    0 <= j < ADDRESS_SPACE && !(0 <= (j - addr) % 0x10000 < i) ==> #[trigger] self@[j]
                        == start[j],
            decreases data@.len() - i,
        {
            let at: u16 = ((addr as usize + i) % ADDRESS_SPACE) as u16;
            self.set(at, data[i]);
            assert forall|k: int| 0 <= k < i + 1 implies #[trigger] self@[(addr + k) % 0x10000] == data@[k] by {
                if k < i {
                    assert((addr + k) % 0x10000 != (addr + i) % 0x10000);
                }
            }
            assert forall|j: int|
                0 <= j < ADDRESS_SPACE && !(0 <= (j - addr) % 0x10000 < i + 1) implies #[trigger] self@[j]
                    == start[j] by {
                if j == at as int {
                    assert((j - addr) % 0x10000 == i);
                }
            }
            i = i + 1;
        }
    }
}

} // verus!
