//! Addressable byte store with TPA address-latch, MRD/MWR strobes and
//! write-protect ranges.

use vstd::prelude::*;

use crate::instr::Instr;
use crate::rng;
use super::pins::Cdp1802Pins;

verus! {

#[derive(Debug, Clone, Copy, PartialEq, Eq, Structural)]
pub enum MemoryAccessMode {
    Read,
    Write,
}

/// One observed memory access: its direction, address and byte.
#[derive(Debug, Clone, Copy, PartialEq, Eq, Structural)]
pub struct MemoryAccess {
    pub mode: MemoryAccessMode,
    pub addr: u16,
    pub data: u8,
}

impl MemoryAccess {
    pub fn new(mode: MemoryAccessMode, addr: u16, data: u8) -> (r: Self)
        ensures
            r == (MemoryAccess { mode, addr, data }),
    {
        MemoryAccess { mode, addr, data }
    }

    pub fn read(addr: u16, data: u8) -> (r: Self)
        ensures
            r == (MemoryAccess { mode: MemoryAccessMode::Read, addr, data }),
    {
        MemoryAccess { mode: MemoryAccessMode::Read, addr, data }
    }

    pub fn write(addr: u16, data: u8) -> (r: Self)
        ensures
            r == (MemoryAccess { mode: MemoryAccessMode::Write, addr, data }),
    {
        MemoryAccess { mode: MemoryAccessMode::Write, addr, data }
    }
}

#[derive(Debug, Clone, Copy, PartialEq, Eq, Structural)]
pub enum MemoryAccessError {
    WriteProtectionFault(u16),
}

#[derive(Debug, Clone, Copy, PartialEq, Eq, Structural)]
pub enum MemoryBuilderError {
    ImageOutOfRange(u16),
    CapacityOutOfRange,
}

/// An inclusive address range; an open bound stretches to the memory's edge.
#[derive(Debug, Default, Clone, Copy, PartialEq, Eq, Structural)]
pub struct MemoryRange {
    pub start: Option<u16>,
    pub end: Option<u16>,
}

impl MemoryRange {
    /// Resolve the open bounds against the highest address `max`.
    pub open spec fn spec_resolve(self, max: u16) -> (u16, u16) {
        (
            match self.start {
                Some(s) => s,
                None => 0,
            },
            match self.end {
                Some(e) => e,
                None => max,
            },
        )
    }

    fn resolve(self, max: u16) -> (r: (u16, u16))
        ensures
            r == self.spec_resolve(max),
    {
        (
            match self.start {
                Some(s) => s,
                None => 0,
            },
            match self.end {
                Some(e) => e,
                None => max,
            },
        )
    }
}

/// The byte that the image list places at address `j`, if any; a later image
/// overwrites an earlier one.
pub open spec fn image_byte(images: Seq<(u16, Vec<u8>)>, j: int) -> Option<u8>
    decreases images.len(),
{
    if images.len() == 0 {
        None
    } else {
        let last = images.last();
        if last.0 <= j < last.0 + last.1@.len() {
            Some(last.1@[j - last.0])
        } else {
            image_byte(images.drop_last(), j)
        }
    }
}

/// Whether every image of the list fits below `cap`.
pub open spec fn images_fit(images: Seq<(u16, Vec<u8>)>, cap: nat) -> bool {
    forall|k: int|
        0 <= k < images.len() ==> #[trigger] images[k].0 + images[k].1@.len() <= cap
}

/// The powers of two up to 64 KiB, as a byte count of any width.
pub open spec fn spec_small_pow2(size: int) -> bool {
    size == 0x1 || size == 0x2 || size == 0x4 || size == 0x8 || size == 0x10 || size == 0x20
        || size == 0x40 || size == 0x80 || size == 0x100 || size == 0x200 || size == 0x400
        || size == 0x800 || size == 0x1000 || size == 0x2000 || size == 0x4000 || size == 0x8000
        || size == 0x10000
}

/// The powers of two up to 64 KiB: the capacities a memory can have.
pub open spec fn is_small_pow2(size: usize) -> bool {
    spec_small_pow2(size as int)
}

#[verifier::when_used_as_spec(is_small_pow2)]
fn is_small_pow2_exec(size: usize) -> (r: bool)
    ensures
        r == is_small_pow2(size),
{
    size == 0x1 || size == 0x2 || size == 0x4 || size == 0x8 || size == 0x10 || size == 0x20
        || size == 0x40 || size == 0x80 || size == 0x100 || size == 0x200 || size == 0x400
        || size == 0x800 || size == 0x1000 || size == 0x2000 || size == 0x4000 || size == 0x8000
        || size == 0x10000
}

/// Builds a [`Memory`]: a capacity that is a power of two up to 64 KiB, a
/// list of images to place, write-protect ranges, and an optional
/// pseudorandom fill.
#[must_use]
pub struct Builder {
    capacity: usize,
    images: Vec<(u16, Vec<u8>)>,
    write_protect: Vec<MemoryRange>,
    random: bool,
}

impl Builder {
    pub closed spec fn spec_capacity(self) -> usize {
        self.capacity
    }

    pub closed spec fn spec_images(self) -> Seq<(u16, Vec<u8>)> {
        self.images@
    }

    pub closed spec fn spec_write_protect(self) -> Seq<MemoryRange> {
        self.write_protect@
    }

    pub closed spec fn spec_random(self) -> bool {
        self.random
    }

    pub closed spec fn wf(self) -> bool {
        1 <= self.capacity <= 0x10000
    }
}

impl Default for Builder {
    fn default() -> (r: Self)
        ensures
            r.wf(),
            r.spec_capacity() == 0x10000usize,
            r.spec_images() == Seq::<(u16, Vec<u8>)>::empty(),
            r.spec_write_protect() == Seq::<MemoryRange>::empty(),
            !r.spec_random(),
    {
        Builder { capacity: 0x10000, images: Vec::new(), write_protect: Vec::new(), random: false }
    }
}

impl Builder {
    /// Select a capacity of `2^bits`; at most 16 address bits are available.
    pub fn with_address_width(self, bits: u8) -> (r: Result<Self, MemoryBuilderError>)
        ensures
            bits <= 16 <==> r is Ok,
            r matches Ok(b) ==> {
                &&& b.spec_capacity() == (1usize << (bits as usize))
                &&& b.spec_images() == self.spec_images()
                &&& b.spec_write_protect() == self.spec_write_protect()
                &&& b.spec_random() == self.spec_random()
                &&& b.wf()
            },
    {
        if bits > 16 {
            return Err(MemoryBuilderError::CapacityOutOfRange);
        }
        let cap: usize = 1usize << (bits as usize);
        proof {
            assert(bits <= 16 ==> 1usize << (bits as usize) >= 1 && 1usize << (bits as usize)
                <= 0x10000) by (bit_vector);
        }
        Ok(Builder { capacity: cap, ..self })
    }

    /// Select a capacity directly; it must be a power of two up to 64 KiB.
    pub fn with_capacity(self, size: usize) -> (r: Result<Self, MemoryBuilderError>)
        ensures
            r is Ok <==> is_small_pow2(size),
            r matches Ok(b) ==> {
                &&& b.spec_capacity() == size
                &&& b.spec_images() == self.spec_images()
                &&& b.spec_write_protect() == self.spec_write_protect()
                &&& b.spec_random() == self.spec_random()
                &&& b.wf()
            },
    {
        if is_small_pow2_exec(size) {
            Ok(Builder { capacity: size, ..self })
        } else {
            Err(MemoryBuilderError::CapacityOutOfRange)
        }
    }

    /// Place `data` at `addr` when the memory is built.
    pub fn with_image(self, addr: u16, data: Vec<u8>) -> (r: Self)
        ensures
            r.spec_images() == self.spec_images().push((addr, data)),
            r.spec_capacity() == self.spec_capacity(),
            r.spec_write_protect() == self.spec_write_protect(),
            r.spec_random() == self.spec_random(),
            r.wf() == self.wf(),
    {
        let mut b = self;
        b.images.push((addr, data));
        b
    }

    /// Fill the memory with pseudorandom bytes instead of zeros.
    pub fn with_random(self) -> (r: Self)
        ensures
            r.spec_random(),
            r.spec_capacity() == self.spec_capacity(),
            r.spec_images() == self.spec_images(),
            r.spec_write_protect() == self.spec_write_protect(),
            r.wf() == self.wf(),
    {
        Builder { random: true, ..self }
    }

    pub fn with_write_protect_range(self, range: MemoryRange) -> (r: Self)
        ensures
            r.spec_write_protect() == self.spec_write_protect().push(range),
            r.spec_capacity() == self.spec_capacity(),
            r.spec_images() == self.spec_images(),
            r.spec_random() == self.spec_random(),
            r.wf() == self.wf(),
    {
        let mut b = self;
        b.write_protect.push(range);
        b
    }

    pub fn with_write_protect_ranges(self, ranges: &Vec<MemoryRange>) -> (r: Self)
        ensures
            r.spec_write_protect() == self.spec_write_protect() + ranges@,
            r.spec_capacity() == self.spec_capacity(),
            r.spec_images() == self.spec_images(),
            r.spec_random() == self.spec_random(),
            r.wf() == self.wf(),
    {
        let mut b = self;
        let mut k: usize = 0;
        while k < ranges.len()
            invariant
                k <= ranges.len(),
                b.write_protect@ == self.spec_write_protect() + ranges@.take(k as int),
                b.capacity == self.capacity,
                b.images == self.images,
                b.random == self.random,
            decreases ranges.len() - k,
        {
            b.write_protect.push(ranges[k]);
            proof {
                assert(ranges@.take(k + 1) =~= ranges@.take(k as int).push(ranges@[k as int]));
            }
            k = k + 1;
        }
        proof {
            assert(ranges@.take(ranges@.len() as int) =~= ranges@);
        }
        b
    }

    /// Build the memory: the fill, then each image in turn; an image that
    /// runs past the capacity fails the build with its address.
    pub fn build(self) -> (r: Result<Memory, MemoryBuilderError>)
        requires
            self.wf(),
        ensures
            r is Ok <==> images_fit(self.spec_images(), self.spec_capacity() as nat),
            r matches Err(e) ==> (e matches MemoryBuilderError::ImageOutOfRange(a) && exists|k: int|
                0 <= k < self.spec_images().len() && (#[trigger] self.spec_images()[k]).0 == a
                    && self.spec_images()[k].0 + self.spec_images()[k].1@.len()
                    > self.spec_capacity()),
            r matches Ok(m) ==> {
                &&& m@.data.len() == self.spec_capacity()
                &&& m@.addr_hi == 0
                &&& m@.write_protect.len() == self.spec_write_protect().len()
                &&& (forall|k: int|
                    0 <= k < self.spec_write_protect().len() ==> #[trigger] m@.write_protect[k]
                        == self.spec_write_protect()[k].spec_resolve(
                        (self.spec_capacity() - 1) as u16,
                    ))
                &&& (forall|j: int|
                    0 <= j < m@.data.len() && image_byte(self.spec_images(), j) is Some
                        ==> #[trigger] m@.data[j] == image_byte(self.spec_images(), j)->Some_0)
                &&& (!self.spec_random() ==> forall|j: int|
                    0 <= j < m@.data.len() && image_byte(self.spec_images(), j) is None
                        ==> #[trigger] m@.data[j] == 0)
            },
    {
        let mut data: Vec<u8> = if self.random {
            rng::random_bytes(self.capacity)
        } else {
            vec![0u8; self.capacity]
        };
        let ghost init = data@;
        let mut k: usize = 0;
        while k < self.images.len()
            invariant
                k <= self.images.len(),
                data@.len() == init.len() == self.capacity,
                images_fit(self.images@.take(k as int), self.capacity as nat),
                forall|j: int|
                    0 <= j < data@.len() ==> #[trigger] data@[j] == (match image_byte(
                        self.images@.take(k as int),
                        j,
                    ) {
                        Some(b) => b,
                        None => init[j],
                    }),
            decreases self.images.len() - k,
        {
            let addr = self.images[k].0;
            let len = self.images[k].1.len();
            if addr as usize > self.capacity || len > self.capacity - addr as usize {
                proof {
                    assert(0 <= k < self.spec_images().len() && self.spec_images()[k as int].0
                        == addr && self.spec_images()[k as int].0 + self.spec_images()[
                        k as int].1@.len() > self.spec_capacity());
                }
                return Err(MemoryBuilderError::ImageOutOfRange(addr));
            }
            let ghost before = data@;
            let mut jj: usize = 0;
            while jj < len
                invariant
                    jj <= len,
                    k < self.images.len(),
                    len == self.images@[k as int].1@.len(),
                    addr == self.images@[k as int].0,
                    addr + len <= self.capacity,
                    data@.len() == before.len() == self.capacity,
                    forall|j: int|
                        0 <= j < data@.len() && !(addr <= j < addr + jj) ==> #[trigger] data@[j]
                            == before[j],
                    forall|j: int|
                        addr <= j < addr + jj ==> #[trigger] data@[j] == self.images@[k as int].1@[j
                            - addr],
                decreases len - jj,
            {
                let b = self.images[k].1[jj];
                data[addr as usize + jj] = b;
                jj = jj + 1;
            }
            proof {
                let imgs1 = self.images@.take(k + 1);
                assert(imgs1.last() == self.images@[k as int]);
                assert(imgs1.drop_last() =~= self.images@.take(k as int));
                assert forall|j: int| 0 <= j < data@.len() implies #[trigger] data@[j] == (
                match image_byte(imgs1, j) {
                    Some(b) => b,
                    None => init[j],
                }) by {
                    if addr <= j < addr + len {
                    } else {
                        assert(data@[j] == before[j]);
                    }
                }
            }
            k = k + 1;
        }
        proof {
            assert(self.images@.take(self.images@.len() as int) =~= self.images@);
        }
        let max_addr = (self.capacity - 1) as u16;
        let mut write_protect: Vec<(u16, u16)> = Vec::new();
        let mut k2: usize = 0;
        while k2 < self.write_protect.len()
            invariant
                k2 <= self.write_protect.len(),
                write_protect@.len() == k2,
                forall|k: int|
                    0 <= k < k2 ==> #[trigger] write_protect@[k]
                        == self.write_protect@[k].spec_resolve(max_addr),
            decreases self.write_protect.len() - k2,
        {
            let rr = self.write_protect[k2].resolve(max_addr);
            write_protect.push(rr);
            k2 = k2 + 1;
        }
        Ok(Memory { data, write_protect, addr_hi: 0 })
    }
}

/// The mathematical value of a [`Memory`].
#[verifier::ext_equal]
pub struct MemModel {
    pub data: Seq<u8>,
    pub write_protect: Seq<(u16, u16)>,
    pub addr_hi: u8,
}

impl MemModel {
    /// Whether `addr` lies in no write-protect range.
    pub open spec fn writable(self, addr: u16) -> bool {
        forall|k: int|
            0 <= k < self.write_protect.len()
                ==> !(#[trigger] self.write_protect[k].0 <= addr <= self.write_protect[k].1)
    }

    /// The full address of an access: the latched high byte (refreshed on
    /// TPA) over the MA lines.
    pub open spec fn full_addr(self, pins: Cdp1802Pins) -> u16 {
        let hi: u8 = if pins.get_tpa() {
            pins.get_ma()
        } else {
            self.addr_hi
        };
        (((hi as u16) << 8) | (pins.get_ma() as u16)) as u16
    }

    /// One memory tick: latch the high address on TPA; drive BUS from memory
    /// while MRD is low; store BUS while MWR is low and writes are enabled,
    /// unless the address is write-protected.
    pub open spec fn tick_spec(self, pins: Cdp1802Pins, write_enable: bool) -> (
        MemModel,
        Cdp1802Pins,
        Result<Option<MemoryAccess>, MemoryAccessError>,
    ) {
        let hi: u8 = if pins.get_tpa() {
            pins.get_ma()
        } else {
            self.addr_hi
        };
        let m1 = MemModel { addr_hi: hi, ..self };
        let addr = m1.full_addr(pins);
        if !pins.get_mrd() {
            let byte = m1.data[addr as int];
            (
                m1,
                pins.spec_set_bus(byte),
                Ok(Some(MemoryAccess { mode: MemoryAccessMode::Read, addr, data: byte })),
            )
        } else if write_enable && !pins.get_mwr() {
            if !m1.writable(addr) {
                (m1, pins, Err(MemoryAccessError::WriteProtectionFault(addr)))
            } else {
                let byte = pins.get_bus();
                (
                    MemModel { data: m1.data.update(addr as int, byte), ..m1 },
                    pins,
                    Ok(Some(MemoryAccess { mode: MemoryAccessMode::Write, addr, data: byte })),
                )
            }
        } else {
            (m1, pins, Ok(None))
        }
    }
}



/// The value of [`Memory::get_instr_at`]: decode from a window of up to
/// three bytes at `addr`, clamped to the data's end; `None` when fewer than
/// two bytes remain there.
pub open spec fn spec_instr_at(data: Seq<u8>, addr: u16) -> Option<Instr> {
    let start = addr as int;
    let end = if start + 2 <= data.len() - 1 {
        start + 2
    } else {
        data.len() - 1
    };
    if start >= end {
        None
    } else {
        Instr::decode_spec(data.subrange(start, end + 1))
    }
}

/// The memory run over a sequence of ticks, each with its pins and
/// write-enable flag.
pub open spec fn mem_run(m: MemModel, ticks: Seq<(Cdp1802Pins, bool)>) -> MemModel
    decreases ticks.len(),
{
    if ticks.len() == 0 {
        m
    } else {
        mem_run(m.tick_spec(ticks[0].0, ticks[0].1).0, ticks.drop_first())
    }
}

/// The latched high address byte survives any run of ticks that hold TPA
/// low.
pub proof fn lemma_no_tpa_hold(m: MemModel, ticks: Seq<(Cdp1802Pins, bool)>)
    requires
        forall|k: int| 0 <= k < ticks.len() ==> !(#[trigger] ticks[k].0.get_tpa()),
    ensures
        mem_run(m, ticks).addr_hi == m.addr_hi,
    decreases ticks.len(),
{
    if ticks.len() > 0 {
        let m1 = m.tick_spec(ticks[0].0, ticks[0].1).0;
        assert(!ticks[0].0.get_tpa());
        assert(m1.addr_hi == m.addr_hi);
        assert forall|k: int| 0 <= k < ticks.drop_first().len() implies !(
        #[trigger] ticks.drop_first()[k].0.get_tpa()) by {
            assert(ticks.drop_first()[k] == ticks[k + 1]);
        }
        lemma_no_tpa_hold(m1, ticks.drop_first());
    }
}

/// The TPA latch: a tick whose pins raise TPA with `hi` on the MA lines
/// latches `hi` as the high address byte, and every read or write performed
/// during the following ticks that hold TPA low targets the address built
/// from `hi` and that tick's own MA byte, until the next TPA edge.
pub proof fn lemma_tpa_latch(
    m: MemModel,
    pins: Cdp1802Pins,
    we: bool,
    ticks: Seq<(Cdp1802Pins, bool)>,
)
    requires
        pins.get_tpa(),
        forall|k: int| 0 <= k < ticks.len() ==> !(#[trigger] ticks[k].0.get_tpa()),
    ensures
        m.tick_spec(pins, we).0.addr_hi == pins.get_ma(),
        mem_run(m.tick_spec(pins, we).0, ticks).addr_hi == pins.get_ma(),
        forall|j: int|
            0 <= j < ticks.len() ==> (#[trigger] mem_run(
                m.tick_spec(pins, we).0,
                ticks.take(j),
            ).tick_spec(ticks[j].0, ticks[j].1).2 matches Ok(acc) ==> (acc matches Some(a)
                ==> a.addr == ((((pins.get_ma() as u16) << 8) | (ticks[j].0.get_ma() as u16)) as u16))),
{
    let m1 = m.tick_spec(pins, we).0;
    lemma_no_tpa_hold(m1, ticks);
    assert forall|j: int| 0 <= j < ticks.len() implies (#[trigger] mem_run(
        m1,
        ticks.take(j),
    ).tick_spec(ticks[j].0, ticks[j].1).2 matches Ok(acc) ==> (acc matches Some(a) ==> a.addr == ((((
    pins.get_ma() as u16) << 8) | (ticks[j].0.get_ma() as u16)) as u16))) by {
        assert forall|k: int| 0 <= k < ticks.take(j).len() implies !(
        #[trigger] ticks.take(j)[k].0.get_tpa()) by {
            assert(ticks.take(j)[k] == ticks[k]);
        }
        lemma_no_tpa_hold(m1, ticks.take(j));
        assert(mem_run(m1, ticks.take(j)).addr_hi == pins.get_ma());
        assert(!ticks[j].0.get_tpa());
    }
}

/// A byte-addressable memory with a TPA-latched high address byte and a list
/// of write-protected inclusive ranges, immutable after construction.
#[derive(Debug, Clone)]
pub struct Memory {
    data: Vec<u8>,
    write_protect: Vec<(u16, u16)>,
    addr_hi: u8,
}

impl View for Memory {
    type V = MemModel;

    closed spec fn view(&self) -> MemModel {
        MemModel { data: self.data@, write_protect: self.write_protect@, addr_hi: self.addr_hi }
    }
}

impl Default for Memory {
    /// 64 KiB of zeros with no write protection.
    fn default() -> (r: Self)
        ensures
            r@.data.len() == 0x10000,
            forall|j: int| 0 <= j < r@.data.len() ==> #[trigger] r@.data[j] == 0,
            r@.write_protect.len() == 0,
            r@.addr_hi == 0,
    {
        let data: Vec<u8> = vec![0u8; 0x10000];
        Memory { data, write_protect: Vec::new(), addr_hi: 0 }
    }
}

impl Memory {
    pub fn builder() -> (r: Builder)
        ensures
            r.wf(),
            r.spec_capacity() == 0x10000usize,
            r.spec_images() == Seq::<(u16, Vec<u8>)>::empty(),
            r.spec_write_protect() == Seq::<MemoryRange>::empty(),
            !r.spec_random(),
    {
        Builder::default()
    }

    /// The stored bytes.
    pub fn as_slice(&self) -> (r: &[u8])
        ensures
            r@ == self@.data,
    {
        self.data.as_slice()
    }

    /// Read one byte directly, for debugger pokes.
    pub fn get(&self, addr: u16) -> (r: u8)
        requires
            addr < self@.data.len(),
        ensures
            r == self@.data[addr as int],
    {
        self.data[addr as usize]
    }

    /// Write one byte directly, for debugger pokes.
    pub fn set(&mut self, addr: u16, value: u8)
        requires
            addr < old(self)@.data.len(),
        ensures
            final(self)@.data == old(self)@.data.update(addr as int, value),
            final(self)@.write_protect == old(self)@.write_protect,
            final(self)@.addr_hi == old(self)@.addr_hi,
    {
        self.data[addr as usize] = value;
    }

    /// Whether `addr` lies in no write-protect range.
    pub fn is_writable(&self, addr: u16) -> (r: bool)
        ensures
            r == self@.writable(addr),
    {
        let mut k: usize = 0;
        while k < self.write_protect.len()
            invariant
                k <= self.write_protect@.len(),
                forall|j: int|
                    0 <= j < k ==> !(#[trigger] self.write_protect@[j].0 <= addr
                        <= self.write_protect@[j].1),
            decreases self.write_protect@.len() - k,
        {
            let (s, e) = self.write_protect[k];
            if s <= addr && addr <= e {
                proof {
                    assert(self@.write_protect[k as int].0 <= addr <= self@.write_protect[
                        k as int].1);
                }
                return false;
            }
            k = k + 1;
        }
        true
    }

    /// The instruction decoded from up to three bytes at `addr`, clamped to
    /// the memory's end; the window must hold at least two bytes.
    pub fn get_instr_at(&self, addr: u16) -> (r: Option<Instr>)
        requires
            self@.data.len() >= 1,
        ensures
            r == spec_instr_at(self@.data, addr),
    {
        let start = addr as usize;
        let len = self.data.len();
        let end = if start + 2 <= len - 1 {
            start + 2
        } else {
            len - 1
        };
        if start >= end {
            return None;
        }
        let mut buf: Vec<u8> = Vec::new();
        let mut j = start;
        while j <= end
            invariant
                start <= j <= end + 1,
                end <= 0x10001,
                end < self@.data.len(),
                buf@ == self@.data.subrange(start as int, j as int),
            decreases end + 1 - j,
        {
            let b = self.data[j];
            buf.push(b);
            proof {
                assert(self@.data.subrange(start as int, j + 1) =~= self@.data.subrange(
                    start as int,
                    j as int,
                ).push(b));
            }
            j = j + 1;
        }
        Instr::decode(buf.as_slice())
    }

    /// One memory tick against the shared pins; see [`MemModel::tick_spec`].
    pub fn tick(&mut self, pins: &mut Cdp1802Pins, write_enable: bool) -> (r: Result<
        Option<MemoryAccess>,
        MemoryAccessError,
    >)
        requires
            old(self)@.full_addr(*old(pins)) < old(self)@.data.len() || (old(pins).get_mrd() && (
            old(pins).get_mwr() || !write_enable)),
        ensures
            (final(self)@, *final(pins), r) == old(self)@.tick_spec(*old(pins), write_enable),
    {
        // TPA strobe to latch the high address byte.
        if pins.get_tpa() {
            self.addr_hi = pins.get_ma();
        }
        if !pins.get_mrd() {
            // MRD low: read data from memory onto the bus.
            let addr_lo = pins.get_ma();
            let addr = ((self.addr_hi as u16) << 8) | (addr_lo as u16);
            let data = self.data[addr as usize];
            pins.set_bus(data);
            Ok(Some(MemoryAccess::read(addr, data)))
        } else if write_enable && !pins.get_mwr() {
            // MWR low: write the bus into memory.
            let addr_lo = pins.get_ma();
            let addr = ((self.addr_hi as u16) << 8) | (addr_lo as u16);
            if !self.is_writable(addr) {
                return Err(MemoryAccessError::WriteProtectionFault(addr));
            }
            let data = pins.get_bus();
            self.data[addr as usize] = data;
            Ok(Some(MemoryAccess::write(addr, data)))
        } else {
            Ok(None)
        }
    }
}

} // verus!
