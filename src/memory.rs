use vstd::prelude::*;

verus! {

/// Size of the address space: every 16-bit address names one byte.
pub const ADDRESSABLE_MEMORY: usize = 65536;

/// The 16-bit little-endian word made of a low and a high byte.
pub open spec fn word(lo: u8, hi: u8) -> u16 {
    (lo as int + hi as int * 256) as u16
}

/// The low byte of a word.
pub open spec fn low_byte(w: u16) -> u8 {
    (w % 256) as u8
}

/// The high byte of a word.
pub open spec fn high_byte(w: u16) -> u8 {
    (w / 256) as u8
}

/// The address that follows `a`, wrapping from 0xFFFF to 0x0000.
pub open spec fn next_addr(a: u16) -> u16 {
    ((a as int + 1) % 65536) as u16
}

/// The little-endian word at `a` and the address after it.
pub open spec fn word_at(m: Seq<u8>, a: u16) -> u16 {
    word(m[a as int], m[next_addr(a) as int])
}

/// The little-endian word whose bytes lie at `base` and `base + 1` within the zero page.
pub open spec fn zero_page_word_at(m: Seq<u8>, base: u8) -> u16 {
    word(m[base as int], m[((base as int + 1) % 256)])
}

/// Names the value that seahash's `hash` gives for a sequence of bytes.
pub uninterp spec fn seahash_of(b: Seq<u8>) -> u64;

/// Relies on `seahash::hash`: a 64-bit digest that depends on the bytes alone.
#[verifier::external_body]
fn digest(b: &[u8]) -> (r: u64)
    ensures
        r == seahash_of(b@),
{
    seahash::hash(b)
}

/// A flat 64 KiB memory that maps each address to its own byte.
pub struct SimpleMemory {
    addr: Vec<u8>,
}

impl View for SimpleMemory {
    type V = Seq<u8>;

    closed spec fn view(&self) -> Seq<u8> {
        self.addr@
    }
}

impl SimpleMemory {
    /// Whether the memory holds exactly one byte per address.
    pub open spec fn wf(&self) -> bool {
        self@.len() == ADDRESSABLE_MEMORY
    }

    /// A memory in which every byte is zero.
    pub fn new() -> (r: SimpleMemory)
        ensures
            r.wf(),
            r@ == Seq::new(65536, |i: int| 0u8),
    {
        let addr: Vec<u8> = vec![0u8; ADDRESSABLE_MEMORY];
        let r = SimpleMemory { addr };
        assert(r@ =~= Seq::new(65536, |i: int| 0u8));
        r
    }

    pub fn read(&self, addr: u16) -> (r: u8)
        requires
            self.wf(),
        ensures
            r == self@[addr as int],
    {
        self.addr[addr as usize]
    }

    pub fn write(&mut self, addr: u16, data: u8)
        requires
            old(self).wf(),
        ensures
            final(self).wf(),
            final(self)@ == old(self)@.update(addr as int, data),
    {
        self.addr.set(addr as usize, data);
    }

    /// Reads the little-endian word at `addr` and the address after it.
    pub fn read16(&self, addr: u16) -> (r: u16)
        requires
            self.wf(),
        ensures
            r == word_at(self@, addr),
    {
        let lo = self.read(addr);
        let next: u16 = if addr == 0xFFFF { 0 } else { addr + 1 };
        let hi = self.read(next);
        lo as u16 + (hi as u16) * 256
    }

    /// Reads a word from the zero page: the high byte comes from `(base + 1) & 0xFF`.
    pub fn read16_zp(&self, base: u8) -> (r: u16)
        requires
            self.wf(),
        ensures
            r == zero_page_word_at(self@, base),
    {
        let lo = self.read(base as u16);
        let next: u8 = if base == 0xFF { 0 } else { base + 1 };
        let hi = self.read(next as u16);
        lo as u16 + (hi as u16) * 256
    }

    /// Writes `data` at consecutive addresses from `addr` on.
    pub fn store_many(&mut self, addr: u16, data: &[u8])
        requires
            old(self).wf(),
            addr as int + data@.len() <= ADDRESSABLE_MEMORY,
        ensures
            final(self).wf(),
            forall|i: int|
                0 <= i < ADDRESSABLE_MEMORY ==> #[trigger] final(self)@[i] == if addr <= i < addr
                    + data@.len() {
                    data@[i - addr]
                } else {
                    old(self)@[i]
                },
    {
        let mut i: usize = 0;
        while i < data.len()
            invariant
                self.wf(),
                addr as int + data@.len() <= ADDRESSABLE_MEMORY,
                0 <= i <= data@.len(),
                forall|j: int|
                    0 <= j < ADDRESSABLE_MEMORY ==> #[trigger] self@[j] == if addr <= j < addr
                        + i {
                        data@[j - addr]
                    } else {
                        old(self)@[j]
                    },
            decreases data@.len() - i,
        {
            self.write(addr + i as u16, data[i]);
            i = i + 1;
        }
    }

    /// A copy of the whole address space, address 0 first.
    pub fn dump(&self) -> (r: Vec<u8>)
        ensures
            r@ == self@,
    {
        self.addr.clone()
    }

    /// seahash's digest of the whole address space.
    pub fn hash(&self) -> (r: u64)
        ensures
            r == seahash_of(self@),
    {
        digest(self.addr.as_slice())
    }
}

} // verus!
