//! The guest's linear memory and the translation of guest offsets into
//! checked ranges of it.

use byteorder::{ByteOrder, LittleEndian};
use vstd::prelude::*;

verus! {

/// The number that four bytes hold, least significant byte first.
pub open spec fn le_value(b: Seq<u8>) -> int
    recommends
        b.len() == 4,
{
    b[0] as int + 256 * (b[1] as int) + 65536 * (b[2] as int) + 16777216 * (b[3] as int)
}

/// The four bytes of `n`, least significant first.
pub open spec fn le_bytes(n: u32) -> Seq<u8> {
    seq![
        (n % 256) as u8,
        (n / 256 % 256) as u8,
        (n / 65536 % 256) as u8,
        (n / 16777216) as u8,
    ]
}

/// `s` with the bytes from `at` on replaced by `b`.
pub open spec fn splice(s: Seq<u8>, at: int, b: Seq<u8>) -> Seq<u8> {
    s.subrange(0, at) + b + s.subrange(at + b.len(), s.len() as int)
}

/// Whether `[offset, offset + len)` lies inside a memory of `size` bytes.
pub open spec fn in_bounds(size: int, offset: int, len: int) -> bool {
    0 <= offset && 0 <= len && offset + len <= size
}

/// A NUL-terminated string of `len` bytes starts at `ptr` in `mem`.
pub open spec fn cstr_at(mem: Seq<u8>, ptr: int, len: int) -> bool {
    &&& 0 <= ptr
    &&& 0 <= len
    &&& ptr + len < mem.len()
    &&& mem[ptr + len] == 0
    &&& forall|i: int| ptr <= i < ptr + len ==> #[trigger] mem[i] != 0
}

/// Relies on byteorder's `LittleEndian::read_u32`: the first four bytes of
/// the slice, least significant first.
#[verifier::external_body]
fn read_le_u32(bytes: &Vec<u8>, at: usize) -> (r: u32)
    requires
        at + 4 <= bytes@.len(),
    ensures
        r as int == le_value(bytes@.subrange(at as int, at + 4)),
{
    LittleEndian::read_u32(&bytes[at..])
}

/// Relies on byteorder's `LittleEndian::write_u32`: the four bytes of `n`,
/// least significant first, over the first four of the slice.
#[verifier::external_body]
fn write_le_u32(bytes: &mut Vec<u8>, at: usize, n: u32)
    requires
        at + 4 <= old(bytes)@.len(),
    ensures
        final(bytes)@ == splice(old(bytes)@, at as int, le_bytes(n)),
{
    LittleEndian::write_u32(&mut bytes[at..], n)
}

/// A checked span of guest memory.
#[derive(Debug, Clone, Copy, PartialEq, Eq, Structural)]
pub struct GuestRange {
    pub start: usize,
    pub end: usize,
}

/// The guest's linear memory: a byte buffer that may only grow.
pub struct GuestMemory {
    bytes: Vec<u8>,
}

impl View for GuestMemory {
    type V = Seq<u8>;

    closed spec fn view(&self) -> Seq<u8> {
        self.bytes@
    }
}

impl GuestMemory {
    /// A memory of `size` zero bytes.
    pub fn new(size: usize) -> (r: GuestMemory)
        ensures
            r@ == Seq::new(size as nat, |i: int| 0u8),
    {
        let mut m = GuestMemory { bytes: Vec::new() };
        m.grow(size);
        m
    }

    /// A memory that holds `bytes`.
    pub fn from_bytes(bytes: Vec<u8>) -> (r: GuestMemory)
        ensures
            r@ == bytes@,
    {
        GuestMemory { bytes }
    }

    pub fn len(&self) -> (r: usize)
        ensures
            r == self@.len(),
    {
        self.bytes.len()
    }

    pub fn as_slice(&self) -> (r: &[u8])
        ensures
            r@ == self@,
    {
        self.bytes.as_slice()
    }

    /// Appends `additional` zero bytes.
    pub fn grow(&mut self, additional: usize)
        requires
            old(self)@.len() + additional <= usize::MAX,
        ensures
            final(self)@ == old(self)@ + Seq::new(additional as nat, |i: int| 0u8),
    {
        let ghost start = self@;
        let mut i: usize = 0;
        while i < additional
            invariant
                i <= additional,
                start.len() + additional <= usize::MAX,
                self@ =~= start + Seq::new(i as nat, |j: int| 0u8),
            decreases additional - i,
        {
            self.bytes.push(0u8);
            i = i + 1;
        }
    }

    /// Checks `[offset, offset + len)` against the memory's current size.
    /// Every span that ends past the memory, or whose end overflows, is
    /// refused.
    pub fn translate(&self, offset: u32, len: u32) -> (r: Option<GuestRange>)
        ensures
            r is Some <==> in_bounds(self@.len() as int, offset as int, len as int),
            r matches Some(g) ==> g.start == offset && g.end == offset + len,
    {
        let size = self.bytes.len();
        if (offset as u64) + (len as u64) <= size as u64 {
            Some(GuestRange { start: offset as usize, end: offset as usize + len as usize })
        } else {
            None
        }
    }

    /// A copy of `len` bytes from `offset`, if they lie inside the memory.
    pub fn read_bytes(&self, offset: u32, len: u32) -> (r: Option<Vec<u8>>)
        ensures
            r is Some <==> in_bounds(self@.len() as int, offset as int, len as int),
            r matches Some(v) ==> v@ == self@.subrange(offset as int, offset + len),
    {
        match self.translate(offset, len) {
            None => None,
            Some(g) => {
                let mut out: Vec<u8> = Vec::new();
                let mut i: usize = g.start;
                while i < g.end
                    invariant
                        g.start <= i <= g.end,
                        g.end <= self@.len(),
                        out@ =~= self@.subrange(g.start as int, i as int),
                    decreases g.end - i,
                {
                    out.push(self.bytes[i]);
                    i = i + 1;
                }
                Some(out)
            },
        }
    }

    /// The bytes of the NUL-terminated string at `ptr`, without the NUL, if
    /// the memory holds a NUL at or after `ptr`.
    pub fn read_cstr(&self, ptr: u32) -> (r: Option<Vec<u8>>)
        ensures
            r is Some <==> exists|len: int| cstr_at(self@, ptr as int, len),
            r matches Some(v) ==> cstr_at(self@, ptr as int, v@.len() as int) && v@ == self@.subrange(
                ptr as int,
                ptr + v@.len(),
            ),
    {
        let mut out: Vec<u8> = Vec::new();
        let mut i: usize = ptr as usize;
        if i >= self.bytes.len() {
            assert forall|len: int| !cstr_at(self@, ptr as int, len) by {}
            return None;
        }
        while i < self.bytes.len()
            invariant
                ptr <= i <= self@.len(),
                out@ =~= self@.subrange(ptr as int, i as int),
                forall|k: int| ptr <= k < i ==> #[trigger] self@[k] != 0,
            decreases self@.len() - i,
        {
            let b = self.bytes[i];
            if b == 0 {
                assert(cstr_at(self@, ptr as int, out@.len() as int));
                return Some(out);
            }
            out.push(b);
            i = i + 1;
        }
        assert forall|len: int| !cstr_at(self@, ptr as int, len) by {
            if 0 <= len && ptr + len < self@.len() {
                assert(self@[ptr + len] != 0);
            }
        }
        None
    }

    /// Copies `data` into the memory at `offset` if it fits there; otherwise
    /// leaves the memory as it was.
    pub fn write_bytes(&mut self, offset: u32, data: &Vec<u8>) -> (written: bool)
        ensures
            written <==> in_bounds(old(self)@.len() as int, offset as int, data@.len() as int),
            written ==> final(self)@ == splice(old(self)@, offset as int, data@),
            !written ==> final(self)@ == old(self)@,
    {
        if data.len() > self.bytes.len() || offset as usize > self.bytes.len() - data.len() {
            return false;
        }
        let start = offset as usize;
        let mut k: usize = 0;
        while k < data.len()
            invariant
                start == offset,
                offset + data@.len() <= self@.len() <= usize::MAX,
                k <= data@.len(),
                self@.len() == old(self)@.len(),
                self@ =~= splice(old(self)@, offset as int, data@.subrange(0, k as int)),
            decreases data@.len() - k,
        {
            self.bytes.set(start + k, data[k]);
            k = k + 1;
        }
        assert(data@.subrange(0, data@.len() as int) =~= data@);
        true
    }

    /// The little-endian word at `offset`, if its four bytes lie inside the
    /// memory.
    pub fn read_u32(&self, offset: u32) -> (r: Option<u32>)
        ensures
            r is Some <==> in_bounds(self@.len() as int, offset as int, 4),
            r matches Some(v) ==> v as int == le_value(self@.subrange(offset as int, offset + 4)),
    {
        match self.translate(offset, 4) {
            None => None,
            Some(g) => Some(read_le_u32(&self.bytes, g.start)),
        }
    }

    /// Writes `value` as a little-endian word at `offset` if its four bytes
    /// lie inside the memory; otherwise leaves the memory as it was.
    pub fn write_u32(&mut self, offset: u32, value: u32) -> (written: bool)
        ensures
            written <==> in_bounds(old(self)@.len() as int, offset as int, 4),
            written ==> final(self)@ == splice(old(self)@, offset as int, le_bytes(value)),
            !written ==> final(self)@ == old(self)@,
    {
        match self.translate(offset, 4) {
            None => false,
            Some(g) => {
                write_le_u32(&mut self.bytes, g.start, value);
                true
            },
        }
    }
}

} // verus!
