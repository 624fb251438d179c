//! Typed, fault-aware read access into a target address space.
use vstd::bytes::{spec_u32_from_le_bytes, spec_u64_from_le_bytes, u32_from_le_bytes, u64_from_le_bytes};
use vstd::prelude::*;

verus! {

/// A read touched an address that is not mapped (or not readable).
#[derive(Debug, Clone, Copy, PartialEq, Eq, Structural)]
pub struct AccessFault;

/// Byte-granular read access into an address space.
///
/// `byte_at` is the model: the byte stored at an address, or `None` where the
/// address cannot be read. The default model says that every read fails, so
/// for an accessor that keeps it, every contract of this library speaks of an
/// address space where nothing is readable, and says nothing of the bytes its
/// reads actually return. An accessor whose reads are to be reasoned about
/// (such as `MemoryImage`) states its own model and proves `read_byte`
/// against it.
pub trait MemoryAccessor {
    open spec fn byte_at(&self, addr: int) -> Option<u8> {
        None
    }

    fn read_byte(&self, addr: usize) -> (r: Result<u8, AccessFault>)
        ensures
            r == byte_result(self.byte_at(addr as int)),
    ;
}

pub open spec fn byte_result(b: Option<u8>) -> Result<u8, AccessFault> {
    match b {
        Some(v) => Ok(v),
        None => Err(AccessFault),
    }
}

/// The `n` bytes starting at `addr`, when every one of them lies inside the
/// address range and is readable.
pub open spec fn read_spec<M: MemoryAccessor>(m: &M, addr: int, n: nat) -> Option<Seq<u8>> {
    if addr + n <= usize::MAX + 1 && forall|k: int| 0 <= k < n ==> (#[trigger] m.byte_at(addr + k)) is Some {
        Some(Seq::new(n, |k: int| m.byte_at(addr + k)->0))
    } else {
        None
    }
}

/// A little-endian 64-bit value (a pointer in the target) stored at `addr`.
pub open spec fn read_u64_spec<M: MemoryAccessor>(m: &M, addr: int) -> Option<u64> {
    match read_spec(m, addr, 8) {
        Some(s) => Some(spec_u64_from_le_bytes(s)),
        None => None,
    }
}

/// A little-endian 32-bit value stored at `addr`.
pub open spec fn read_u32_spec<M: MemoryAccessor>(m: &M, addr: int) -> Option<u32> {
    match read_spec(m, addr, 4) {
        Some(s) => Some(spec_u32_from_le_bytes(s)),
        None => None,
    }
}

pub open spec fn opt_result<T>(o: Option<T>) -> Result<T, AccessFault> {
    match o {
        Some(v) => Ok(v),
        None => Err(AccessFault),
    }
}

/// Reads `n` consecutive bytes starting at `addr`.
pub fn read_bytes<M: MemoryAccessor>(m: &M, addr: usize, n: usize) -> (r: Result<Vec<u8>, AccessFault>)
    ensures
        match read_spec(m, addr as int, n as nat) {
            Some(s) => r matches Ok(v) && v@ == s,
            None => r is Err,
        },
{
    let mut out: Vec<u8> = Vec::new();
    let mut k: usize = 0;
    while k < n
        invariant
            k <= n,
            addr + k <= usize::MAX + 1,
            out@.len() == k,
            forall|j: int| 0 <= j < k ==> m.byte_at(addr + j) == Some(#[trigger] out@[j]),
        decreases n - k,
    {
        if addr > usize::MAX - k {
            return Err(AccessFault);
        }
        let a: usize = addr + k;
        match m.read_byte(a) {
            Ok(b) => {
                out.push(b);
            },
            Err(e) => {
                return Err(e);
            },
        }
        k = k + 1;
    }
    proof {
        assert forall|j: int| 0 <= j < n implies (#[trigger] m.byte_at(addr + j)) is Some by {
            assert(m.byte_at(addr + j) == Some(out@[j]));
        }
        assert(out@ =~= Seq::new(n as nat, |j: int| m.byte_at(addr + j)->0));
    }
    Ok(out)
}

/// Reads a little-endian 64-bit value at `addr`.
pub fn read_u64<M: MemoryAccessor>(m: &M, addr: usize) -> (r: Result<u64, AccessFault>)
    ensures
        r == opt_result(read_u64_spec(m, addr as int)),
{
    let v = read_bytes(m, addr, 8)?;
    Ok(u64_from_le_bytes(v.as_slice()))
}

/// Reads a little-endian 32-bit value at `addr`.
pub fn read_u32<M: MemoryAccessor>(m: &M, addr: usize) -> (r: Result<u32, AccessFault>)
    ensures
        r == opt_result(read_u32_spec(m, addr as int)),
{
    let v = read_bytes(m, addr, 4)?;
    Ok(u32_from_le_bytes(v.as_slice()))
}

/// One mapped range of a synthetic address space.
pub struct Region {
    pub base: usize,
    pub bytes: Vec<u8>,
}

/// A synthetic address space made of mapped regions; where regions overlap,
/// the one mapped first wins.
pub struct MemoryImage {
    pub regions: Vec<Region>,
}

pub open spec fn region_holds(r: Region, a: int) -> bool {
    r.base <= a < r.base + r.bytes@.len()
}

/// The byte at `a` in the first region, from index `i` on, that holds it.
pub open spec fn lookup_from(rs: Seq<Region>, i: int, a: int) -> Option<u8>
    decreases rs.len() - i,
{
    if i < 0 || i >= rs.len() {
        None
    } else if region_holds(rs[i], a) {
        Some(rs[i].bytes@[a - rs[i].base])
    } else {
        lookup_from(rs, i + 1, a)
    }
}

impl MemoryAccessor for MemoryImage {
    open spec fn byte_at(&self, addr: int) -> Option<u8> {
        if 0 <= addr <= usize::MAX {
            lookup_from(self.regions@, 0, addr)
        } else {
            None
        }
    }

    fn read_byte(&self, addr: usize) -> (r: Result<u8, AccessFault>) {
        let mut i: usize = 0;
        while i < self.regions.len()
            invariant
                i <= self.regions@.len(),
                lookup_from(self.regions@, 0, addr as int) == lookup_from(self.regions@, i as int, addr as int),
            decreases self.regions@.len() - i,
        {
            let r = &self.regions[i];
            if r.base <= addr && addr - r.base < r.bytes.len() {
                return Ok(r.bytes[addr - r.base]);
            }
            i = i + 1;
        }
        Err(AccessFault)
    }
}

impl MemoryImage {
    /// An address space with nothing mapped.
    pub fn new() -> (r: MemoryImage)
        ensures
            r.regions@.len() == 0,
    {
        MemoryImage { regions: Vec::new() }
    }

    /// Maps `bytes` at `base`, behind every region mapped before.
    pub fn map_region(&mut self, base: usize, bytes: Vec<u8>)
        ensures
            final(self).regions@.len() == old(self).regions@.len() + 1,
            final(self).regions@.drop_last() == old(self).regions@,
            final(self).regions@.last().base == base,
            final(self).regions@.last().bytes@ == bytes@,
    {
        self.regions.push(Region { base, bytes });
        proof {
            assert(self.regions@.drop_last() =~= old(self).regions@);
        }
    }
}

} // verus!
