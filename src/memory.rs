use vstd::prelude::*;

use crate::error::ReadFault;

verus! {

/// The address `off` bytes past `a`, wrapping within the 32-bit address space.
pub open spec fn offset_addr(a: i32, off: i32) -> i32 {
    if a + off > i32::MAX {
        (a + off - 0x1_0000_0000) as i32
    } else if a + off < i32::MIN {
        (a + off + 0x1_0000_0000) as i32
    } else {
        (a + off) as i32
    }
}

/// The address `i` bytes past `a`, wrapping within the 32-bit address
/// space as `offset_addr` does.
pub open spec fn byte_addr(a: i32, i: int) -> int {
    (a - i32::MIN + i) % 0x1_0000_0000 + i32::MIN
}

/// Every byte of the `n` bytes from `a` is mapped in `m`.
pub open spec fn mapped(m: Map<int, u8>, a: i32, n: nat) -> bool {
    forall|i: int| 0 <= i < n ==> #[trigger] m.dom().contains(byte_addr(a, i))
}

/// What a read of `n` bytes at `a` yields from the memory `m`.
pub open spec fn bytes_at(m: Map<int, u8>, a: i32, n: nat) -> Result<Seq<u8>, ReadFault> {
    if mapped(m, a, n) {
        Ok(Seq::new(n, |i: int| m[byte_addr(a, i)]))
    } else {
        Err(ReadFault { address: a })
    }
}

/// The bytes of an executable read result.
pub open spec fn bytes_of(r: Result<Vec<u8>, ReadFault>) -> Result<Seq<u8>, ReadFault> {
    match r {
        Ok(v) => Ok(v@),
        Err(f) => Err(f),
    }
}

/// Without crossing the top of the address space, `byte_addr` is plain
/// addition.
pub proof fn lemma_byte_addr_plain(a: i32, i: int)
    requires
        0 <= i,
        a + i <= i32::MAX,
    ensures
        byte_addr(a, i) == a + i,
{
    vstd::arithmetic::div_mod::lemma_small_mod((a - i32::MIN + i) as nat, 0x1_0000_0000);
}

/// `offset_addr` and `byte_addr` wrap alike: `j` bytes past the address `o`
/// bytes past `a` is `o + j` bytes past `a`.
pub proof fn lemma_byte_addr_offset(a: i32, o: i32, j: int)
    ensures
        offset_addr(a, o) as int == byte_addr(a, o as int),
        byte_addr(offset_addr(a, o), j) == byte_addr(a, o + j),
{
    let c: int = 0x1_0000_0000;
    let x: int = a - i32::MIN + o;
    if x >= c {
        vstd::arithmetic::div_mod::lemma_mod_sub_multiples_vanish(x, c);
        vstd::arithmetic::div_mod::lemma_small_mod((x - c) as nat, c as nat);
    } else if x < 0 {
        vstd::arithmetic::div_mod::lemma_mod_add_multiples_vanish(x, c);
        vstd::arithmetic::div_mod::lemma_small_mod((x + c) as nat, c as nat);
    } else {
        vstd::arithmetic::div_mod::lemma_small_mod(x as nat, c as nat);
    }
    vstd::arithmetic::div_mod::lemma_add_mod_noop_right(j, x, c);
}

pub fn add_offset(a: i32, off: i32) -> (r: i32)
    ensures
        r == offset_addr(a, off),
{
    a.wrapping_add(off)
}

/// Read access to the address space of the foreign process.
///
/// `memory` is the content of that address space, as seen by the reads of
/// one call into this library: an implementation serves every read from a
/// consistent view. `read_count` counts the reads made so far. Verified
/// code over an arbitrary accessor knows nothing of either beyond what
/// `read_bytes` states. The bodies below exist only so that an
/// implementation outside verified code, which cannot define spec
/// functions, compiles: such an implementation is trusted to behave as
/// `read_bytes` states for some memory and some counter, not for these
/// placeholders.
pub trait MemoryAccessor {
    closed spec fn memory(&self) -> Map<int, u8> {
        Map::empty()
    }

    closed spec fn read_count(&self) -> nat {
        0
    }

    /// Reads `len` bytes starting at `address`, addresses wrapping within
    /// the 32-bit address space; fails when any of them is not mapped.
    fn read_bytes(&mut self, address: i32, len: usize) -> (r: Result<Vec<u8>, ReadFault>)
        ensures
            final(self).memory() == old(self).memory(),
            final(self).read_count() == old(self).read_count() + 1,
            bytes_of(r) == bytes_at(old(self).memory(), address, len as nat),
    ;
}

/// A block of bytes placed at a fixed address.
pub struct Region {
    pub start: i32,
    pub bytes: Vec<u8>,
}

/// The byte that the first region covering `a` holds there.
pub open spec fn region_byte(regions: Seq<Region>, a: int) -> Option<u8>
    decreases regions.len(),
{
    if regions.len() == 0 {
        None
    } else {
        let r = regions[0];
        if r.start <= a < r.start + r.bytes@.len() {
            Some(r.bytes@[a - r.start])
        } else {
            region_byte(regions.drop_first(), a)
        }
    }
}

/// A synthetic address space made of regions of known bytes.
///
/// Where regions overlap, the one added first supplies the byte.
pub struct MemoryImage {
    regions: Vec<Region>,
    reads: Ghost<nat>,
}

impl MemoryImage {
    pub closed spec fn region_seq(&self) -> Seq<Region> {
        self.regions@
    }

    /// An address space with nothing mapped.
    pub fn new() -> (r: MemoryImage)
        ensures
            r.region_seq() == Seq::<Region>::empty(),
            r.memory() == Map::<int, u8>::empty(),
            r.read_count() == 0,
    {
        let r = MemoryImage { regions: Vec::new(), reads: Ghost(0) };
        assert(r.memory() =~= Map::<int, u8>::empty());
        r
    }

    /// Maps `bytes` at `start`, under the regions added before.
    pub fn add_region(&mut self, start: i32, bytes: Vec<u8>)
        ensures
            final(self).region_seq() == old(self).region_seq().push(Region { start, bytes }),
            final(self).read_count() == old(self).read_count(),
    {
        self.regions.push(Region { start, bytes });
    }

    fn byte_at(&self, a: i128) -> (r: Option<u8>)
        requires
            -0x1_0000_0000_0000_0000_0000int < a as int <= 0x1_0000_0000_0000_0000_0000int,
        ensures
            r == region_byte(self.regions@, a as int),
    {
        let mut k: usize = 0;
        assert(self.regions@.skip(0) =~= self.regions@);
        while k < self.regions.len()
            invariant
                0 <= k <= self.regions@.len(),
                -0x1_0000_0000_0000_0000_0000int < a as int <= 0x1_0000_0000_0000_0000_0000int,
                region_byte(self.regions@, a as int) == region_byte(self.regions@.skip(k as int), a as int),
            decreases self.regions@.len() - k,
        {
            let r = &self.regions[k];
            assert(self.regions@.skip(k as int)[0] == self.regions@[k as int]);
            assert(self.regions@.skip(k as int).drop_first() =~= self.regions@.skip(k + 1));
            let start = r.start as i128;
            if start <= a {
                let d: i128 = a - start;
                if d < r.bytes.len() as i128 {
                    return Some(r.bytes[d as usize]);
                }
            }
            k = k + 1;
        }
        None
    }
}

impl MemoryAccessor for MemoryImage {
    open spec fn memory(&self) -> Map<int, u8> {
        Map::new(
            |a: int| region_byte(self.region_seq(), a) is Some,
            |a: int| region_byte(self.region_seq(), a)->Some_0,
        )
    }

    closed spec fn read_count(&self) -> nat {
        self.reads@
    }

    fn read_bytes(&mut self, address: i32, len: usize) -> (r: Result<Vec<u8>, ReadFault>) {
        let ghost m = self.memory();
        let mut out: Vec<u8> = Vec::new();
        let mut i: usize = 0;
        while i < len
            invariant
                0 <= i <= len,
                m == old(self).memory(),
                self.regions@ == old(self).regions@,
                self.reads@ == old(self).reads@,
                out@.len() == i,
                forall|j: int| 0 <= j < i ==> #[trigger] m.dom().contains(byte_addr(address, j)) && out@[j] == m[byte_addr(address, j)],
            decreases len - i,
        {
            let at: i128 = (address as i128 - i32::MIN as i128 + i as i128) % 0x1_0000_0000 + i32::MIN as i128;
            assert(at == byte_addr(address, i as int));
            match self.byte_at(at) {
                Some(b) => {
                    out.push(b);
                    assert(region_byte(self.region_seq(), byte_addr(address, i as int)) == Some(b));
                    assert(m.dom().contains(byte_addr(address, i as int)));
                    assert forall|j: int| 0 <= j < i + 1 implies #[trigger] m.dom().contains(byte_addr(address, j)) && out@[j] == m[byte_addr(address, j)] by {
                        if j < i {
                            assert(m.dom().contains(byte_addr(address, j)));
                        }
                    };
                },
                None => {
                    proof {
                        self.reads@ = self.reads@ + 1;
                        assert(!m.dom().contains(byte_addr(address, i as int)));
                        assert(self.memory() =~= m);
                    }
                    return Err(ReadFault { address });
                },
            }
            i = i + 1;
        }
        proof {
            self.reads@ = self.reads@ + 1;
            assert(self.memory() =~= m);
            assert(out@ =~= Seq::new(len as nat, |j: int| m[byte_addr(address, j)]));
        }
        Ok(out)
    }
}

/// Region `r` holds the address `a`.
pub open spec fn covers(r: Region, a: int) -> bool {
    r.start <= a < r.start + r.bytes@.len()
}

proof fn lemma_first_cover(regions: Seq<Region>, i: int, a: int)
    requires
        0 <= i < regions.len(),
        covers(regions[i], a),
        forall|j: int| 0 <= j < i ==> !covers(#[trigger] regions[j], a),
    ensures
        region_byte(regions, a) == Some(regions[i].bytes@[a - regions[i].start]),
    decreases i,
{
    if i > 0 {
        let rest = regions.drop_first();
        assert(!covers(regions[0], a));
        assert forall|j: int| 0 <= j < i - 1 implies !covers(#[trigger] rest[j], a) by {
            assert(rest[j] == regions[j + 1]);
        };
        lemma_first_cover(rest, i - 1, a);
    }
}

/// A read from a synthetic image of bytes that region `i` holds, and that
/// no region added before it overlaps, yields exactly those bytes.
pub proof fn lemma_image_read(img: MemoryImage, i: int, a: i32, n: nat)
    requires
        0 <= i < img.region_seq().len(),
        img.region_seq()[i].start <= a,
        a + n <= img.region_seq()[i].start + img.region_seq()[i].bytes@.len(),
        a + n <= i32::MAX + 1,
        forall|j: int, k: int| 0 <= j < i && a <= k < a + n ==> !#[trigger] covers(img.region_seq()[j], k),
    ensures
        bytes_at(img.memory(), a, n) == Ok::<Seq<u8>, ReadFault>(
            img.region_seq()[i].bytes@.subrange(a - img.region_seq()[i].start, a - img.region_seq()[i].start + n),
        ),
{
    let rs = img.region_seq();
    let r = rs[i];
    assert forall|k: int| 0 <= k < n implies #[trigger] img.memory().dom().contains(byte_addr(a, k))
        && img.memory()[byte_addr(a, k)] == r.bytes@[a + k - r.start] by {
        lemma_byte_addr_plain(a, k);
        assert forall|j: int| 0 <= j < i implies !covers(#[trigger] rs[j], a + k) by {
            assert(!covers(rs[j], a + k));
        };
        lemma_first_cover(rs, i, a + k);
    };
    assert(mapped(img.memory(), a, n));
    let got = bytes_at(img.memory(), a, n)->Ok_0;
    let want = r.bytes@.subrange(a - r.start, a - r.start + n);
    assert forall|k: int| 0 <= k < n implies got[k] == want[k] by {
        assert(img.memory().dom().contains(byte_addr(a, k)));
        assert(img.memory()[byte_addr(a, k)] == r.bytes@[a + k - r.start]);
    };
    assert(got =~= want);
}

} // verus!
