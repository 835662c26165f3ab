//! RDRAM as the RDP sees it: 9 bit wide bytes, big-endian, addressed physically.
//!
//! The 9th ("hidden") bits are modeled per 16-bit word as a 2-bit value, since that is the
//! granularity the RDP uses them at (coverage/dz storage for 16-bit framebuffers). They are not
//! CPU-visible on real hardware; an emulator keeps them in a separate plane.
use vstd::prelude::*;

verus! {

/// Memory after a big-endian 16-bit store of `v` at `a`.
pub open spec fn store16(m: Map<u32, u8>, a: u32, v: u16) -> Map<u32, u8> {
    m.insert(a, (v / 256) as u8).insert((a + 1) as u32, (v % 256) as u8)
}

/// Memory after a big-endian 32-bit store of `v` at `a`.
pub open spec fn store32(m: Map<u32, u8>, a: u32, v: u32) -> Map<u32, u8> {
    store16(store16(m, a, (v / 0x10000) as u16), (a + 2) as u32, (v % 0x10000) as u16)
}

/// The big-endian 16-bit value at `a`.
pub open spec fn load16(m: Map<u32, u8>, a: u32) -> u16 {
    (m[a] * 256 + m[(a + 1) as u32]) as u16
}

/// The big-endian 32-bit value at `a`.
pub open spec fn load32(m: Map<u32, u8>, a: u32) -> u32 {
    (load16(m, a) * 0x10000 + load16(m, (a + 2) as u32)) as u32
}

/// `n` consecutive bytes starting at `a` are accessible (and their addresses do not wrap).
pub open spec fn span_ok(m: Map<u32, u8>, a: u32, n: nat) -> bool {
    &&& a + n <= u32::MAX + 1
    &&& forall|i: int| 0 <= i < n ==> #[trigger] m.dom().contains((a + i) as u32)
}

/// How a 16-bit value splits into bytes and two bytes join into one.
proof fn lemma_bytes16(v: u16, hi: u8, lo: u8)
    by (bit_vector)
    ensures
        (v >> 8u16) as u8 == v / 256,
        v as u8 == v % 256,
        ((hi as u16) << 8u16) | (lo as u16) == hi * 256 + lo,
{
}

/// How a 32-bit value splits into halves and two halves join into one.
proof fn lemma_halves32(v: u32, hi: u16, lo: u16)
    by (bit_vector)
    ensures
        (v >> 16u32) as u16 == v / 0x10000,
        v as u16 == v % 0x10000,
        ((hi as u32) << 16u32) | (lo as u32) == hi * 0x10000 + lo,
{
}

/// Halving a byte index by a shift.
proof fn lemma_half(i: usize)
    by (bit_vector)
    ensures
        i >> 1u32 == i / 2,
{
}

/// A 16-bit store followed by a 16-bit load at the same address gives back the stored value.
pub proof fn load16_of_store16(m: Map<u32, u8>, a: u32, v: u16)
    requires
        a < u32::MAX,
    ensures
        load16(store16(m, a, v), a) == v,
{
    let m2 = store16(m, a, v);
    assert(m2[a] == (v / 256) as u8);
    assert(m2[(a + 1) as u32] == (v % 256) as u8);
}

/// A 32-bit store followed by a 32-bit load at the same address gives back the stored value.
pub proof fn load32_of_store32(m: Map<u32, u8>, a: u32, v: u32)
    requires
        a + 3 <= u32::MAX,
    ensures
        load32(store32(m, a, v), a) == v,
{
    let hi = (v / 0x10000) as u16;
    let lo = (v % 0x10000) as u16;
    let m1 = store16(m, a, hi);
    let m2 = store16(m1, (a + 2) as u32, lo);
    load16_of_store16(m1, (a + 2) as u32, lo);
    assert(m2[a] == m1[a]);
    assert(m2[(a + 1) as u32] == m1[(a + 1) as u32]);
    load16_of_store16(m, a, hi);
    assert(load16(m2, a) == load16(m1, a));
}

/// Stores leave every other address unchanged.
pub proof fn store32_frame(m: Map<u32, u8>, a: u32, v: u32, b: u32)
    requires
        a + 3 <= u32::MAX,
        b < a || b > a + 3,
    ensures
        store32(m, a, v)[b] == m[b],
        store32(m, a, v).dom().contains(b) == m.dom().contains(b),
{
}

/// Stores leave every other address unchanged.
pub proof fn store16_frame(m: Map<u32, u8>, a: u32, v: u16, b: u32)
    requires
        a < u32::MAX,
        b < a || b > a + 1,
    ensures
        store16(m, a, v)[b] == m[b],
        store16(m, a, v).dom().contains(b) == m.dom().contains(b),
{
}

/// Physical memory interface for the RDP. All addresses are physical RDRAM addresses.
///
/// `bytes` is the byte plane the RDP can reach, `hidden` the plane of hidden bits, indexed by
/// `hidden_index` (one entry per 16-bit word).
pub trait Rdram {
    spec fn bytes(&self) -> Map<u32, u8>;

    spec fn hidden(&self) -> Map<int, u8>;

    spec fn hidden_index(&self, addr: u32) -> int;

    fn read_u8(&self, addr: u32) -> (r: u8)
        requires
            self.bytes().dom().contains(addr),
        ensures
            r == self.bytes()[addr],
    ;

    fn write_u8(&mut self, addr: u32, value: u8)
        requires
            old(self).bytes().dom().contains(addr),
        ensures
            final(self).bytes() == old(self).bytes().insert(addr, value),
            final(self).hidden() == old(self).hidden(),
            forall|a: u32| #[trigger] final(self).hidden_index(a) == old(self).hidden_index(a),
    ;

    /// The two hidden bits of the 16-bit word containing `addr` (bit 1 = even byte's, bit 0 =
    /// odd byte's 9th bit).
    fn read_hidden(&self, addr: u32) -> (r: u8)
        requires
            self.hidden().dom().contains(self.hidden_index(addr)),
        ensures
            r == self.hidden()[self.hidden_index(addr)],
    ;

    fn write_hidden(&mut self, addr: u32, value: u8)
        requires
            old(self).hidden().dom().contains(old(self).hidden_index(addr)),
        ensures
            final(self).bytes() == old(self).bytes(),
            final(self).hidden() == old(self).hidden().insert(
                old(self).hidden_index(addr),
                value & 3,
            ),
            forall|a: u32| #[trigger] final(self).hidden_index(a) == old(self).hidden_index(a),
    ;

    fn read_u16(&self, addr: u32) -> (r: u16)
        requires
            span_ok(self.bytes(), addr, 2),
        ensures
            r == load16(self.bytes(), addr),
    {
        assert(self.bytes().dom().contains((addr + 0) as u32));
        assert(self.bytes().dom().contains((addr + 1) as u32));
        let hi = self.read_u8(addr);
        let lo = self.read_u8(addr + 1);
        proof {
            lemma_bytes16(0, hi, lo);
        }
        ((hi as u16) << 8u16) | (lo as u16)
    }

    fn write_u16(&mut self, addr: u32, value: u16)
        requires
            span_ok(old(self).bytes(), addr, 2),
        ensures
            final(self).bytes() == store16(old(self).bytes(), addr, value),
            final(self).hidden() == old(self).hidden(),
            forall|a: u32| #[trigger] final(self).hidden_index(a) == old(self).hidden_index(a),
    {
        assert(old(self).bytes().dom().contains((addr + 0) as u32));
        assert(old(self).bytes().dom().contains((addr + 1) as u32));
        proof {
            lemma_bytes16(value, 0, 0);
        }
        self.write_u8(addr, (value >> 8u16) as u8);
        self.write_u8(addr + 1, value as u8);
    }

    fn read_u32(&self, addr: u32) -> (r: u32)
        requires
            span_ok(self.bytes(), addr, 4),
        ensures
            r == load32(self.bytes(), addr),
    {
        let ghost m = self.bytes();
        assert(span_ok(m, addr, 2)) by {
            assert forall|i: int| 0 <= i < 2 implies #[trigger] m.dom().contains((addr + i) as u32) by {
                assert(m.dom().contains((addr + i) as u32));
            }
        }
        assert(span_ok(m, (addr + 2) as u32, 2)) by {
            assert forall|i: int| 0 <= i < 2 implies #[trigger] m.dom().contains(((addr + 2) as u32 + i) as u32) by {
                assert(m.dom().contains((addr + (i + 2)) as u32));
            }
        }
        let hi = self.read_u16(addr);
        let lo = self.read_u16(addr + 2);
        proof {
            lemma_halves32(0, hi, lo);
        }
        ((hi as u32) << 16u32) | (lo as u32)
    }

    fn write_u32(&mut self, addr: u32, value: u32)
        requires
            span_ok(old(self).bytes(), addr, 4),
        ensures
            final(self).bytes() == store32(old(self).bytes(), addr, value),
            final(self).hidden() == old(self).hidden(),
            forall|a: u32| #[trigger] final(self).hidden_index(a) == old(self).hidden_index(a),
    {
        let ghost m = old(self).bytes();
        assert(span_ok(m, addr, 2)) by {
            assert forall|i: int| 0 <= i < 2 implies #[trigger] m.dom().contains((addr + i) as u32) by {
                assert(m.dom().contains((addr + i) as u32));
            }
        }
        proof {
            lemma_halves32(value, 0, 0);
        }
        self.write_u16(addr, (value >> 16u32) as u16);
        let ghost m2 = self.bytes();
        assert(m.dom().contains((addr + 0) as u32));
        assert(m.dom().contains((addr + 1) as u32));
        assert(m2.dom() =~= m.dom());
        assert(span_ok(m2, (addr + 2) as u32, 2)) by {
            assert forall|i: int| 0 <= i < 2 implies #[trigger] m2.dom().contains(((addr + 2) as u32 + i) as u32) by {
                assert(m.dom().contains((addr + (i + 2)) as u32));
            }
        }
        self.write_u16(addr + 2, value as u16);
    }
}

} // verus!

verus! {

/// An [`Rdram`] over plain slices, windowed at `base`: index 0 of the slices corresponds to
/// physical address `base`. `hidden` holds one entry per 16-bit word (so `bytes.len() / 2`
/// entries), each 0..=3. Accesses outside the window are excluded by the contracts.
pub struct SliceRdram<'a> {
    base: u32,
    bytes: &'a mut [u8],
    hidden: &'a mut [u8],
}

impl<'a> SliceRdram<'a> {
    pub closed spec fn spec_base(&self) -> u32 {
        self.base
    }

    /// The window's byte contents, index 0 at `base`.
    pub closed spec fn byte_plane(&self) -> Seq<u8> {
        self.bytes@
    }

    /// The window's hidden-bit plane, one entry per 16-bit word.
    pub closed spec fn hidden_plane(&self) -> Seq<u8> {
        self.hidden@
    }

    pub fn new(base: u32, bytes: &'a mut [u8], hidden: &'a mut [u8]) -> (r: Self)
        requires
            old(hidden)@.len() >= old(bytes)@.len() / 2,
        ensures
            r.spec_base() == base,
            r.byte_plane() == old(bytes)@,
            r.hidden_plane() == old(hidden)@,
    {
        SliceRdram { base, bytes, hidden }
    }

    fn index(&self, addr: u32) -> (r: usize)
        requires
            addr >= self.base,
        ensures
            r == addr - self.base,
    {
        (addr - self.base) as usize
    }
}

impl<'a> Rdram for SliceRdram<'a> {
    open spec fn bytes(&self) -> Map<u32, u8> {
        Map::new(
            |a: u32| self.spec_base() <= a && a - self.spec_base() < self.byte_plane().len(),
            |a: u32| self.byte_plane()[a - self.spec_base()],
        )
    }

    open spec fn hidden(&self) -> Map<int, u8> {
        Map::new(|i: int| 0 <= i < self.hidden_plane().len(), |i: int| self.hidden_plane()[i])
    }

    open spec fn hidden_index(&self, addr: u32) -> int {
        if addr >= self.spec_base() {
            (addr - self.spec_base()) / 2
        } else {
            -1
        }
    }

    fn read_u8(&self, addr: u32) -> (r: u8) {
        self.bytes[self.index(addr)]
    }

    fn write_u8(&mut self, addr: u32, value: u8) {
        let index = self.index(addr);
        self.bytes[index] = value;
        assert(self.bytes() =~= old(self).bytes().insert(addr, value));
        assert(self.hidden() =~= old(self).hidden());
    }

    fn read_hidden(&self, addr: u32) -> (r: u8) {
        let i = self.index(addr);
        proof {
            lemma_half(i);
        }
        self.hidden[i >> 1u32]
    }

    fn write_hidden(&mut self, addr: u32, value: u8) {
        let i = self.index(addr);
        proof {
            lemma_half(i);
        }
        let index = i >> 1u32;
        self.hidden[index] = value & 3;
        assert(self.bytes() =~= old(self).bytes());
        assert(self.hidden() =~= old(self).hidden().insert(old(self).hidden_index(addr), value & 3));
    }
}

} // verus!
