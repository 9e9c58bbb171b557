//! The memory multiplexer: owns a non-overlapping set of devices keyed by
//! base address, routes byte and word accesses to the device with the
//! greatest base address at or below the target, and enforces range safety at
//! registration. Devices receive the raw global address untranslated and
//! bounds-check it against their own size.

use vstd::prelude::*;

use crate::device::device_read_byte;
use crate::device::device_read_word;
use crate::device::device_write_byte;
use crate::device::device_write_word;
use crate::device::word_from_bytes;
use crate::device::word_high_byte;
use crate::device::word_low_byte;
use crate::device::InvalidAddress;
use crate::device::InvalidMemoryDevice;
use crate::device::MemoryDevice;

verus! {

/// Sorted and pairwise disjoint: bases strictly increase, each range ends no
/// later than the next begins, and every range fits the 16-bit address space.
pub open spec fn mux_entries_wf(s: Seq<(u16, Seq<u8>)>) -> bool {
    &&& forall|i: int| 0 <= i < s.len() ==> (#[trigger] s[i]).0 + s[i].1.len() <= 0xFFFF
    &&& forall|i: int, j: int|
        #![trigger s[i], s[j]]
        0 <= i < j < s.len() ==> s[i].0 < s[j].0 && s[i].0 + s[i].1.len() <= s[j].0
}

/// The index of the registered device with the greatest base address at or
/// below `addr`, if any.
pub open spec fn mux_route(s: Seq<(u16, Seq<u8>)>, addr: u16) -> Option<int>
    decreases s.len(),
{
    if s.len() == 0 {
        None
    } else if s[s.len() - 1].0 <= addr {
        Some(s.len() - 1)
    } else {
        mux_route(s.drop_last(), addr)
    }
}

/// What the multiplexer returns for a byte read at `addr`: the owning
/// device's answer for the raw address, or an address error if no device's
/// base lies at or below `addr`.
pub open spec fn mux_read_byte(s: Seq<(u16, Seq<u8>)>, addr: u16) -> Result<u8, InvalidAddress> {
    match mux_route(s, addr) {
        None => Err(InvalidAddress),
        Some(i) => device_read_byte(s[i].1, addr),
    }
}

/// What the multiplexer returns for a word read at `addr`, routed like a byte
/// read; the two bytes come from the one owning device, little-endian.
pub open spec fn mux_read_word(s: Seq<(u16, Seq<u8>)>, addr: u16) -> Result<u16, InvalidAddress> {
    match mux_route(s, addr) {
        None => Err(InvalidAddress),
        Some(i) => device_read_word(s[i].1, addr),
    }
}

/// The entries after a byte write at `addr`, or an address error (leaving
/// every device unchanged) if routing or the owning device rejects the
/// address.
pub open spec fn mux_write_byte(s: Seq<(u16, Seq<u8>)>, addr: u16, byte: u8) -> Result<
    Seq<(u16, Seq<u8>)>,
    InvalidAddress,
> {
    match mux_route(s, addr) {
        None => Err(InvalidAddress),
        Some(i) => match device_write_byte(s[i].1, addr, byte) {
            Ok(m) => Ok(s.update(i, (s[i].0, m))),
            Err(e) => Err(e),
        },
    }
}

/// The entries after a word write at `addr`, routed like a byte write; both
/// bytes go to the one owning device, little-endian.
pub open spec fn mux_write_word(s: Seq<(u16, Seq<u8>)>, addr: u16, word: u16) -> Result<
    Seq<(u16, Seq<u8>)>,
    InvalidAddress,
> {
    match mux_route(s, addr) {
        None => Err(InvalidAddress),
        Some(i) => match device_write_word(s[i].1, addr, word) {
            Ok(m) => Ok(s.update(i, (s[i].0, m))),
            Err(e) => Err(e),
        },
    }
}

/// Whether a device of `size` bytes can be registered at `addr`: the range
/// `[addr, addr + size)` must fit the 16-bit address space, cover no
/// registered base, and begin outside every registered range.
pub open spec fn mux_can_add(s: Seq<(u16, Seq<u8>)>, addr: u16, size: nat) -> bool {
    &&& addr + size <= 0xFFFF
    &&& forall|i: int| 0 <= i < s.len() ==> !((#[trigger] s[i]).0 <= addr < s[i].0 + s[i].1.len())
    &&& forall|i: int| 0 <= i < s.len() ==> !(addr <= (#[trigger] s[i]).0 < addr + size)
}

/// The number of registered entries whose base lies below `addr`, which is
/// where a new entry with base `addr` is inserted.
pub open spec fn mux_insert_pos(s: Seq<(u16, Seq<u8>)>, addr: u16) -> int
    decreases s.len(),
{
    if s.len() == 0 {
        0
    } else if s[0].0 < addr {
        1 + mux_insert_pos(s.drop_first(), addr)
    } else {
        0
    }
}

/// The entries after registering a device with contents `dev` at `addr`:
/// inserted before the first entry whose base is at or above `addr`. An entry
/// with base exactly `addr` is replaced; that arises only when both ranges
/// are empty, since any other exact collision is an overlap and is rejected.
pub open spec fn mux_add(s: Seq<(u16, Seq<u8>)>, addr: u16, dev: Seq<u8>) -> Seq<(u16, Seq<u8>)> {
    let p = mux_insert_pos(s, addr);
    if p < s.len() && s[p].0 == addr {
        s.update(p, (addr, dev))
    } else {
        s.insert(p, (addr, dev))
    }
}

/// Routing returns no index when every registered base lies above `addr`.
proof fn lemma_route_none(s: Seq<(u16, Seq<u8>)>, addr: u16)
    requires
        forall|i: int| 0 <= i < s.len() ==> (#[trigger] s[i]).0 > addr,
    ensures
        mux_route(s, addr) is None,
    decreases s.len(),
{
    if s.len() > 0 {
        lemma_route_none(s.drop_last(), addr);
    }
}

/// Routing returns exactly the index whose base is at or below `addr` while
/// every later base lies above it.
proof fn lemma_route_some(s: Seq<(u16, Seq<u8>)>, addr: u16, j: int)
    requires
        0 <= j < s.len(),
        s[j].0 <= addr,
        forall|i: int| j < i < s.len() ==> (#[trigger] s[i]).0 > addr,
    ensures
        mux_route(s, addr) == Some(j),
    decreases s.len(),
{
    if j < s.len() - 1 {
        lemma_route_some(s.drop_last(), addr, j);
    }
}

/// The insertion position is exactly the length of the leading run of entries
/// whose base lies below `addr`.
proof fn lemma_insert_pos_is(s: Seq<(u16, Seq<u8>)>, addr: u16, p: int)
    requires
        0 <= p <= s.len(),
        forall|k: int| 0 <= k < p ==> (#[trigger] s[k]).0 < addr,
        p < s.len() ==> s[p].0 >= addr,
    ensures
        mux_insert_pos(s, addr) == p,
    decreases s.len(),
{
    if s.len() == 0 {
    } else if s[0].0 < addr {
        lemma_insert_pos_is(s.drop_first(), addr, p - 1);
    }
}

/// The memory multiplexer: a sorted collection of registered devices, each
/// owning a disjoint address range starting at its base address.
pub struct MemoryMultiplexer<M: MemoryDevice> {
    devices: Vec<(u16, M)>,
}

impl<M: MemoryDevice> MemoryMultiplexer<M> {
    /// The registered devices: each base address paired with the contents of
    /// the device it owns, in increasing base order.
    pub closed spec fn entries(&self) -> Seq<(u16, Seq<u8>)> {
        Seq::new(self.devices@.len(), |i: int| (self.devices@[i].0, self.devices@[i].1.contents()))
    }

    /// Well-formed: every registered device's own invariant holds, and the
    /// registered ranges are sorted, pairwise disjoint and within the 16-bit
    /// address space.
    pub closed spec fn inv(&self) -> bool {
        &&& forall|i: int|
            0 <= i < self.devices@.len() ==> (#[trigger] self.devices@[i].1).inv()
        &&& mux_entries_wf(self.entries())
    }

    /// Creates an empty multiplexer.
    pub fn new() -> (r: MemoryMultiplexer<M>)
        ensures
            r.inv(),
            r.entries() == Seq::<(u16, Seq<u8>)>::empty(),
    {
        let r = MemoryMultiplexer { devices: Vec::new() };
        proof {
            assert(r.entries() =~= Seq::<(u16, Seq<u8>)>::empty());
        }
        r
    }

    /// Finds the device with the greatest base address at or below `addr`.
    fn select_index(&self, addr: u16) -> (r: Option<usize>)
        requires
            self.inv(),
        ensures
            match r {
                Some(j) => j < self.entries().len() && mux_route(self.entries(), addr) == Some(
                    j as int,
                ),
                None => mux_route(self.entries(), addr) is None,
            },
    {
        let mut k = self.devices.len();
        while k > 0
            invariant
                self.inv(),
                k <= self.devices.len(),
                forall|i: int|
                    k <= i < self.devices@.len() ==> (#[trigger] self.entries()[i]).0 > addr,
            decreases k,
        {
            if self.devices[k - 1].0 <= addr {
                proof {
                    lemma_route_some(self.entries(), addr, k - 1);
                }
                return Some(k - 1);
            }
            k = k - 1;
        }
        proof {
            lemma_route_none(self.entries(), addr);
        }
        None
    }

    /// Reads the byte at `addr` from the device owning that address.
    pub fn read_byte(&self, addr: u16) -> (r: Result<u8, InvalidAddress>)
        requires
            self.inv(),
        ensures
            r == mux_read_byte(self.entries(), addr),
    {
        match self.select_index(addr) {
            None => Err(InvalidAddress),
            Some(j) => self.devices[j].1.read_byte(addr),
        }
    }

    /// Reads the little-endian word at `addr` from the device owning that
    /// address.
    pub fn read_word(&self, addr: u16) -> (r: Result<u16, InvalidAddress>)
        requires
            self.inv(),
        ensures
            r == mux_read_word(self.entries(), addr),
    {
        match self.select_index(addr) {
            None => Err(InvalidAddress),
            Some(j) => self.devices[j].1.read_word(addr),
        }
    }

    /// Registers `device` at base address `addr`. Fails, leaving the
    /// registered set unchanged, if `addr` plus the device's size overflows
    /// the 16-bit address space or the requested range overlaps an
    /// already-registered device's range; an exact-base collision is itself
    /// an overlap unless both ranges are empty.
    pub fn add_device(&mut self, addr: u16, device: M) -> (r: Result<(), InvalidMemoryDevice>)
        requires
            old(self).inv(),
            device.inv(),
        ensures
            final(self).inv(),
            mux_can_add(old(self).entries(), addr, device.contents().len()) ==> r == Ok::<
                (),
                InvalidMemoryDevice,
            >(()) && final(self).entries() == mux_add(
                old(self).entries(),
                addr,
                device.contents(),
            ),
            !mux_can_add(old(self).entries(), addr, device.contents().len()) ==> r == Err::<
                (),
                InvalidMemoryDevice,
            >(InvalidMemoryDevice) && final(self).entries() == old(self).entries(),
    {
        let ghost pre = self.entries();
        let ghost size = device.contents().len();
        let sz = device.size();
        if addr > 0xFFFF - sz {
            return Err(InvalidMemoryDevice);
        }
        let n = self.devices.len();
        let mut p: usize = 0;
        while p < n && self.devices[p].0 < addr
            invariant
                self.inv(),
                self.entries() == pre,
                n == self.devices@.len(),
                p <= n,
                forall|k: int| 0 <= k < p ==> (#[trigger] pre[k]).0 < addr,
            decreases n - p,
        {
            p = p + 1;
        }
        proof {
            lemma_insert_pos_is(pre, addr, p as int);
        }
        if p < n && self.devices[p].0 == addr {
            // A device is registered at this exact base: an overlap unless
            // both its range and the new range are empty.
            let dlen = self.devices[p].1.size();
            if dlen > 0 {
                proof {
                    assert(pre[p as int].0 <= addr < pre[p as int].0 + pre[p as int].1.len());
                }
                return Err(InvalidMemoryDevice);
            }
            if sz > 0 {
                proof {
                    assert(addr <= pre[p as int].0 < addr + size);
                }
                return Err(InvalidMemoryDevice);
            }
            proof {
                assert forall|i: int| 0 <= i < pre.len() implies !((#[trigger] pre[i]).0 <= addr
                    < pre[i].0 + pre[i].1.len()) by {
                    if i < p {
                        assert(pre[i].0 + pre[i].1.len() <= pre[p as int].0);
                    } else if i > p {
                        assert(pre[p as int].0 < pre[i].0);
                    }
                }
                assert(mux_can_add(pre, addr, size));
            }
            self.devices.set(p, (addr, device));
            proof {
                assert(self.entries() =~= pre.update(p as int, (addr, device.contents())));
            }
            return Ok(());
        }
        // Overlap from below: the device with the greatest base below `addr`
        // must end at or before it.
        if p > 0 {
            proof {
                assert(pre[p as int - 1].0 + pre[p as int - 1].1.len() <= 0xFFFF);
            }
            let end = self.devices[p - 1].0 + self.devices[p - 1].1.size();
            if end > addr {
                proof {
                    assert(pre[p as int - 1].0 <= addr < pre[p as int - 1].0 + pre[p as int
                        - 1].1.len());
                }
                return Err(InvalidMemoryDevice);
            }
        }
        // Overlap from above: the new range must end at or before the
        // smallest base at or above `addr`.
        if p < n {
            if addr + sz > self.devices[p].0 {
                proof {
                    assert(addr <= pre[p as int].0 < addr + size);
                }
                return Err(InvalidMemoryDevice);
            }
        }
        proof {
            assert forall|i: int| 0 <= i < pre.len() implies !((#[trigger] pre[i]).0 <= addr
                < pre[i].0 + pre[i].1.len()) by {
                if i < p as int - 1 {
                    assert(pre[i].0 + pre[i].1.len() <= pre[p as int - 1].0);
                } else if p <= i {
                    if (p as int) < i {
                        assert(pre[p as int].0 < pre[i].0);
                    }
                }
            }
            assert forall|i: int| 0 <= i < pre.len() implies !(addr <= (#[trigger] pre[i]).0 < addr
                + size) by {
                if (p as int) < i {
                    assert(pre[p as int].0 < pre[i].0);
                }
            }
            assert(mux_can_add(pre, addr, size));
        }
        self.devices.insert(p, (addr, device));
        proof {
            let post = pre.insert(p as int, (addr, device.contents()));
            assert(self.entries() =~= post);
            assert forall|i: int, j: int|
                #![trigger post[i], post[j]]
                0 <= i < j < post.len() implies post[i].0 < post[j].0 && post[i].0 + post[i].1.len()
                <= post[j].0 by {
                if i < p as int && j < p as int {
                    assert(pre[i].0 < pre[j].0 && pre[i].0 + pre[i].1.len() <= pre[j].0);
                } else if i < p as int && j == p as int {
                    assert(!(pre[i].0 <= addr < pre[i].0 + pre[i].1.len()));
                } else if i < p as int && j > p as int {
                    assert(pre[i].0 < pre[j - 1].0 && pre[i].0 + pre[i].1.len() <= pre[j - 1].0);
                } else if i == p as int {
                    assert(!(addr <= pre[j - 1].0 < addr + size));
                    assert(pre[j - 1].0 >= addr);
                } else {
                    assert(pre[i - 1].0 < pre[j - 1].0 && pre[i - 1].0 + pre[i - 1].1.len() <= pre[j
                        - 1].0);
                }
            }
            assert(mux_entries_wf(self.entries()));
        }
        Ok(())
    }

    /// Writes `byte` at `addr` through the device owning that address.
    pub fn write_byte(&mut self, addr: u16, byte: u8) -> (r: Result<(), InvalidAddress>)
        requires
            old(self).inv(),
        ensures
            final(self).inv(),
            match mux_write_byte(old(self).entries(), addr, byte) {
                Ok(s) => r == Ok::<(), InvalidAddress>(()) && final(self).entries() == s,
                Err(e) => r == Err::<(), InvalidAddress>(e) && final(self).entries() == old(
                    self,
                ).entries(),
            },
    {
        let j = match self.select_index(addr) {
            None => {
                return Err(InvalidAddress);
            },
            Some(j) => j,
        };
        let ghost pre = self.entries();
        let mut entry = self.devices.remove(j);
        let ghost base = entry.0;
        let ghost oldc = entry.1.contents();
        let res = entry.1.write_byte(addr, byte);
        let ghost newc = entry.1.contents();
        self.devices.insert(j, entry);
        proof {
            assert(oldc == pre[j as int].1);
            assert(newc.len() == oldc.len());
            assert(self.entries() =~= pre.update(j as int, (base, newc)));
            if res is Err {
                assert(self.entries() =~= pre);
            }
        }
        res
    }

    /// Writes the little-endian word at `addr` through the device owning that
    /// address; both bytes go to the one owning device, so a word spanning
    /// two devices is rejected by the owner's own bounds check.
    pub fn write_word(&mut self, addr: u16, word: u16) -> (r: Result<(), InvalidAddress>)
        requires
            old(self).inv(),
        ensures
            final(self).inv(),
            match mux_write_word(old(self).entries(), addr, word) {
                Ok(s) => r == Ok::<(), InvalidAddress>(()) && final(self).entries() == s,
                Err(e) => r == Err::<(), InvalidAddress>(e) && final(self).entries() == old(
                    self,
                ).entries(),
            },
    {
        let j = match self.select_index(addr) {
            None => {
                return Err(InvalidAddress);
            },
            Some(j) => j,
        };
        let ghost pre = self.entries();
        let mut entry = self.devices.remove(j);
        let ghost base = entry.0;
        let ghost oldc = entry.1.contents();
        let res = entry.1.write_word(addr, word);
        let ghost newc = entry.1.contents();
        self.devices.insert(j, entry);
        proof {
            assert(oldc == pre[j as int].1);
            assert(newc.len() == oldc.len());
            assert(self.entries() =~= pre.update(j as int, (base, newc)));
            if res is Err {
                assert(self.entries() =~= pre);
            }
        }
        res
    }
}

/// A routed index lies in range and its base is at or below the address.
proof fn lemma_route_in_range(s: Seq<(u16, Seq<u8>)>, addr: u16)
    requires
        mux_route(s, addr) is Some,
    ensures
        0 <= mux_route(s, addr)->Some_0 < s.len(),
        s[mux_route(s, addr)->Some_0].0 <= addr,
    decreases s.len(),
{
    if s.len() > 0 && s[s.len() - 1].0 > addr {
        lemma_route_in_range(s.drop_last(), addr);
    }
}

/// Routing depends only on the base addresses, not on device contents.
proof fn lemma_route_same_bases(s: Seq<(u16, Seq<u8>)>, t: Seq<(u16, Seq<u8>)>, addr: u16)
    requires
        s.len() == t.len(),
        forall|i: int| 0 <= i < s.len() ==> ((#[trigger] s[i]).0 == (#[trigger] t[i]).0),
    ensures
        mux_route(s, addr) == mux_route(t, addr),
    decreases s.len(),
{
    if s.len() > 0 && s[s.len() - 1].0 > addr {
        lemma_route_same_bases(s.drop_last(), t.drop_last(), addr);
    }
}

/// Law: every pair of devices registered in a well-formed multiplexer owns
/// disjoint address ranges.
pub proof fn lemma_registered_ranges_disjoint<M: MemoryDevice>(m: &MemoryMultiplexer<M>)
    requires
        m.inv(),
    ensures
        mux_entries_wf(m.entries()),
        forall|i: int, j: int|
            #![trigger m.entries()[i], m.entries()[j]]
            0 <= i < m.entries().len() && 0 <= j < m.entries().len() && i != j ==> m.entries()[i].0
                + m.entries()[i].1.len() <= m.entries()[j].0 || m.entries()[j].0
                + m.entries()[j].1.len() <= m.entries()[i].0,
{
}

/// Law: a range that overflows the 16-bit address space can never be
/// registered, whatever is already registered.
pub proof fn lemma_add_overflow_rejected(s: Seq<(u16, Seq<u8>)>, addr: u16, size: nat)
    requires
        addr + size > 0xFFFF,
    ensures
        !mux_can_add(s, addr, size),
{
}

/// Law: a word written is the word read back. Whenever a word write at `addr`
/// succeeds, a word read at `addr` of the resulting state returns exactly the
/// word written.
pub proof fn lemma_write_word_then_read_word(s: Seq<(u16, Seq<u8>)>, addr: u16, word: u16)
    requires
        mux_entries_wf(s),
        mux_write_word(s, addr, word) is Ok,
    ensures
        mux_read_word(mux_write_word(s, addr, word)->Ok_0, addr) == Ok::<u16, InvalidAddress>(
            word,
        ),
{
    let i = mux_route(s, addr)->Some_0;
    let post = mux_write_word(s, addr, word)->Ok_0;
    lemma_route_in_range(s, addr);
    lemma_route_same_bases(post, s, addr);
    assert(post[i].1[addr as int] == word_low_byte(word));
    assert(post[i].1[addr + 1] == word_high_byte(word));
    assert(word_from_bytes(word_low_byte(word), word_high_byte(word)) == word);
}

/// Law: words are stored little-endian. After a successful word write at
/// `addr`, the byte at `addr` is the word's low byte and the byte at
/// `addr + 1` is its high byte.
pub proof fn lemma_write_word_endianness(s: Seq<(u16, Seq<u8>)>, addr: u16, word: u16)
    requires
        mux_entries_wf(s),
        mux_write_word(s, addr, word) is Ok,
    ensures
        mux_read_byte(mux_write_word(s, addr, word)->Ok_0, addr) == Ok::<u8, InvalidAddress>(
            word_low_byte(word),
        ),
        mux_read_byte(mux_write_word(s, addr, word)->Ok_0, (addr + 1) as u16) == Ok::<
            u8,
            InvalidAddress,
        >(word_high_byte(word)),
{
    let i = mux_route(s, addr)->Some_0;
    let post = mux_write_word(s, addr, word)->Ok_0;
    lemma_route_in_range(s, addr);
    lemma_route_same_bases(post, s, addr);
    assert(post[i].1[addr as int] == word_low_byte(word));
    assert(post[i].1[addr + 1] == word_high_byte(word));
    // The write's own bounds check puts addr + 1 inside device i, so no other
    // device's base can lie at or below addr + 1: the byte read there routes
    // to device i as well.
    assert forall|k: int| i < k < post.len() implies (#[trigger] post[k]).0 > addr + 1 by {
        assert(s[i].0 + s[i].1.len() <= s[k].0);
    }
    lemma_route_some(post, (addr + 1) as u16, i);
}

/// Law: boundary behavior of a device whose range starts at the bottom of
/// the address space. The byte read at its last address succeeds; the byte
/// read one past its end fails with an address error when no adjacent device
/// begins exactly there, and is answered by that device when one does.
pub proof fn lemma_read_byte_boundary(s: Seq<(u16, Seq<u8>)>)
    requires
        mux_entries_wf(s),
        s.len() > 0,
        s[0].0 == 0,
        s[0].1.len() > 0,
    ensures
        mux_read_byte(s, (s[0].1.len() - 1) as u16) == Ok::<u8, InvalidAddress>(
            s[0].1[s[0].1.len() - 1],
        ),
        (s.len() == 1 || s[1].0 > s[0].1.len()) ==> mux_read_byte(s, s[0].1.len() as u16) == Err::<
            u8,
            InvalidAddress,
        >(InvalidAddress),
        (s.len() > 1 && s[1].0 == s[0].1.len()) ==> mux_read_byte(s, s[0].1.len() as u16)
            == device_read_byte(s[1].1, s[0].1.len() as u16),
{
    let len = s[0].1.len();
    assert(s[0].0 + s[0].1.len() <= 0xFFFF);
    assert forall|k: int| 0 < k < s.len() implies (#[trigger] s[k]).0 >= len by {
        assert(s[0].0 + s[0].1.len() <= s[k].0);
    }
    lemma_route_some(s, (len - 1) as u16, 0);
    if s.len() == 1 || s[1].0 > len {
        assert forall|k: int| 0 < k < s.len() implies (#[trigger] s[k]).0 > len by {
            if k > 1 {
                assert(s[1].0 < s[k].0);
            }
        }
        lemma_route_some(s, len as u16, 0);
    } else if s.len() > 1 && s[1].0 == len {
        assert forall|k: int| 1 < k < s.len() implies (#[trigger] s[k]).0 > len by {
            assert(s[1].0 < s[k].0);
        }
        lemma_route_some(s, len as u16, 1);
    }
}

/// Law: round trip through a device registered at base zero. For every
/// address whose word lies inside that device, the word write succeeds and
/// the word read back returns the word written. A device at a higher base
/// rejects its own range, since addresses reach devices untranslated.
pub proof fn lemma_word_round_trip_at(s: Seq<(u16, Seq<u8>)>, addr: u16, word: u16)
    requires
        mux_entries_wf(s),
        s.len() > 0,
        s[0].0 == 0,
        addr + 1 < s[0].1.len(),
    ensures
        mux_write_word(s, addr, word) is Ok,
        mux_read_word(mux_write_word(s, addr, word)->Ok_0, addr) == Ok::<u16, InvalidAddress>(
            word,
        ),
{
    assert(s[0].0 + s[0].1.len() <= 0xFFFF);
    assert forall|k: int| 0 < k < s.len() implies (#[trigger] s[k]).0 > addr by {
        assert(s[0].0 + s[0].1.len() <= s[k].0);
    }
    lemma_route_some(s, addr, 0);
    lemma_write_word_then_read_word(s, addr, word);
}

} // verus!
