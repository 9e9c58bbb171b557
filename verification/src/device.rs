//! The memory device capability: the contract any addressable byte-storage
//! implementation must satisfy, and the virtual memory card, a trivial
//! in-memory device over a flat byte buffer. Words are little-endian: the low
//! byte sits at the lower address.

use vstd::prelude::*;

verus! {

/// An address (or `addr + 1` for a word access) lies outside a device's
/// bounds or outside the 16-bit address domain.
#[derive(Debug, Clone, Copy, PartialEq, Eq, Default, Structural)]
pub struct InvalidAddress;

/// A device's requested range overflows the address space or overlaps an
/// already-registered device.
#[derive(Debug, Clone, Copy, PartialEq, Eq, Default, Structural)]
pub struct InvalidMemoryDevice;

/// The low byte of a word: the byte stored at the lower address.
pub open spec fn word_low_byte(word: u16) -> u8 {
    (word % 256) as u8
}

/// The high byte of a word: the byte stored at the higher address.
pub open spec fn word_high_byte(word: u16) -> u8 {
    (word / 256) as u8
}

/// Two bytes combined little-endian into a word.
pub open spec fn word_from_bytes(low: u8, high: u8) -> u16 {
    (low + high * 256) as u16
}

/// What a device returns for a byte read at `addr`: the byte stored there,
/// or an address error if `addr` lies outside the device.
pub open spec fn device_read_byte(mem: Seq<u8>, addr: u16) -> Result<u8, InvalidAddress> {
    if addr < mem.len() {
        Ok(mem[addr as int])
    } else {
        Err(InvalidAddress)
    }
}

/// What a device returns for a word read at `addr`: the bytes at `addr` and
/// `addr + 1` combined little-endian, or an address error if `addr + 1`
/// overflows the 16-bit domain or either byte lies outside the device.
pub open spec fn device_read_word(mem: Seq<u8>, addr: u16) -> Result<u16, InvalidAddress> {
    if addr < 0xFFFF && addr + 1 < mem.len() {
        Ok(word_from_bytes(mem[addr as int], mem[addr + 1]))
    } else {
        Err(InvalidAddress)
    }
}

/// A device's contents after a byte write at `addr`, or an address error if
/// `addr` lies outside the device (the contents are then unchanged).
pub open spec fn device_write_byte(mem: Seq<u8>, addr: u16, byte: u8) -> Result<
    Seq<u8>,
    InvalidAddress,
> {
    if addr < mem.len() {
        Ok(mem.update(addr as int, byte))
    } else {
        Err(InvalidAddress)
    }
}

/// A device's contents after a word write at `addr`: the low byte stored at
/// `addr` and the high byte at `addr + 1`, under the same bounds rule as a
/// word read.
pub open spec fn device_write_word(mem: Seq<u8>, addr: u16, word: u16) -> Result<
    Seq<u8>,
    InvalidAddress,
> {
    if addr < 0xFFFF && addr + 1 < mem.len() {
        Ok(mem.update(addr as int, word_low_byte(word)).update(addr + 1, word_high_byte(word)))
    } else {
        Err(InvalidAddress)
    }
}

/// The capability any addressable byte-storage device must satisfy: a fixed
/// size and byte/word reads and writes over `[0, size)`, with words stored
/// little-endian and every failure reported as an address error that leaves
/// the contents unchanged.
pub trait MemoryDevice: Sized {
    /// The bytes the device stores.
    spec fn contents(&self) -> Seq<u8>;

    /// The device's internal invariant; in particular the contents fit the
    /// 16-bit address space.
    spec fn inv(&self) -> bool;

    fn size(&self) -> (r: u16)
        requires
            self.inv(),
        ensures
            r == self.contents().len(),
    ;

    fn read_byte(&self, addr: u16) -> (r: Result<u8, InvalidAddress>)
        requires
            self.inv(),
        ensures
            r == device_read_byte(self.contents(), addr),
    ;

    fn read_word(&self, addr: u16) -> (r: Result<u16, InvalidAddress>)
        requires
            self.inv(),
        ensures
            r == device_read_word(self.contents(), addr),
    ;

    fn write_byte(&mut self, addr: u16, byte: u8) -> (r: Result<(), InvalidAddress>)
        requires
            old(self).inv(),
        ensures
            final(self).inv(),
            match device_write_byte(old(self).contents(), addr, byte) {
                Ok(m) => r == Ok::<(), InvalidAddress>(()) && final(self).contents() == m,
                Err(e) => r == Err::<(), InvalidAddress>(e) && final(self).contents() == old(
                    self,
                ).contents(),
            },
    ;

    fn write_word(&mut self, addr: u16, word: u16) -> (r: Result<(), InvalidAddress>)
        requires
            old(self).inv(),
        ensures
            final(self).inv(),
            match device_write_word(old(self).contents(), addr, word) {
                Ok(m) => r == Ok::<(), InvalidAddress>(()) && final(self).contents() == m,
                Err(e) => r == Err::<(), InvalidAddress>(e) && final(self).contents() == old(
                    self,
                ).contents(),
            },
    ;
}

/// A trivial in-memory device: a flat zero-initialized byte buffer of a
/// fixed size.
#[derive(Debug, Clone, PartialEq, Eq)]
pub struct VirtualMemoryCard {
    data: Vec<u8>,
}

impl VirtualMemoryCard {
    /// Creates a card of `size` zero bytes.
    pub fn new(size: u16) -> (r: VirtualMemoryCard)
        ensures
            r.inv(),
            r.contents() == Seq::new(size as nat, |i: int| 0u8),
    {
        let mut data: Vec<u8> = Vec::new();
        let n = size as usize;
        while data.len() < n
            invariant
                data@.len() <= n,
                forall|i: int| 0 <= i < data@.len() ==> data@[i] == 0u8,
            decreases n - data@.len(),
        {
            data.push(0);
        }
        let r = VirtualMemoryCard { data };
        proof {
            assert(r.contents() =~= Seq::new(size as nat, |i: int| 0u8));
        }
        r
    }
}

impl MemoryDevice for VirtualMemoryCard {
    closed spec fn contents(&self) -> Seq<u8> {
        self.data@
    }

    closed spec fn inv(&self) -> bool {
        self.data@.len() <= 0xFFFF
    }

    fn size(&self) -> (r: u16) {
        self.data.len() as u16
    }

    fn read_byte(&self, addr: u16) -> (r: Result<u8, InvalidAddress>) {
        if (addr as usize) < self.data.len() {
            Ok(self.data[addr as usize])
        } else {
            Err(InvalidAddress)
        }
    }

    fn read_word(&self, addr: u16) -> (r: Result<u16, InvalidAddress>) {
        if addr < 0xFFFF && ((addr + 1) as usize) < self.data.len() {
            let low = self.data[addr as usize];
            let high = self.data[(addr + 1) as usize];
            Ok((low as u16) + (high as u16) * 256)
        } else {
            Err(InvalidAddress)
        }
    }

    fn write_byte(&mut self, addr: u16, byte: u8) -> (r: Result<(), InvalidAddress>) {
        if (addr as usize) < self.data.len() {
            self.data.set(addr as usize, byte);
            Ok(())
        } else {
            Err(InvalidAddress)
        }
    }

    fn write_word(&mut self, addr: u16, word: u16) -> (r: Result<(), InvalidAddress>) {
        if addr < 0xFFFF && ((addr + 1) as usize) < self.data.len() {
            self.data.set(addr as usize, (word % 256) as u8);
            self.data.set((addr + 1) as usize, (word / 256) as u8);
            Ok(())
        } else {
            Err(InvalidAddress)
        }
    }
}

} // verus!
