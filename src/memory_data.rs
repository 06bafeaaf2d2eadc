use vstd::prelude::*;

use crate::ioerr::{Error, Source};

verus! {

/// Addressable storage such as ROM or RAM data.
pub trait MemoryData: Sized {
    /// The stored bytes.
    spec fn bytes(&self) -> Seq<u8>;

    /// Get the total size of the memory data block.
    fn size(&self) -> (r: usize)
        ensures
            r == self.bytes().len();

    /// Get the byte at `address`.
    fn get_at(&self, address: usize) -> (r: u8)
        requires
            address < self.bytes().len(),
        ensures
            r == self.bytes()[address as int];

    /// Set the byte at `address`.
    fn set_at(&mut self, address: usize, value: u8)
        requires
            address < old(self).bytes().len(),
        ensures
            final(self).bytes() == old(self).bytes().update(address as int, value);

    /// Copies the data into a `Vec<u8>`.
    fn to_vec(&self) -> (r: Vec<u8>)
        ensures
            r@ == self.bytes();

    /// Replaces the data with `bytes`, which must have the same size.
    fn read_from_bytes(&mut self, bytes: &[u8]) -> (r: Result<(), Error>)
        ensures
            r.is_ok() <==> bytes@.len() == old(self).bytes().len(),
            r.is_ok() ==> final(self).bytes() == bytes@,
            r.is_err() ==> final(self).bytes() == old(self).bytes()
                && r == Err::<(), Error>(Error {
                    error_code: crate::ioerr::ErrorCode::InvalidFileSize(crate::ioerr::InvalidFileSizeError {
                        actual: bytes@.len() as usize,
                        expected: old(self).bytes().len() as usize,
                    }),
                    source: Source::RamImage,
                });
}

/// A copy of `bytes`.
fn copy_bytes(bytes: &[u8]) -> (r: Vec<u8>)
    ensures
        r@ == bytes@,
{
    let mut v: Vec<u8> = Vec::new();
    let mut i: usize = 0;
    while i < bytes.len()
        invariant
            i <= bytes@.len(),
            v@ == bytes@.take(i as int),
        decreases bytes@.len() - i,
    {
        v.push(bytes[i]);
        i = i + 1;
        assert(v@ =~= bytes@.take(i as int));
    }
    assert(bytes@.take(bytes@.len() as int) =~= bytes@);
    v
}

/// `n` copies of `value`.
fn filled(n: usize, value: u8) -> (r: Vec<u8>)
    ensures
        r@ == Seq::new(n as nat, |i: int| value),
{
    let mut v: Vec<u8> = Vec::new();
    let mut i: usize = 0;
    while i < n
        invariant
            i <= n,
            v@ == Seq::new(i as nat, |j: int| value),
        decreases n - i,
    {
        v.push(value);
        i = i + 1;
        assert(v@ =~= Seq::new(i as nat, |j: int| value));
    }
    v
}

/// Memory data of a size chosen at run time.
pub struct MemoryDataDynamic {
    data: Vec<u8>,
}

impl MemoryDataDynamic {
    /// Allocates `size` bytes, each 0xff.
    pub fn allocate(size: usize) -> (r: Self)
        ensures
            r.bytes() == Seq::new(size as nat, |i: int| 0xffu8),
    {
        Self { data: filled(size, 0xff) }
    }
}

impl MemoryData for MemoryDataDynamic {
    closed spec fn bytes(&self) -> Seq<u8> {
        self.data@
    }

    fn size(&self) -> (r: usize) {
        self.data.len()
    }

    fn get_at(&self, address: usize) -> (r: u8) {
        self.data[address]
    }

    fn set_at(&mut self, address: usize, value: u8) {
        self.data.set(address, value);
    }

    fn to_vec(&self) -> (r: Vec<u8>) {
        copy_bytes(self.data.as_slice())
    }

    fn read_from_bytes(&mut self, bytes: &[u8]) -> (r: Result<(), Error>) {
        if bytes.len() != self.data.len() {
            return Err(Error::invalid_size(Source::RamImage, bytes.len(), self.data.len()));
        }
        self.data = copy_bytes(bytes);
        Ok(())
    }
}

/// Memory data of a size fixed at compile time.
pub struct MemoryDataFixedSize<const SIZE: usize> {
    arr: Vec<u8>,
}

impl<const SIZE: usize> MemoryDataFixedSize<SIZE> {
    /// Allocates `SIZE` bytes, each 0.
    pub fn new() -> (r: Self)
        ensures
            r.bytes() == Seq::new(SIZE as nat, |i: int| 0u8),
    {
        Self { arr: filled(SIZE, 0) }
    }
}

impl<const SIZE: usize> MemoryData for MemoryDataFixedSize<SIZE> {
    closed spec fn bytes(&self) -> Seq<u8> {
        self.arr@
    }

    fn size(&self) -> (r: usize) {
        self.arr.len()
    }

    fn get_at(&self, address: usize) -> (r: u8) {
        self.arr[address]
    }

    fn set_at(&mut self, address: usize, value: u8) {
        self.arr.set(address, value);
    }

    fn to_vec(&self) -> (r: Vec<u8>) {
        copy_bytes(self.arr.as_slice())
    }

    fn read_from_bytes(&mut self, bytes: &[u8]) -> (r: Result<(), Error>) {
        if bytes.len() != self.arr.len() {
            return Err(Error::invalid_size(Source::RamImage, bytes.len(), self.arr.len()));
        }
        self.arr = copy_bytes(bytes);
        Ok(())
    }
}

/// Memory data holding a value of another type.
pub struct MemoryDataMapped<T> {
    data: Box<T>,
}

impl<T> MemoryDataMapped<T> {
    /// The held value.
    pub closed spec fn value(&self) -> T {
        *self.data
    }

    /// Wraps `data`.
    pub fn new(data: T) -> (r: Self)
        ensures
            r.value() == data,
    {
        Self { data: Box::new(data) }
    }

    /// Get the inner data object.
    pub fn get(&self) -> (r: &T)
        ensures
            *r == self.value(),
    {
        &self.data
    }

    /// Get the inner data object.
    pub fn get_mut(&mut self) -> (r: &mut T)
        ensures
            *r == old(self).value(),
            final(self).value() == *final(r),
    {
        &mut self.data
    }
}

} // verus!
