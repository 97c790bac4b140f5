//! The guest physical memory region and the binary loader.
//!
//! The region is a contiguous, zero-initialized block exposed to the guest
//! at physical address 0. It is modeled as an owned, bounds-checked byte
//! buffer; the application hands its backing bytes to the hardware when it
//! registers the region. Loading copies a raw image verbatim to offset 0
//! and fails, before anything runs, if the image does not fit.

use vstd::prelude::*;

verus! {

/// Why a load was refused.
#[derive(Clone, Copy, Debug, PartialEq, Eq)]
pub enum LoadError {
    /// The image has more bytes than the memory region: loading it would
    /// write past the end of the mapping.
    ImageTooLarge { image_len: usize, mem_size: usize },
}

/// The guest memory region: `size()` bytes backing guest physical
/// addresses `[0, size())`.
pub struct GuestMemory {
    bytes: Vec<u8>,
}

impl View for GuestMemory {
    type V = Seq<u8>;

    closed spec fn view(&self) -> Seq<u8> {
        self.bytes@
    }
}

impl GuestMemory {
    /// Allocates a fresh region of `size` bytes, all zero, as an
    /// anonymous mapping would hand them out.
    pub fn new(size: usize) -> (m: GuestMemory)
        ensures
            m@.len() == size,
            forall|i: int| 0 <= i < size ==> m@[i] == 0u8,
    {
        let mut bytes: Vec<u8> = Vec::new();
        let mut n: usize = 0;
        while n < size
            invariant
                n <= size,
                bytes@.len() == n,
                forall|i: int| 0 <= i < n ==> bytes@[i] == 0u8,
            decreases size - n,
        {
            bytes.push(0u8);
            n = n + 1;
        }
        GuestMemory { bytes }
    }

    /// The size of the region in bytes.
    pub fn size(&self) -> (n: usize)
        ensures
            n == self@.len(),
    {
        self.bytes.len()
    }

    /// The byte backing guest physical address `offset`.
    pub fn read_byte(&self, offset: usize) -> (b: u8)
        requires
            offset < self@.len(),
        ensures
            b == self@[offset as int],
    {
        self.bytes[offset]
    }

    /// The whole backing store, for the application to register with the
    /// hardware. Its address space is exactly the guest's physical
    /// address space `[0, size())`.
    pub fn as_bytes(&self) -> (s: &Vec<u8>)
        ensures
            s@ == self@,
    {
        &self.bytes
    }

    /// Copies `image` verbatim to offset 0 of the region, leaving every
    /// byte past the image as it was — or refuses, touching nothing,
    /// when the image does not fit.
    pub fn load_image(&mut self, image: &Vec<u8>) -> (r: Result<(), LoadError>)
        ensures
            final(self)@.len() == old(self)@.len(),
            r is Ok <==> image@.len() <= old(self)@.len(),
            r is Ok ==> forall|i: int| 0 <= i < image@.len() ==> final(self)@[i] == image@[i],
            r is Ok ==> forall|i: int|
                image@.len() <= i < final(self)@.len() ==> final(self)@[i] == old(self)@[i],
            r matches Err(e) ==> {
                &&& final(self)@ == old(self)@
                &&& e == (LoadError::ImageTooLarge {
                    image_len: image.len(),
                    mem_size: old(self)@.len() as usize,
                })
            },
    {
        if image.len() > self.bytes.len() {
            return Err(LoadError::ImageTooLarge {
                image_len: image.len(),
                mem_size: self.bytes.len(),
            });
        }
        let mut n: usize = 0;
        while n < image.len()
            invariant
                n <= image@.len(),
                image@.len() <= self@.len(),
                self@.len() == old(self)@.len(),
                forall|i: int| 0 <= i < n ==> self@[i] == image@[i],
                forall|i: int| n <= i < self@.len() ==> self@[i] == old(self)@[i],
            decreases image@.len() - n,
        {
            self.bytes[n] = image[n];
            n = n + 1;
        }
        Ok(())
    }
}

} // verus!
