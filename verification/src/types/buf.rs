//! Tiered, address-stable byte buffers.
//!
//! A buffer's storage is allocated once, as a boxed fixed-size array at one
//! of four capacity tiers, and its bytes are only ever written in place, so
//! the address of its first byte — taken once at construction and handed to
//! foreign code — stays valid for the buffer's whole lifetime.

use crate::error::Error;
use vstd::prelude::*;
use vstd::slice::slice_subrange;

verus! {

broadcast use vstd::array::group_array_axioms;

pub const BUF_DATA_SMALL_SIZE: usize = 32;

pub const BUF_DATA_MEDIUM_SIZE: usize = 128;

pub const BUF_DATA_LARGE_SIZE: usize = 1024;

pub const BUF_DATA_MEGA_SIZE: usize = 1024 * 64;

/// Backing storage for a buffer, one variant per capacity tier. Each
/// variant holds a boxed array of exactly its tier's length, so every
/// value of this type — however it was built — has as many bytes as its
/// tier says, and nothing can resize or reallocate the storage.
#[derive(Debug)]
pub enum BufData {
    Small(Box<[u8; BUF_DATA_SMALL_SIZE]>),
    Medium(Box<[u8; BUF_DATA_MEDIUM_SIZE]>),
    Large(Box<[u8; BUF_DATA_LARGE_SIZE]>),
    Mega(Box<[u8; BUF_DATA_MEGA_SIZE]>),
}

impl BufData {
    /// The bytes of the full tier.
    pub open spec fn spec_data(&self) -> Seq<u8> {
        match self {
            BufData::Small(a) => a@,
            BufData::Medium(a) => a@,
            BufData::Large(a) => a@,
            BufData::Mega(a) => a@,
        }
    }

    /// The capacity the variant stands for.
    pub open spec fn spec_capacity(&self) -> int {
        match self {
            BufData::Small(_) => BUF_DATA_SMALL_SIZE as int,
            BufData::Medium(_) => BUF_DATA_MEDIUM_SIZE as int,
            BufData::Large(_) => BUF_DATA_LARGE_SIZE as int,
            BufData::Mega(_) => BUF_DATA_MEGA_SIZE as int,
        }
    }

    pub fn new_small() -> (r: BufData)
        ensures
            r is Small,
            r.spec_data().len() == BUF_DATA_SMALL_SIZE,
            forall|i: int| 0 <= i < r.spec_data().len() ==> r.spec_data()[i] == 0u8,
    {
        BufData::Small(Box::new([0u8; BUF_DATA_SMALL_SIZE]))
    }

    pub fn new_medium() -> (r: BufData)
        ensures
            r is Medium,
            r.spec_data().len() == BUF_DATA_MEDIUM_SIZE,
            forall|i: int| 0 <= i < r.spec_data().len() ==> r.spec_data()[i] == 0u8,
    {
        BufData::Medium(Box::new([0u8; BUF_DATA_MEDIUM_SIZE]))
    }

    pub fn new_large() -> (r: BufData)
        ensures
            r is Large,
            r.spec_data().len() == BUF_DATA_LARGE_SIZE,
            forall|i: int| 0 <= i < r.spec_data().len() ==> r.spec_data()[i] == 0u8,
    {
        BufData::Large(Box::new([0u8; BUF_DATA_LARGE_SIZE]))
    }

    pub fn new_mega() -> (r: BufData)
        ensures
            r is Mega,
            r.spec_data().len() == BUF_DATA_MEGA_SIZE,
            forall|i: int| 0 <= i < r.spec_data().len() ==> r.spec_data()[i] == 0u8,
    {
        BufData::Mega(Box::new([0u8; BUF_DATA_MEGA_SIZE]))
    }

    /// The full tier, read-only.
    pub fn get(&self) -> (r: &[u8])
        ensures
            r@ == self.spec_data(),
            r@.len() == self.spec_capacity(),
    {
        match self {
            BufData::Small(a) => a.as_slice(),
            BufData::Medium(a) => a.as_slice(),
            BufData::Large(a) => a.as_slice(),
            BufData::Mega(a) => a.as_slice(),
        }
    }

    /// The full tier, writable in place. The slice cannot be resized, so
    /// the tier's length — and its storage — survive every use.
    pub fn get_mut(&mut self) -> (r: &mut [u8])
        ensures
            r@ == old(self).spec_data(),
            final(self).spec_data() == final(r)@,
            final(self).spec_capacity() == old(self).spec_capacity(),
            final(self).spec_data().len() == old(self).spec_data().len(),
    {
        match self {
            BufData::Small(a) => vstd::array::ref_mut_array_unsizing_coercion(&mut **a),
            BufData::Medium(a) => vstd::array::ref_mut_array_unsizing_coercion(&mut **a),
            BufData::Large(a) => vstd::array::ref_mut_array_unsizing_coercion(&mut **a),
            BufData::Mega(a) => vstd::array::ref_mut_array_unsizing_coercion(&mut **a),
        }
    }
}

/// Every tier's storage holds exactly as many bytes as the tier says:
/// the arrays' lengths are fixed by their types.
pub proof fn lemma_buf_data_len(d: &BufData)
    ensures
        d.spec_data().len() == d.spec_capacity(),
{
}

/// The smallest tier capacity that holds `size` bytes, per the half-open
/// boundary rule of `Buf::new`.
pub open spec fn spec_tier_capacity(size: int) -> int {
    if size <= BUF_DATA_SMALL_SIZE as int {
        BUF_DATA_SMALL_SIZE as int
    } else if size <= BUF_DATA_MEDIUM_SIZE as int {
        BUF_DATA_MEDIUM_SIZE as int
    } else if size < BUF_DATA_LARGE_SIZE as int {
        BUF_DATA_LARGE_SIZE as int
    } else {
        BUF_DATA_MEGA_SIZE as int
    }
}

/// Relies on `<[u8]>::as_ptr`: returns the address of the first byte of the
/// slice's backing storage. The address depends on the machine, so nothing
/// further is stated of it.
#[verifier::external_body]
fn buffer_address(data: &[u8]) -> (r: u64) {
    data.as_ptr() as u64
}

/// A byte buffer at a fixed capacity tier. The requested logical size is
/// remembered separately from the tier capacity; `data` and `data_mut`
/// expose the logical window only.
#[derive(Debug)]
pub struct Buf {
    data: BufData,
    size: usize,
    addr: u64,
}

impl Buf {
    /// The buffer's bytes, over the full tier capacity.
    pub closed spec fn spec_bytes(&self) -> Seq<u8> {
        self.data.spec_data()
    }

    /// The requested logical size.
    pub closed spec fn spec_size(&self) -> int {
        self.size as int
    }

    /// The tier capacity.
    pub closed spec fn spec_capacity(&self) -> int {
        self.data.spec_capacity()
    }

    /// The address of the buffer's first byte, taken at construction.
    pub closed spec fn spec_addr(&self) -> u64 {
        self.addr
    }

    /// The logical window: the first `size` bytes of the tier.
    pub open spec fn spec_window(&self) -> Seq<u8> {
        self.spec_bytes().subrange(0, self.spec_size())
    }

    /// The tier is the one selected for the logical size, which therefore
    /// fits within it.
    pub closed spec fn spec_wf(&self) -> bool {
        &&& self.size as int <= self.data.spec_capacity()
        &&& self.data.spec_capacity() == spec_tier_capacity(self.size as int)
    }

    /// Allocates the smallest tier whose capacity holds `size` bytes:
    /// sizes up to 32 get the small tier, up to 128 the medium tier, below
    /// 1024 the large tier, and below 65536 the mega tier. Anything larger
    /// fails with `BufTooLarge`, carrying the requested size.
    pub fn new(size: usize) -> (r: Result<Buf, Error>)
        ensures
            (size < BUF_DATA_MEGA_SIZE) == (r is Ok),
            r matches Ok(b) ==> {
                &&& b.spec_wf()
                &&& b.spec_size() == size as int
                &&& b.spec_capacity() == spec_tier_capacity(size as int)
                &&& b.spec_bytes().len() == spec_tier_capacity(size as int)
                &&& forall|i: int| 0 <= i < b.spec_bytes().len() ==> b.spec_bytes()[i] == 0u8
            },
            r matches Err(e) ==> e matches Error::BufTooLarge(s) && s == size,
    {
        if size <= BUF_DATA_SMALL_SIZE {
            let data = BufData::new_small();
            let addr = buffer_address(data.get());
            Ok(Buf { data, size, addr })
        } else if size <= BUF_DATA_MEDIUM_SIZE {
            let data = BufData::new_medium();
            let addr = buffer_address(data.get());
            Ok(Buf { data, size, addr })
        } else if size < BUF_DATA_LARGE_SIZE {
            let data = BufData::new_large();
            let addr = buffer_address(data.get());
            Ok(Buf { data, size, addr })
        } else if size < BUF_DATA_MEGA_SIZE {
            let data = BufData::new_mega();
            let addr = buffer_address(data.get());
            Ok(Buf { data, size, addr })
        } else {
            Err(Error::BufTooLarge(size))
        }
    }

    /// The logical window, read-only.
    pub fn data(&self) -> (r: &[u8])
        requires
            self.spec_wf(),
        ensures
            r@ == self.spec_window(),
    {
        proof {
            lemma_buf_data_len(&self.data);
        }
        slice_subrange(self.data.get(), 0, self.size)
    }

    /// The logical window, writable in place. Writing through the window
    /// cannot move the storage, so the address taken at construction stays
    /// valid.
    pub fn data_mut(&mut self) -> (r: &mut [u8])
        requires
            old(self).spec_wf(),
        ensures
            r@ == old(self).spec_window(),
            final(self).spec_size() == old(self).spec_size(),
            final(self).spec_addr() == old(self).spec_addr(),
            final(self).spec_capacity() == old(self).spec_capacity(),
            final(self).spec_bytes() == final(r)@ + old(self).spec_bytes().subrange(
                old(self).spec_size(),
                old(self).spec_bytes().len() as int,
            ),
            final(r)@.len() == old(self).spec_size() ==> final(self).spec_wf(),
    {
        proof {
            lemma_buf_data_len(&self.data);
        }
        let size = self.size;
        let (window, _) = self.data.get_mut().split_at_mut(size);
        window
    }

    pub fn size(&self) -> (r: usize)
        ensures
            r as int == self.spec_size(),
    {
        self.size
    }

    /// The tier capacity the buffer was allocated at.
    pub fn capacity(&self) -> (r: usize)
        ensures
            r as int == self.spec_capacity(),
    {
        match &self.data {
            BufData::Small(_) => BUF_DATA_SMALL_SIZE,
            BufData::Medium(_) => BUF_DATA_MEDIUM_SIZE,
            BufData::Large(_) => BUF_DATA_LARGE_SIZE,
            BufData::Mega(_) => BUF_DATA_MEGA_SIZE,
        }
    }

    /// The address of the buffer's first byte.
    pub(crate) fn address(&self) -> (r: u64)
        ensures
            r == self.spec_addr(),
    {
        self.addr
    }
}

/// Facts about a well-formed buffer that its callers rely on.
pub proof fn lemma_buf_wf(b: &Buf)
    requires
        b.spec_wf(),
    ensures
        0 <= b.spec_size() <= b.spec_bytes().len(),
        b.spec_bytes().len() <= BUF_DATA_MEGA_SIZE,
        b.spec_window().len() == b.spec_size(),
{
    lemma_buf_data_len(&b.data);
}

} // verus!
