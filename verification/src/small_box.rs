//! A compact owned byte buffer: the bytes together with a length and capacity packed into fewer
//! bits than two `usize`s.

use core::marker::PhantomData;
use vstd::prelude::*;

use crate::string::Str;

verus! {

/// Length and capacity packed into 32 bits each (64-bit platforms)
#[derive(Clone, Copy)]
pub struct LengthCapacity {
    len: u32,
    cap: u32,
}

impl LengthCapacity {
    /// The largest capacity that can be stored
    pub const MAX_CAPACITY: usize = 0xffff_ffff;

    /// The stored length
    pub closed spec fn spec_len(self) -> nat {
        self.len as nat
    }

    /// The stored capacity
    pub closed spec fn spec_cap(self) -> nat {
        self.cap as nat
    }

    /// Packs a length and capacity. The capacity must not exceed [Self::MAX_CAPACITY]; the length
    /// is kept modulo 2^32.
    pub fn new(len: usize, cap: usize) -> (r: Self)
        requires
            cap <= Self::MAX_CAPACITY,
        ensures
            r.spec_len() == len as int % 0x1_0000_0000,
            r.spec_cap() == cap,
    {
        assert((len as u32) as int == len as int % 0x1_0000_0000) by (bit_vector);
        LengthCapacity { len: len as u32, cap: cap as u32 }
    }

    /// Returns the stored length
    pub fn len(&self) -> (r: usize)
        ensures
            r == self.spec_len(),
    {
        self.len as usize
    }

    /// Returns the stored capacity
    pub fn cap(&self) -> (r: usize)
        ensures
            r == self.spec_cap(),
    {
        self.cap as usize
    }
}

/// Length and capacity packed into 16 bits each (32-bit platforms)
#[derive(Clone, Copy)]
pub struct LengthCapacity16 {
    len: u16,
    cap: u16,
}

impl LengthCapacity16 {
    /// The largest capacity that can be stored
    pub const MAX_CAPACITY: usize = 0xffff;

    /// The stored length
    pub closed spec fn spec_len(self) -> nat {
        self.len as nat
    }

    /// The stored capacity
    pub closed spec fn spec_cap(self) -> nat {
        self.cap as nat
    }

    /// Packs a length and capacity. The capacity must not exceed [Self::MAX_CAPACITY]; the length
    /// is kept modulo 2^16.
    pub fn new(len: usize, cap: usize) -> (r: Self)
        requires
            cap <= Self::MAX_CAPACITY,
        ensures
            r.spec_len() == len as int % 0x1_0000,
            r.spec_cap() == cap,
    {
        assert((len as u16) as int == len as int % 0x1_0000) by (bit_vector);
        LengthCapacity16 { len: len as u16, cap: cap as u16 }
    }

    /// Returns the stored length
    pub fn len(&self) -> (r: usize)
        ensures
            r == self.spec_len(),
    {
        self.len as usize
    }

    /// Returns the stored capacity
    pub fn cap(&self) -> (r: usize)
        ensures
            r == self.spec_cap(),
    {
        self.cap as usize
    }
}

/// Length and capacity packed into 24 bits each, as a 16-bit low part and an 8-bit high part
/// (32-bit platforms, large strings)
#[derive(Clone, Copy)]
pub struct LengthCapacity24 {
    len: u16,
    cap: u16,
    len_extra: u8,
    cap_extra: u8,
}

impl LengthCapacity24 {
    /// The largest capacity that can be stored
    pub const MAX_CAPACITY: usize = 0xff_ffff;

    /// The stored length
    pub closed spec fn spec_len(self) -> nat {
        (self.len as nat) + (self.len_extra as nat) * 0x1_0000
    }

    /// The stored capacity
    pub closed spec fn spec_cap(self) -> nat {
        (self.cap as nat) + (self.cap_extra as nat) * 0x1_0000
    }

    /// Packs a length and capacity. The capacity must not exceed [Self::MAX_CAPACITY]; the length
    /// is kept modulo 2^24.
    pub fn new(len: usize, cap: usize) -> (r: Self)
        requires
            cap <= Self::MAX_CAPACITY,
        ensures
            r.spec_len() == len as int % 0x100_0000,
            r.spec_cap() == cap,
    {
        assert((len as u16) as int + ((len >> 16usize) as u8) as int * 0x1_0000 == len as int
            % 0x100_0000) by (bit_vector);
        assert(cap <= 0xff_ffff ==> (cap as u16) as int + ((cap >> 16usize) as u8) as int
            * 0x1_0000 == cap as int) by (bit_vector);
        LengthCapacity24 {
            len: len as u16,
            cap: cap as u16,
            len_extra: (len >> 16usize) as u8,
            cap_extra: (cap >> 16usize) as u8,
        }
    }

    /// Returns the stored length
    pub fn len(&self) -> (r: usize)
        ensures
            r == self.spec_len(),
    {
        let lo = self.len;
        let hi = self.len_extra;
        assert((lo as usize) + ((hi as usize) << 16usize) == lo as int + hi as int * 0x1_0000)
            by (bit_vector);
        self.len as usize + ((self.len_extra as usize) << 16usize)
    }

    /// Returns the stored capacity
    pub fn cap(&self) -> (r: usize)
        ensures
            r == self.spec_cap(),
    {
        let lo = self.cap;
        let hi = self.cap_extra;
        assert((lo as usize) + ((hi as usize) << 16usize) == lo as int + hi as int * 0x1_0000)
            by (bit_vector);
        self.cap as usize + ((self.cap_extra as usize) << 16usize)
    }
}

/// Length and capacity packed into 48 bits each, as a 32-bit low part and a 16-bit high part
/// (64-bit platforms, large strings)
#[derive(Clone, Copy)]
pub struct LengthCapacity48 {
    len: u32,
    cap: u32,
    len_extra: u16,
    cap_extra: u16,
}

impl LengthCapacity48 {
    /// The largest capacity that can be stored
    pub const MAX_CAPACITY: u64 = 0xffff_ffff_ffff;

    /// The stored length
    pub closed spec fn spec_len(self) -> nat {
        (self.len as nat) + (self.len_extra as nat) * 0x1_0000_0000
    }

    /// The stored capacity
    pub closed spec fn spec_cap(self) -> nat {
        (self.cap as nat) + (self.cap_extra as nat) * 0x1_0000_0000
    }

    /// Packs a length and capacity. The capacity must not exceed [Self::MAX_CAPACITY]; the length
    /// is kept modulo 2^48.
    pub fn new(len: u64, cap: u64) -> (r: Self)
        requires
            cap <= Self::MAX_CAPACITY,
        ensures
            r.spec_len() == len as int % 0x1_0000_0000_0000,
            r.spec_cap() == cap,
    {
        assert((len as u32) as int + ((len >> 32u64) as u16) as int * 0x1_0000_0000 == len as int
            % 0x1_0000_0000_0000) by (bit_vector);
        assert(cap <= 0xffff_ffff_ffff ==> (cap as u32) as int + ((cap >> 32u64) as u16) as int
            * 0x1_0000_0000 == cap as int) by (bit_vector);
        LengthCapacity48 {
            len: len as u32,
            cap: cap as u32,
            len_extra: (len >> 32u64) as u16,
            cap_extra: (cap >> 32u64) as u16,
        }
    }

    /// Returns the stored length
    pub fn len(&self) -> (r: u64)
        ensures
            r == self.spec_len(),
    {
        let lo = self.len;
        let hi = self.len_extra;
        assert((lo as u64) + ((hi as u64) << 32u64) == lo as int + hi as int * 0x1_0000_0000)
            by (bit_vector);
        self.len as u64 + ((self.len_extra as u64) << 32u64)
    }

    /// Returns the stored capacity
    pub fn cap(&self) -> (r: u64)
        ensures
            r == self.spec_cap(),
    {
        let lo = self.cap;
        let hi = self.cap_extra;
        assert((lo as u64) + ((hi as u64) << 32u64) == lo as int + hi as int * 0x1_0000_0000)
            by (bit_vector);
        self.cap as u64 + ((self.cap_extra as u64) << 32u64)
    }
}

} // verus!

verus! {

/// Calls `Vec::capacity`. The capacity is what the allocator gave, so only that it holds the
/// vector's elements is stated.
#[verifier::external_body]
fn vec_capacity(v: &Vec<u8>) -> (r: usize)
    ensures
        r >= v@.len(),
{
    v.capacity()
}

/// A compact owned string buffer of kind `S`: the bytes with their length and capacity packed
/// into a [LengthCapacity]
pub struct SmallBox<S: Str> {
    buf: Vec<u8>,
    len_cap: LengthCapacity,
    kind: PhantomData<S>,
}

impl<S: Str> View for SmallBox<S> {
    type V = Seq<u8>;

    /// The bytes held
    closed spec fn view(&self) -> Seq<u8> {
        self.buf@
    }
}

impl<S: Str> SmallBox<S> {
    #[verifier::type_invariant]
    spec fn inv(self) -> bool {
        &&& self.buf@.len() == self.len_cap.spec_len()
        &&& self.len_cap.spec_len() <= self.len_cap.spec_cap() <= LengthCapacity::MAX_CAPACITY
        &&& S::valid_data(self.buf@)
    }

    /// The capacity recorded when the buffer was boxed
    pub closed spec fn spec_cap(self) -> nat {
        self.len_cap.spec_cap()
    }

    /// Boxes a buffer, recording its length and capacity. The length must not exceed
    /// [LengthCapacity::MAX_CAPACITY], a string too large to box; a larger capacity is recorded as
    /// that limit.
    pub fn new(buf: Vec<u8>) -> (r: Self)
        requires
            buf@.len() <= LengthCapacity::MAX_CAPACITY,
            S::valid_data(buf@),
        ensures
            r@ == buf@,
            buf@.len() <= r.spec_cap() <= LengthCapacity::MAX_CAPACITY,
    {
        let len = buf.len();
        let capacity = vec_capacity(&buf);
        let cap = if capacity <= LengthCapacity::MAX_CAPACITY {
            capacity
        } else {
            LengthCapacity::MAX_CAPACITY
        };
        let len_cap = LengthCapacity::new(len, cap);
        SmallBox { buf, len_cap, kind: PhantomData }
    }

    /// An empty box
    pub fn empty() -> (r: Self)
        requires
            S::valid_data(Seq::<u8>::empty()),
        ensures
            r@ == Seq::<u8>::empty(),
    {
        Self::new(Vec::new())
    }

    /// The boxed bytes (this model holds them in place of a raw pointer)
    pub fn ptr(&self) -> (r: &[u8])
        ensures
            r@ == self@,
            r@.len() <= LengthCapacity::MAX_CAPACITY,
            S::valid_data(r@),
    {
        proof {
            use_type_invariant(self);
        }
        self.buf.as_slice()
    }

    /// The boxed length
    pub fn len(&self) -> (r: usize)
        ensures
            r == self@.len(),
    {
        proof {
            use_type_invariant(self);
        }
        self.len_cap.len()
    }

    /// The recorded capacity of the boxed buffer: at least its length, at most
    /// [LengthCapacity::MAX_CAPACITY]
    pub fn cap(&self) -> (r: usize)
        ensures
            r == self.spec_cap(),
            self@.len() <= r <= LengthCapacity::MAX_CAPACITY,
    {
        proof {
            use_type_invariant(self);
        }
        self.len_cap.cap()
    }

    /// Takes the bytes out, leaving an empty box behind
    pub fn take(&mut self) -> (r: Vec<u8>)
        requires
            S::valid_data(Seq::<u8>::empty()),
        ensures
            r@ == old(self)@,
            S::valid_data(r@),
            final(self)@ == Seq::<u8>::empty(),
    {
        proof {
            use_type_invariant(&*self);
        }
        let mut other = Self::empty();
        core::mem::swap(self, &mut other);
        other.buf
    }
}

} // verus!
