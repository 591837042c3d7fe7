//! A single-owner heap cell that records the alignment its storage was
//! requested at.

use vstd::prelude::*;
use vstd::arithmetic::power2::is_pow2;
use vstd::layout::{align_of, size_of, valid_layout, layout_for_type_is_valid};

verus! {

/// The alignment a cell built with requested alignment `align` actually
/// carries: the larger of `align` and the natural alignment of `T`.
pub open spec fn effective_align<T>(align: usize) -> usize {
    if align_of::<T>() as usize >= align {
        align_of::<T>() as usize
    } else {
        align
    }
}

/// Aligned heap allocation: owns exactly one value of `T`, placed at an
/// alignment at least as strict as both the requested one and the natural
/// alignment of `T`.
#[derive(Debug)]
pub struct AlignedBox<T> {
    value: T,
    align: usize,
}

impl<T> View for AlignedBox<T> {
    type V = T;

    closed spec fn view(&self) -> T {
        self.value
    }
}

/// Raw ownership token for a cell's storage: what `into_raw` hands out and
/// `from_raw` takes back. It owns the value but runs no handle logic; it is
/// the interop-boundary stand-in for a pointer-and-alignment pair.
#[derive(Debug)]
pub struct RawBox<T> {
    value: T,
    align: usize,
}

impl<T> View for RawBox<T> {
    type V = T;

    closed spec fn view(&self) -> T {
        self.value
    }
}

impl<T> RawBox<T> {
    #[verifier::type_invariant]
    spec fn inv(self) -> bool {
        &&& is_pow2(self.align as int)
        &&& self.align as nat >= align_of::<T>()
        &&& valid_layout(size_of::<T>() as usize, self.align)
    }

    /// The alignment the storage behind this token was requested at.
    pub closed spec fn alignment_spec(self) -> usize {
        self.align
    }
}

impl<T> AlignedBox<T> {
    #[verifier::type_invariant]
    spec fn inv(self) -> bool {
        &&& is_pow2(self.align as int)
        &&& self.align as nat >= align_of::<T>()
        &&& valid_layout(size_of::<T>() as usize, self.align)
    }

    /// The alignment of the box's storage.
    pub closed spec fn alignment_spec(self) -> usize {
        self.align
    }

    /// Allocates storage with the effective alignment for `align` and places
    /// `x` into it. Zero-sized values occupy no storage.
    pub fn new(x: T, align: usize) -> (b: Self)
        requires
            valid_layout(size_of::<T>() as usize, effective_align::<T>(align)),
        ensures
            b@ == x,
            b.alignment_spec() == effective_align::<T>(align),
    {
        layout_for_type_is_valid::<T>();
        let natural: usize = core::mem::align_of::<T>();
        let align: usize = if natural >= align {
            natural
        } else {
            align
        };
        AlignedBox { value: x, align }
    }

    /// Consumes the box without dropping its contents, returning the raw
    /// storage token and the alignment.
    pub fn into_raw(this: Self) -> (r: (RawBox<T>, usize))
        ensures
            r.0@ == this@,
            r.0.alignment_spec() == this.alignment_spec(),
            r.1 == this.alignment_spec(),
    {
        proof {
            use_type_invariant(&this);
        }
        let AlignedBox { value, align } = this;
        (RawBox { value, align }, align)
    }

    /// Rebuilds a box from a raw storage token. `align` must be the
    /// alignment the token was produced with, exactly as `into_raw`
    /// returned it.
    pub fn from_raw(raw: RawBox<T>, align: usize) -> (b: Self)
        requires
            align == raw.alignment_spec(),
        ensures
            b@ == raw@,
            b.alignment_spec() == align,
    {
        proof {
            use_type_invariant(&raw);
        }
        let RawBox { value, align } = raw;
        AlignedBox { value, align }
    }

    /// Returns the alignment of the box: always a power of two, and never
    /// below the natural alignment of `T`.
    pub fn alignment(this: &Self) -> (a: usize)
        ensures
            a == this.alignment_spec(),
            is_pow2(a as int),
            a as nat >= align_of::<T>(),
    {
        proof {
            use_type_invariant(&*this);
        }
        this.align
    }

    /// Shared access to the owned value.
    pub fn get(&self) -> (r: &T)
        ensures
            r == self@,
    {
        &self.value
    }

    /// Exclusive access: replaces the owned value in place. The storage and
    /// its alignment stay as they are.
    pub fn set(&mut self, x: T)
        ensures
            final(self)@ == x,
            final(self).alignment_spec() == old(self).alignment_spec(),
    {
        proof {
            use_type_invariant(&*self);
        }
        self.value = x;
    }
}

/// Round-trip law: a box rebuilt from the raw parts of another box is that
/// box. The premises are exactly what `into_raw` ensures of the token pair
/// `r` it returns for `b`, and what `from_raw` ensures of its result `b2`;
/// nothing is lost or changed on the way out and back.
pub proof fn lemma_raw_round_trip<T>(b: AlignedBox<T>, r: (RawBox<T>, usize), b2: AlignedBox<T>)
    requires
        r.0@ == b@,
        r.0.alignment_spec() == b.alignment_spec(),
        r.1 == b.alignment_spec(),
        b2@ == r.0@,
        b2.alignment_spec() == r.1,
    ensures
        b2 == b,
{
}

} // verus!
