//! Validated memory layouts: a byte size paired with a power-of-two
//! alignment that together fit the address space.

use vstd::prelude::*;
use vstd::arithmetic::power2::is_pow2;
use vstd::layout::valid_layout;

verus! {

/// Decides whether `a` is a power of two.
pub fn is_power_of_two(a: usize) -> (b: bool)
    ensures
        b == is_pow2(a as int),
{
    if a == 0 {
        proof {
            reveal(is_pow2);
        }
        false
    } else {
        let mut x: usize = a;
        while x % 2 == 0
            invariant
                1 <= x,
                is_pow2(a as int) == is_pow2(x as int),
            decreases x,
        {
            proof {
                reveal(is_pow2);
                assert(is_pow2(x as int) == is_pow2(x as int / 2));
            }
            x = x / 2;
        }
        proof {
            reveal(is_pow2);
            assert(is_pow2(x as int) == (x == 1));
        }
        x == 1
    }
}

/// Decides whether `(size, align)` is a valid layout: `align` a power of two
/// and `size`, rounded up to a multiple of `align`, within the address space.
pub fn is_valid_layout(size: usize, align: usize) -> (b: bool)
    ensures
        b == valid_layout(size, align),
{
    if !is_power_of_two(align) {
        false
    } else {
        let cap: usize = isize::MAX as usize;
        proof {
            reveal(is_pow2);
            vstd::arithmetic::div_mod::lemma_mod_decreases(cap as nat, align as nat);
        }
        size <= cap - cap % align
    }
}

/// A validated layout request: the byte size and alignment a storage region
/// is asked for.
#[derive(Debug, Clone, Copy)]
pub struct MemLayout {
    size: usize,
    align: usize,
}

impl MemLayout {
    #[verifier::type_invariant]
    spec fn inv(self) -> bool {
        valid_layout(self.size, self.align)
    }

    /// The byte size of the layout.
    pub closed spec fn spec_size(self) -> usize {
        self.size
    }

    /// The alignment of the layout.
    pub closed spec fn spec_align(self) -> usize {
        self.align
    }

    /// Returns the byte size.
    pub fn size(&self) -> (s: usize)
        ensures
            s == self.spec_size(),
            valid_layout(self.spec_size(), self.spec_align()),
    {
        proof {
            use_type_invariant(&*self);
        }
        self.size
    }

    /// Returns the alignment.
    pub fn align(&self) -> (a: usize)
        ensures
            a == self.spec_align(),
            valid_layout(self.spec_size(), self.spec_align()),
    {
        proof {
            use_type_invariant(&*self);
        }
        self.align
    }
}

/// Builds the layout for `size` bytes at alignment `align`. Callers must
/// present a valid pair; [`checked_layout`] decides validity first.
pub fn layout(size: usize, align: usize) -> (l: MemLayout)
    requires
        valid_layout(size, align),
    ensures
        l.spec_size() == size,
        l.spec_align() == align,
{
    MemLayout { size, align }
}

/// Validates `(size, align)`: returns the layout exactly when the pair is
/// valid, and `None` exactly when it is not.
pub fn checked_layout(size: usize, align: usize) -> (r: Option<MemLayout>)
    ensures
        match r {
            Some(l) => valid_layout(size, align) && l.spec_size() == size && l.spec_align()
                == align,
            None => !valid_layout(size, align),
        },
{
    if is_valid_layout(size, align) {
        Some(layout(size, align))
    } else {
        None
    }
}

} // verus!
