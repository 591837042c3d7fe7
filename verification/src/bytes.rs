//! A contiguous fixed-length byte buffer with a specified alignment.

use vstd::prelude::*;
use vstd::layout::valid_layout;

verus! {

/// A contiguous fixed-length byte buffer placed at a specified alignment.
/// The length is fixed at construction and never changes in place.
#[derive(Debug)]
pub struct AlignedBytes {
    buf: Vec<u8>,
    align: usize,
}

impl View for AlignedBytes {
    type V = Seq<u8>;

    closed spec fn view(&self) -> Seq<u8> {
        self.buf@
    }
}

/// Raw ownership token for a buffer's storage: what `into_raw` hands out and
/// `from_raw` takes back. It owns the bytes but runs no handle logic; it is
/// the interop-boundary stand-in for a pointer-and-alignment pair.
#[derive(Debug)]
pub struct RawBytes {
    buf: Vec<u8>,
    align: usize,
}

impl View for RawBytes {
    type V = Seq<u8>;

    closed spec fn view(&self) -> Seq<u8> {
        self.buf@
    }
}

impl RawBytes {
    #[verifier::type_invariant]
    spec fn inv(self) -> bool {
        valid_layout(self.buf@.len() as usize, self.align)
    }

    /// The alignment the storage behind this token was requested at.
    pub closed spec fn align_spec(self) -> usize {
        self.align
    }
}

impl AlignedBytes {
    #[verifier::type_invariant]
    spec fn inv(self) -> bool {
        valid_layout(self.buf@.len() as usize, self.align)
    }

    /// The alignment of the buffer's storage.
    pub closed spec fn align_spec(self) -> usize {
        self.align
    }

    /// Allocates a zero-initialized byte buffer of `len` bytes with an exact
    /// alignment. A zero-length buffer occupies no storage.
    pub fn new_zeroed(len: usize, align: usize) -> (b: Self)
        requires
            valid_layout(len, align),
        ensures
            b@ == Seq::new(len as nat, |i: int| 0u8),
            b.align_spec() == align,
    {
        let mut buf: Vec<u8> = Vec::new();
        let mut i: usize = 0;
        while i < len
            invariant
                i <= len,
                buf@ == Seq::new(i as nat, |j: int| 0u8),
            decreases len - i,
        {
            buf.push(0u8);
            i = i + 1;
            proof {
                assert(buf@ =~= Seq::new(i as nat, |j: int| 0u8));
            }
        }
        AlignedBytes { buf, align }
    }

    /// Allocates a byte buffer with an exact alignment and copies `bytes`
    /// into it; the new storage never aliases the source.
    pub fn new_from_slice(bytes: &[u8], align: usize) -> (b: Self)
        requires
            valid_layout(bytes@.len() as usize, align),
        ensures
            b@ == bytes@,
            b.align_spec() == align,
    {
        let len: usize = bytes.len();
        let mut buf: Vec<u8> = Vec::new();
        let mut i: usize = 0;
        while i < len
            invariant
                i <= len,
                len == bytes@.len(),
                buf@ == bytes@.subrange(0, i as int),
            decreases len - i,
        {
            buf.push(bytes[i]);
            i = i + 1;
            proof {
                assert(buf@ =~= bytes@.subrange(0, i as int));
            }
        }
        proof {
            assert(bytes@.subrange(0, len as int) =~= bytes@);
        }
        AlignedBytes { buf, align }
    }

    /// Returns the alignment of the byte buffer.
    pub fn align(&self) -> (a: usize)
        ensures
            a == self.align_spec(),
            valid_layout(self@.len() as usize, a),
    {
        proof {
            use_type_invariant(&*self);
        }
        self.align
    }

    /// The number of bytes the buffer holds.
    pub fn len(&self) -> (n: usize)
        ensures
            n == self@.len(),
    {
        self.buf.len()
    }

    /// Shared access to the buffer's contents.
    pub fn as_slice(&self) -> (s: &[u8])
        ensures
            s@ == self@,
    {
        self.buf.as_slice()
    }

    /// Exclusive access: writes byte `v` at index `i`. Length and alignment
    /// stay as they are.
    pub fn set(&mut self, i: usize, v: u8)
        requires
            i < old(self)@.len(),
        ensures
            final(self)@ == old(self)@.update(i as int, v),
            final(self).align_spec() == old(self).align_spec(),
    {
        proof {
            use_type_invariant(&*self);
        }
        self.buf[i] = v;
    }

    /// Consumes the buffer without releasing its storage, returning the raw
    /// storage token and the alignment.
    pub fn into_raw(this: Self) -> (r: (RawBytes, usize))
        ensures
            r.0@ == this@,
            r.0.align_spec() == this.align_spec(),
            r.1 == this.align_spec(),
    {
        proof {
            use_type_invariant(&this);
        }
        let AlignedBytes { buf, align } = this;
        (RawBytes { buf, align }, align)
    }

    /// Rebuilds a buffer from a raw storage token. `align` must be the
    /// alignment the token was produced with, exactly as `into_raw`
    /// returned it.
    pub fn from_raw(raw: RawBytes, align: usize) -> (b: Self)
        requires
            align == raw.align_spec(),
        ensures
            b@ == raw@,
            b.align_spec() == align,
    {
        proof {
            use_type_invariant(&raw);
        }
        let RawBytes { buf, align } = raw;
        AlignedBytes { buf, align }
    }
}

impl Clone for AlignedBytes {
    /// Cloning copies the bytes into fresh storage of the same length and
    /// alignment; the clone never aliases the original's storage.
    fn clone(&self) -> (r: Self)
        ensures
            r@ == self@,
            r.align_spec() == self.align_spec(),
    {
        proof {
            use_type_invariant(&*self);
        }
        Self::new_from_slice(self.as_slice(), self.align)
    }
}

/// Round-trip law: a buffer rebuilt from the raw parts of another buffer
/// holds the same bytes at the same alignment. The premises are exactly what
/// `into_raw` ensures of the token pair `r` it returns for `b`, and what
/// `from_raw` ensures of its result `b2`; nothing is lost or changed on the
/// way out and back.
pub proof fn lemma_raw_round_trip(b: AlignedBytes, r: (RawBytes, usize), b2: AlignedBytes)
    requires
        r.0@ == b@,
        r.0.align_spec() == b.align_spec(),
        r.1 == b.align_spec(),
        b2@ == r.0@,
        b2.align_spec() == r.1,
    ensures
        b2@ == b@,
        b2.align_spec() == b.align_spec(),
{
}

} // verus!
