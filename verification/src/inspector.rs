//! Boundary bridges for raw text: zero-copy views over engine-side 16-bit
//! code units, and owned buffers that survive their source.

use vstd::prelude::*;

verus! {

/// A byte sequence reinterpreted as 16-bit code units: one unit per byte,
/// zero-extended.
pub open spec fn zero_extended(bytes: Seq<u8>) -> Seq<u16> {
    bytes.map_values(|b: u8| b as u16)
}

/// A borrowed, read-only window over an externally owned sequence of 16-bit
/// code units. It owns nothing and must not outlive the storage it borrows;
/// it can be read any number of times while that storage lives.
pub enum StringView<'a> {
    /// A view over one-byte units, each read zero-extended to 16 bits.
    U8(&'a [u8]),
    /// A view over native 16-bit units.
    U16(&'a [u16]),
}

impl<'a> StringView<'a> {
    /// The code units this view exposes, in order.
    pub open spec fn units(&self) -> Seq<u16> {
        match *self {
            StringView::U8(bytes) => zero_extended(bytes@),
            StringView::U16(units) => units@,
        }
    }

    /// View a byte slice as 16-bit code units, one unit per byte,
    /// zero-extended, in order. No bytes are copied.
    pub fn from(bytes: &'a [u8]) -> (v: StringView<'a>)
        ensures
            v.units() == zero_extended(bytes@),
            v.units().len() == bytes@.len(),
    {
        StringView::U8(bytes)
    }

    /// How many code units the view exposes.
    pub fn len(&self) -> (n: usize)
        ensures
            n == self.units().len(),
    {
        match *self {
            StringView::U8(bytes) => bytes.len(),
            StringView::U16(units) => units.len(),
        }
    }

    /// The code unit at position `i`.
    pub fn get(&self, i: usize) -> (u: u16)
        requires
            i < self.units().len(),
        ensures
            u == self.units()[i as int],
    {
        match *self {
            StringView::U8(bytes) => bytes[i] as u16,
            StringView::U16(units) => units[i],
        }
    }
}

/// An owned, independent copy of a [`StringView`]'s contents. Once created it
/// no longer depends on the storage the source view borrowed.
pub struct StringBuffer {
    units: Vec<u16>,
}

impl StringBuffer {
    /// The code units the buffer owns, in order.
    pub closed spec fn units(&self) -> Seq<u16> {
        self.units@
    }

    /// Copy a view's contents into an owned buffer.
    ///
    /// The engine reports allocation failure as an absent result; this host
    /// copy cannot observe one, so the result is always present, with exactly
    /// the view's units.
    pub fn create(source: &StringView<'_>) -> (r: Option<StringBuffer>)
        ensures
            r matches Some(b) && b.units() == source.units(),
    {
        let n = source.len();
        let mut units: Vec<u16> = Vec::new();
        let mut i: usize = 0;
        while i < n
            invariant
                i <= n,
                n == source.units().len(),
                units@ == source.units().take(i as int),
            decreases n - i,
        {
            units.push(source.get(i));
            proof {
                assert(source.units().take(i + 1) =~= source.units().take(i as int).push(
                    source.units()[i as int],
                ));
            }
            i = i + 1;
        }
        proof {
            assert(units@ =~= source.units());
        }
        Some(StringBuffer { units })
    }

    /// A fresh view over the buffer's own copy, decoupled from whatever the
    /// original source view borrowed.
    pub fn string(&self) -> (v: StringView<'_>)
        ensures
            v.units() == self.units(),
    {
        StringView::U16(self.units.as_slice())
    }
}

/// Law: viewing a byte sequence exposes exactly one unit per byte, each byte
/// zero-extended to 16 bits, in the bytes' own order.
pub proof fn lemma_view_buffer_equivalence(bytes: Seq<u8>)
    ensures
        zero_extended(bytes).len() == bytes.len(),
        forall|i: int| 0 <= i < bytes.len() ==> zero_extended(bytes)[i] == bytes[i] as u16,
{
}

/// Law: copying a view into a buffer and viewing the buffer again changes
/// nothing. A buffer holds exactly its source view's units
/// ([`StringBuffer::create`]) and a view over the buffer exposes exactly what
/// the buffer holds ([`StringBuffer::string`]), so the copy reads back equal
/// to the source in length and in every unit — and, owning its storage, it
/// still does once the storage the source borrowed is gone.
pub proof fn lemma_buffer_roundtrip(source: StringView<'_>, buffer: StringBuffer, copy: StringView<'_>)
    requires
        buffer.units() == source.units(),
        copy.units() == buffer.units(),
    ensures
        copy.units() == source.units(),
        copy.units().len() == source.units().len(),
        forall|i: int| 0 <= i < source.units().len() ==> copy.units()[i] == source.units()[i],
{
}

} // verus!
