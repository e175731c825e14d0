//! Borrowed byte ranges, as they cross the boundary.
use vstd::prelude::*;

verus! {

/// A read-only range of bytes that the boundary lends out or is lent: a
/// pointer and a length on the other side, a borrowed slice or nothing here.
/// A range whose pointer is null has no data.
#[allow(non_camel_case_types)]
#[derive(Clone, Copy)]
pub struct rustls_slice_bytes<'a> {
    pub data: Option<&'a [u8]>,
}

impl<'a> rustls_slice_bytes<'a> {
    /// The bytes of the range; `None` for a null range.
    pub open spec fn bytes(self) -> Option<Seq<u8>> {
        match self.data {
            Some(d) => Some(d@),
            None => None,
        }
    }

    /// The range that covers `buf`.
    pub fn from(buf: &'a [u8]) -> (r: Self)
        ensures
            r.bytes() == Some(buf@),
    {
        rustls_slice_bytes { data: Some(buf) }
    }
}

/// What a nullable buffer holds: the bytes of a buffer, nothing for null.
pub open spec fn opt_bytes(buf: Option<&[u8]>) -> Option<Seq<u8>> {
    match buf {
        Some(b) => Some(b@),
        None => None,
    }
}

/// A borrowed string for the other side of the boundary: bytes that hold no
/// NUL, so that a caller who treats them as a C string reads all of them.
#[allow(non_camel_case_types)]
#[derive(Clone, Copy)]
pub struct rustls_str<'a> {
    data: &'a [u8],
}

/// Whether `bytes` holds no NUL byte.
pub open spec fn has_no_nul(bytes: Seq<u8>) -> bool {
    forall|i: int| 0 <= i < bytes.len() ==> bytes[i] != 0
}

impl<'a> rustls_str<'a> {
    #[verifier::type_invariant]
    spec fn no_nul(&self) -> bool {
        has_no_nul(self.data@)
    }

    /// The bytes of the string.
    pub closed spec fn bytes(&self) -> Seq<u8> {
        self.data@
    }

    /// The string with the bytes of `data`, or nothing if `data` holds a NUL
    /// byte.
    pub fn try_from(data: &'a [u8]) -> (r: Option<Self>)
        ensures
            match r {
                Some(s) => s.bytes() == data@ && has_no_nul(data@),
                None => !has_no_nul(data@),
            },
    {
        let mut i: usize = 0;
        while i < data.len()
            invariant
                i <= data.len(),
                forall|j: int| 0 <= j < i ==> data@[j] != 0,
            decreases data.len() - i,
        {
            if data[i] == 0 {
                return None;
            }
            i += 1;
        }
        Some(rustls_str { data })
    }

    /// The bytes of the string, none of which is NUL.
    pub fn as_bytes(&self) -> (r: &'a [u8])
        ensures
            r@ == self.bytes(),
            has_no_nul(r@),
    {
        proof {
            use_type_invariant(self);
        }
        self.data
    }
}

} // verus!
