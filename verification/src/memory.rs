//! Byte buffers handed across the FFI boundary: a vector that may be absent.

use vstd::prelude::*;

verus! {

/// An optional byte vector handed to or from the host. `None` stands for a
/// null pointer on the host side.
pub struct UnmanagedVector {
    data: Option<Vec<u8>>,
}

/// The plain content of an optional byte vector.
pub open spec fn bytes_view(v: Option<Vec<u8>>) -> Option<Seq<u8>> {
    match v {
        Some(d) => Some(d@),
        None => None,
    }
}

impl UnmanagedVector {
    /// The bytes held, or `None`.
    pub closed spec fn content(&self) -> Option<Seq<u8>> {
        bytes_view(self.data)
    }

    pub fn new(source: Option<Vec<u8>>) -> (r: UnmanagedVector)
        ensures
            r.content() == bytes_view(source),
    {
        UnmanagedVector { data: source }
    }

    pub fn is_none(&self) -> (r: bool)
        ensures
            r == (self.content() is None),
    {
        self.data.is_none()
    }

    pub fn is_some(&self) -> (r: bool)
        ensures
            r == (self.content() is Some),
    {
        self.data.is_some()
    }

    /// Takes the bytes out.
    pub fn consume(self) -> (r: Option<Vec<u8>>)
        ensures
            bytes_view(r) == self.content(),
    {
        self.data
    }
}

impl Default for UnmanagedVector {
    /// The absent vector.
    fn default() -> (r: UnmanagedVector)
        ensures
            r.content() is None,
    {
        UnmanagedVector { data: None }
    }
}

} // verus!
