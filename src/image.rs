//! The loaded image: its bytes, shared read-only by every task of a run.

use std::sync::Arc;

use vstd::prelude::*;

use crate::checksum::{digest_of, digest_text, hex_of, HashKind};

verus! {

/// The bytes of a loaded image. Every task of a run borrows the same bytes;
/// loading another image replaces the buffer, never the bytes themselves.
pub struct ImageBuffer {
    pub bytes: Arc<Vec<u8>>,
}

impl View for ImageBuffer {
    type V = Seq<u8>;

    open spec fn view(&self) -> Seq<u8> {
        self.bytes@
    }
}

impl ImageBuffer {
    /// A buffer holding `bytes`.
    pub fn new(bytes: Vec<u8>) -> (r: ImageBuffer)
        ensures
            r@ == bytes@,
    {
        ImageBuffer { bytes: Arc::new(bytes) }
    }

    /// The number of bytes.
    pub fn len(&self) -> (r: usize)
        ensures
            r == self@.len(),
    {
        let v: &Vec<u8> = &*self.bytes;
        v.len()
    }

    /// The digest of the bytes under `kind`, as lowercase hexadecimal text.
    pub fn digest(&self, kind: HashKind) -> (r: String)
        ensures
            r@ == hex_of(digest_of(kind, self@)),
    {
        let v: &Vec<u8> = &*self.bytes;
        digest_text(kind, v.as_slice())
    }
}

} // verus!
