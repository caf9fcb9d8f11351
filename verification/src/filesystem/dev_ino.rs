//! The identity of a directory: its device and its inode.

use vstd::prelude::*;

verus! {

/// Device and inode of a file. Two files are the same exactly when both
/// numbers agree.
#[derive(Debug, Clone, Copy, PartialEq, Eq, Hash, Structural)]
pub struct DevIno {
    st_dev: u64,
    st_ino: u64,
}

/// One number for a device and inode pair; distinct pairs get distinct
/// numbers.
pub open spec fn identity_key(id: (u64, u64)) -> u128 {
    (id.0 as u128 * 0x1_0000_0000_0000_0000u128 + id.1 as u128) as u128
}

/// Different identities never share a key.
pub proof fn lemma_identity_key_injective(a: (u64, u64), b: (u64, u64))
    ensures
        identity_key(a) == identity_key(b) <==> a == b,
{
}

impl View for DevIno {
    type V = (u64, u64);

    closed spec fn view(&self) -> (u64, u64) {
        (self.st_dev, self.st_ino)
    }
}

impl DevIno {
    pub fn new(st_dev: u64, st_ino: u64) -> (id: Self)
        ensures
            id@ == (st_dev, st_ino),
    {
        DevIno { st_dev, st_ino }
    }

    /// The key under which this identity is looked up.
    pub fn key(&self) -> (key: u128)
        ensures
            key == identity_key(self@),
    {
        self.st_dev as u128 * 0x1_0000_0000_0000_0000u128 + self.st_ino as u128
    }
}

} // verus!
