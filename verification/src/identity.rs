//! The identity of an account, as the host hands it to the contract.

use vstd::prelude::*;

use crate::keyed::Key;
use crate::text::{hex_bytes, hex_bytes_text, lemma_hex_bytes_injective};

verus! {

/// An authenticated account, named by thirty-two bytes. The contract does
/// not look into them: it only tells one account from another.
#[derive(Clone, Copy, Debug, PartialEq, Eq)]
pub struct Identity {
    pub bytes: [u8; 32],
}

impl View for Identity {
    type V = Identity;

    open spec fn view(&self) -> Identity {
        *self
    }
}

impl Key for Identity {
    fn same(&self, other: &Identity) -> (r: bool) {
        let mut i: usize = 0;
        while i < 32
            invariant
                i <= 32,
                forall|j: int| 0 <= j < i ==> self.bytes[j] == other.bytes[j],
            decreases 32 - i,
        {
            if self.bytes[i] != other.bytes[i] {
                return false;
            }
            i += 1;
        }
        assert(self.bytes =~= other.bytes);
        true
    }

    fn duplicate(&self) -> (r: Identity) {
        *self
    }
}

impl Identity {
    /// The identity named by `bytes`.
    pub fn new(bytes: [u8; 32]) -> (id: Identity)
        ensures
            id.bytes == bytes,
    {
        Identity { bytes }
    }

    /// The text under which a table of the host files this account: its
    /// bytes in hexadecimal.
    pub open spec fn canonical_key(self) -> Seq<char> {
        hex_bytes(self.bytes@)
    }

    /// Different accounts are filed under different keys.
    pub proof fn lemma_canonical_key_injective(a: Identity, b: Identity)
        requires
            a.canonical_key() == b.canonical_key(),
        ensures
            a == b,
    {
        lemma_hex_bytes_injective(a.bytes@, b.bytes@);
        assert(a.bytes =~= b.bytes);
    }

    /// The text under which a table of the host files this account.
    pub fn to_key(&self) -> (key: String)
        ensures
            key@ == self.canonical_key(),
    {
        hex_bytes_text(self.bytes.as_slice())
    }
}

} // verus!
