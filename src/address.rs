//! Account identities and the account snapshots handed to the processor.

use vstd::prelude::*;

verus! {

/// A 32-byte account identity.
#[derive(Clone, Copy, Debug)]
pub struct Address {
    pub bytes: [u8; 32],
}

impl View for Address {
    type V = Seq<u8>;

    open spec fn view(&self) -> Seq<u8> {
        self.bytes@
    }
}

impl Address {
    /// Copies the 32 bytes of `data` that start at `start`.
    pub fn from_slice_at(data: &[u8], start: usize) -> (r: Address)
        requires
            start + 32 <= data@.len(),
        ensures
            r@ == data@.subrange(start as int, start + 32),
    {
        let mut bytes = [0u8; 32];
        assert(data@.len() == data.len());
        let mut i: usize = 0;
        while i < 32
            invariant
                i <= 32,
                start + 32 <= data@.len() <= usize::MAX,
                forall|j: int| 0 <= j < i ==> bytes@[j] == data@[start + j],
            decreases 32 - i,
        {
            bytes[i] = data[start + i];
            i = i + 1;
        }
        let r = Address { bytes };
        assert(r@ =~= data@.subrange(start as int, start + 32));
        r
    }

    /// Whether two identities hold the same bytes.
    pub fn same_as(&self, other: &Address) -> (r: bool)
        ensures
            r == (self@ == other@),
    {
        let mut i: usize = 0;
        while i < 32
            invariant
                i <= 32,
                forall|j: int| 0 <= j < i ==> self@[j] == other@[j],
            decreases 32 - i,
        {
            if self.bytes[i] != other.bytes[i] {
                return false;
            }
            i = i + 1;
        }
        assert(self@ =~= other@);
        true
    }
}

/// A snapshot of one account handed to the processor: its identity, the
/// program that owns it, and its data.
#[derive(Clone, Debug)]
pub struct AccountInput {
    pub key: Address,
    pub owner: Address,
    pub data: Vec<u8>,
}

/// The mathematical view of an account snapshot.
pub struct AccountModel {
    pub key: Seq<u8>,
    pub owner: Seq<u8>,
    pub data: Seq<u8>,
}

impl View for AccountInput {
    type V = AccountModel;

    open spec fn view(&self) -> AccountModel {
        AccountModel { key: self.key@, owner: self.owner@, data: self.data@ }
    }
}

} // verus!
