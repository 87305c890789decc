//! The engine's picture of one raw account handle: the plain values every
//! validation rule reads. The surrounding runtime fills one of these per
//! account in the invocation's list.

use vstd::prelude::*;

verus! {

/// One account handle as the validators see it.
pub struct Account {
    /// The account's own 32-byte address.
    pub address: Vec<u8>,
    /// Identity of the program that owns the account.
    pub owner: Vec<u8>,
    /// The account's backing-value balance.
    pub lamports: u64,
    /// The account's stored data.
    pub data: Vec<u8>,
    /// Whether the handle carries a transaction-level signature.
    pub is_signer: bool,
}

/// The mathematical value of an `Account`.
#[verifier::ext_equal]
pub struct AccountV {
    pub address: Seq<u8>,
    pub owner: Seq<u8>,
    pub lamports: u64,
    pub data: Seq<u8>,
    pub is_signer: bool,
}

impl View for Account {
    type V = AccountV;

    open spec fn view(&self) -> AccountV {
        AccountV {
            address: self.address@,
            owner: self.owner@,
            lamports: self.lamports,
            data: self.data@,
            is_signer: self.is_signer,
        }
    }
}

impl DeepView for Account {
    type V = AccountV;

    open spec fn deep_view(&self) -> AccountV {
        self.view()
    }
}

impl Account {
    /// A handle is well formed when its two addresses have address length.
    pub open spec fn wf(self) -> bool {
        &&& self.address@.len() == 32
        &&& self.owner@.len() == 32
    }
}

/// Byte-for-byte equality of two byte strings.
pub fn bytes_eq(a: &Vec<u8>, b: &Vec<u8>) -> (r: bool)
    ensures
        r == (a@ == b@),
{
    if a.len() != b.len() {
        proof {
            assert(a@ != b@);
        }
        return false;
    }
    let n = a.len();
    let mut i: usize = 0;
    while i < n
        invariant
            n == a@.len() == b@.len(),
            i <= n,
            forall|j: int| 0 <= j < i ==> a@[j] == b@[j],
        decreases n - i,
    {
        if a[i] != b[i] {
            proof {
                assert(a@[i as int] != b@[i as int]);
            }
            return false;
        }
        i += 1;
    }
    proof {
        assert(a@ =~= b@);
    }
    true
}

} // verus!
