//! The ledger operations a handler decides on. A handler validates its
//! inputs and returns one of these plans; the surrounding runtime performs
//! the operations in the order the plan lays down, or rolls the invocation
//! back as a unit if any of them fails.

use vstd::prelude::*;

verus! {

/// Create the program-owned escrow record: transfer the minimum balance for
/// `space` bytes from the payer, and allocate the record at `address` under
/// this program's ownership, authorized by the derived-address signature
/// proof built from `seeds` (bump included).
#[verifier::ext_equal]
pub struct CreateRecordV {
    pub payer: Seq<u8>,
    pub address: Seq<u8>,
    pub space: u64,
    pub seeds: Seq<Seq<u8>>,
}

/// Exec form of [`CreateRecordV`].
pub struct CreateRecord {
    pub payer: Vec<u8>,
    pub address: Vec<u8>,
    pub space: u64,
    pub seeds: Vec<Vec<u8>>,
}

impl View for CreateRecord {
    type V = CreateRecordV;

    open spec fn view(&self) -> CreateRecordV {
        CreateRecordV {
            payer: self.payer@,
            address: self.address@,
            space: self.space,
            seeds: self.seeds.deep_view(),
        }
    }
}

/// Create an associated holding account for `wallet` and `mint` at `account`,
/// paid for by `payer`, through the associated-holding-account program.
#[verifier::ext_equal]
pub struct CreateAtaV {
    pub payer: Seq<u8>,
    pub account: Seq<u8>,
    pub wallet: Seq<u8>,
    pub mint: Seq<u8>,
}

/// Exec form of [`CreateAtaV`].
pub struct CreateAta {
    pub payer: Vec<u8>,
    pub account: Vec<u8>,
    pub wallet: Vec<u8>,
    pub mint: Vec<u8>,
}

impl View for CreateAta {
    type V = CreateAtaV;

    open spec fn view(&self) -> CreateAtaV {
        CreateAtaV {
            payer: self.payer@,
            account: self.account@,
            wallet: self.wallet@,
            mint: self.mint@,
        }
    }
}

/// Move `amount` of an asset from one holding account to another. With
/// `signer_seeds` empty the authority signed the transaction itself; with
/// seeds present the authority is a derived address and the runtime proves
/// it by re-deriving from the seeds (bump included).
#[verifier::ext_equal]
pub struct TransferV {
    pub from: Seq<u8>,
    pub to: Seq<u8>,
    pub authority: Seq<u8>,
    pub amount: u64,
    pub signer_seeds: Option<Seq<Seq<u8>>>,
}

/// Exec form of [`TransferV`].
pub struct Transfer {
    pub from: Vec<u8>,
    pub to: Vec<u8>,
    pub authority: Vec<u8>,
    pub amount: u64,
    pub signer_seeds: Option<Vec<Vec<u8>>>,
}

impl View for Transfer {
    type V = TransferV;

    open spec fn view(&self) -> TransferV {
        TransferV {
            from: self.from@,
            to: self.to@,
            authority: self.authority@,
            amount: self.amount,
            signer_seeds: match self.signer_seeds {
                Some(s) => Some(s.deep_view()),
                None => None,
            },
        }
    }
}

/// Close a holding account through its asset program: move its whole balance
/// of backing value to `destination`, authorized by the derived-address
/// signature proof from `signer_seeds`.
#[verifier::ext_equal]
pub struct CloseTokenV {
    pub account: Seq<u8>,
    pub destination: Seq<u8>,
    pub authority: Seq<u8>,
    pub signer_seeds: Seq<Seq<u8>>,
}

/// Exec form of [`CloseTokenV`].
pub struct CloseToken {
    pub account: Vec<u8>,
    pub destination: Vec<u8>,
    pub authority: Vec<u8>,
    pub signer_seeds: Vec<Vec<u8>>,
}

impl View for CloseToken {
    type V = CloseTokenV;

    open spec fn view(&self) -> CloseTokenV {
        CloseTokenV {
            account: self.account@,
            destination: self.destination@,
            authority: self.authority@,
            signer_seeds: self.signer_seeds.deep_view(),
        }
    }
}

/// Destroy the program-owned record: mark its first byte with the closed
/// sentinel, move all its backing value to `destination`, shrink it to one
/// byte, and finalize closure.
#[verifier::ext_equal]
pub struct CloseRecordV {
    pub account: Seq<u8>,
    pub destination: Seq<u8>,
}

/// Exec form of [`CloseRecordV`].
pub struct CloseRecord {
    pub account: Vec<u8>,
    pub destination: Vec<u8>,
}

impl View for CloseRecord {
    type V = CloseRecordV;

    open spec fn view(&self) -> CloseRecordV {
        CloseRecordV { account: self.account@, destination: self.destination@ }
    }
}

} // verus!
