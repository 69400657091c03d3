//! Accounts as the review store sees them.

use crate::pubkey::Pubkey;
use vstd::prelude::*;

verus! {

/// What the review store reads of an account that came with an instruction,
/// and the stored bytes, which it may rewrite.
#[derive(Clone, Debug)]
pub struct AccountInfo {
    /// The address of the account.
    pub key: Pubkey,
    /// Whether the account's holder has signed the transaction.
    pub is_signer: bool,
    /// The program that the account belongs to.
    pub owner: Pubkey,
    /// The bytes stored in the account.
    pub data: Vec<u8>,
}

/// An account as mathematical values.
pub struct AccountSnapshot {
    pub key: Seq<u8>,
    pub is_signer: bool,
    pub owner: Seq<u8>,
    pub data: Seq<u8>,
}

impl AccountSnapshot {
    /// The same account with other stored bytes.
    pub open spec fn with_data(self, data: Seq<u8>) -> AccountSnapshot {
        AccountSnapshot { data, ..self }
    }
}

impl View for AccountInfo {
    type V = AccountSnapshot;

    open spec fn view(&self) -> AccountSnapshot {
        AccountSnapshot {
            key: self.key@,
            is_signer: self.is_signer,
            owner: self.owner@,
            data: self.data@,
        }
    }
}

/// The accounts of an instruction as mathematical values, in their order.
pub open spec fn snapshots(accounts: Seq<AccountInfo>) -> Seq<AccountSnapshot> {
    accounts.map_values(|a: AccountInfo| a@)
}

} // verus!
