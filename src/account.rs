use vstd::prelude::*;

use crate::address::Address;

verus! {

/// One entry of a transaction's account table, as the loader sees it.
#[derive(Clone, Debug)]
pub struct AccountInfo {
    /// The account's address.
    pub key: Address,
    /// Whether the transaction was signed by this account.
    pub is_signer: bool,
    /// Whether the account may be written in this transaction.
    pub is_writable: bool,
    /// Whether the account is marked as holding executable code.
    pub executable: bool,
    /// The account's data, which the loader never reads.
    pub data: Vec<u8>,
}

/// Wire-level reference to an account inside an instruction.
#[derive(Clone, Copy, Debug)]
pub struct AccountMeta {
    pub pubkey: Address,
    pub is_signer: bool,
    pub is_writable: bool,
}

impl AccountMeta {
    /// Metadata for a writable account.
    pub fn new(pubkey: Address, is_signer: bool) -> (r: AccountMeta)
        ensures
            r.pubkey@ == pubkey@,
            r.is_signer == is_signer,
            r.is_writable,
    {
        AccountMeta { pubkey, is_signer, is_writable: true }
    }

    /// Metadata for a read-only account.
    pub fn new_readonly(pubkey: Address, is_signer: bool) -> (r: AccountMeta)
        ensures
            r.pubkey@ == pubkey@,
            r.is_signer == is_signer,
            !r.is_writable,
    {
        AccountMeta { pubkey, is_signer, is_writable: false }
    }
}

/// Why an account could not be loaded.
#[derive(Debug)]
pub enum AccountError {
    /// The account's address is not the one the marker type names.
    InvalidProgramId { observed: Address, expected: Address },
    /// The account is marked executable, which is not allowed here.
    ConstraintExecutable,
    /// The account list ran out before this slot.
    AccountNotEnoughKeys,
}

/// A marker type standing for one well-known address.
pub trait Id {
    /// The address this marker stands for.
    spec fn spec_id() -> Seq<u8>;

    /// Returns the address this marker stands for.
    fn id() -> (r: Address)
        ensures
            r@ == Self::spec_id(),
    ;
}

} // verus!
