//! A typed handle to an account with a well-known address that must not be
//! marked executable, together with the loader that takes it off the front of
//! a transaction's account list and the projections back to instruction
//! metadata.
use vstd::prelude::*;

pub mod account;
pub mod address;
pub mod non_executable_program;

pub use account::{AccountError, AccountInfo, AccountMeta, Id};
pub use address::Address;
pub use non_executable_program::NonExecutableProgram;

verus! {

/// Marker for the instructions sysvar, the account through which a program
/// reads the instructions of the transaction that runs it. It has a fixed
/// address but holds no code.
#[derive(Clone, Copy, Debug)]
pub struct InstructionSysvar;

/// The bytes of the instructions sysvar's address,
/// `Sysvar1nstructions1111111111111111111111111` in base 58.
pub open spec fn instructions_sysvar_address() -> Seq<u8> {
    seq![
        6u8, 167u8, 213u8, 23u8, 24u8, 123u8, 209u8, 102u8, 53u8, 218u8, 212u8, 4u8, 85u8, 253u8,
        194u8, 192u8, 193u8, 36u8, 198u8, 143u8, 33u8, 86u8, 117u8, 165u8, 219u8, 186u8, 203u8,
        95u8, 8u8, 0u8, 0u8, 0u8,
    ]
}

/// Relies on `solana_program::sysvar::instructions::ID`, declared from the
/// base-58 text `Sysvar1nstructions1111111111111111111111111`, and on
/// `Pubkey::to_bytes`, which hands back its 32 bytes.
#[verifier::external_body]
fn instructions_sysvar_id() -> (r: Address)
    ensures
        r@ == instructions_sysvar_address(),
{
    Address { bytes: solana_program::sysvar::instructions::ID.to_bytes() }
}

impl Id for InstructionSysvar {
    open spec fn spec_id() -> Seq<u8> {
        instructions_sysvar_address()
    }

    fn id() -> (r: Address) {
        instructions_sysvar_id()
    }
}

} // verus!
