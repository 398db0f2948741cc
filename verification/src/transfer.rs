//! Token movements that an instruction asks for.
use crate::pubkey::Pubkey;
use vstd::prelude::*;

verus! {

/// Who consents to a token movement.
#[derive(Clone, Copy, Debug, PartialEq, Eq)]
pub enum TransferAuthority {
    /// The owner of a position, who signed the instruction.
    Owner(Pubkey),
    /// The pool, which signs with its seeds.
    Pool(Pubkey),
}

/// Tokens to be moved from one token account to another.
#[derive(Clone, Copy, Debug, PartialEq, Eq)]
pub struct Transfer {
    pub from: Pubkey,
    pub to: Pubkey,
    pub authority: TransferAuthority,
    pub amount: u64,
}

/// An account to be closed, and who receives the balance that kept it open.
#[derive(Clone, Copy, Debug, PartialEq, Eq)]
pub struct Closing {
    pub account: Pubkey,
    pub destination: Pubkey,
}

} // verus!
