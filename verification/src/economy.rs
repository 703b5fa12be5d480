//! Economic instructions. The engine never transfers tokens itself: it
//! returns instructions that the host forwards to the external fungible
//! ledger and pet ownership registry after the state transition has been
//! committed.

use vstd::prelude::*;

verus! {

/// An instruction for the external fungible-token ledger.
#[derive(Debug, PartialEq, Eq)]
pub enum TokenInstruction {
    /// Mint `amount` tokens to `recipient`.
    Mint { recipient: String, amount: u64 },
    /// Burn `amount` tokens from `owner`'s balance.
    Burn { owner: String, amount: u64 },
}

/// An instruction for the external pet ownership registry.
#[derive(Debug, PartialEq, Eq)]
pub struct PetMintInstruction {
    /// The id of the freshly minted pet token.
    pub token_id: String,
    /// The address that is to own it.
    pub owner: String,
}

impl Clone for TokenInstruction {
    fn clone(&self) -> (r: Self)
        ensures
            r == *self,
    {
        match self {
            TokenInstruction::Mint { recipient, amount } => {
                let r = TokenInstruction::Mint { recipient: recipient.clone(), amount: *amount };
                proof {
                    assert(r == *self);
                }
                r
            },
            TokenInstruction::Burn { owner, amount } => {
                let r = TokenInstruction::Burn { owner: owner.clone(), amount: *amount };
                proof {
                    assert(r == *self);
                }
                r
            },
        }
    }
}

/// Builds the instruction that mints `amount` loot tokens to `recipient`.
pub fn mint_loot(recipient: String, amount: u64) -> (r: TokenInstruction)
    ensures
        r == (TokenInstruction::Mint { recipient, amount }),
{
    TokenInstruction::Mint { recipient, amount }
}

/// Builds the instruction that burns `amount` loot tokens from `owner`.
pub fn burn_loot(owner: String, amount: u64) -> (r: TokenInstruction)
    ensures
        r == (TokenInstruction::Burn { owner, amount }),
{
    TokenInstruction::Burn { owner, amount }
}

} // verus!
