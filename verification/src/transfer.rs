//! Token movements that an instruction asks the token program to perform.
use vstd::prelude::*;

verus! {

/// One token transfer out of an instruction: either the plain transfer of the
/// classic token program or the checked transfer of the 2022 token program,
/// which also names the mint's decimals.
#[derive(Clone, Copy, Debug, PartialEq, Eq, Structural)]
pub enum TokenTransfer {
    Transfer { amount: u64 },
    TransferChecked { amount: u64, decimals: u8 },
}

impl TokenTransfer {
    /// The number of base units moved.
    pub open spec fn spec_amount(self) -> u64 {
        match self {
            TokenTransfer::Transfer { amount } => amount,
            TokenTransfer::TransferChecked { amount, .. } => amount,
        }
    }

    /// The number of base units moved.
    pub fn amount(&self) -> (r: u64)
        ensures
            r == self.spec_amount(),
    {
        match self {
            TokenTransfer::Transfer { amount } => *amount,
            TokenTransfer::TransferChecked { amount, .. } => *amount,
        }
    }
}

/// The transfer of `amount` that suits the token program in use: the checked
/// form, carrying the mint's decimals, for the 2022 token program.
pub open spec fn transfer_for(token_2022: bool, amount: u64, decimals: u8) -> TokenTransfer {
    if token_2022 {
        TokenTransfer::TransferChecked { amount, decimals }
    } else {
        TokenTransfer::Transfer { amount }
    }
}

/// Chooses between the plain and the checked transfer.
pub fn make_transfer(token_2022: bool, amount: u64, decimals: u8) -> (t: TokenTransfer)
    ensures
        t == transfer_for(token_2022, amount, decimals),
{
    if token_2022 {
        TokenTransfer::TransferChecked { amount, decimals }
    } else {
        TokenTransfer::Transfer { amount }
    }
}

} // verus!
