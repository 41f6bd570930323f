//! The engine's model of the external asset ledger: accounts holding one
//! asset each, and the single-leg transfer between two of them.

use vstd::prelude::*;

use crate::derivation::bytes_eq;
use crate::derivation::ADDRESS_LEN;
use crate::error::TransferError;

verus! {

/// One account of the asset ledger, as the engine reads it: which asset it
/// holds, who may debit it, its balance, and whether it is frozen.
pub struct TokenAccount {
    /// Identifier of the asset this account holds.
    pub mint: Vec<u8>,
    /// The only identity allowed to debit this account.
    pub owner: Vec<u8>,
    /// Current balance, in base units of the asset.
    pub amount: u64,
    /// A frozen account can neither be debited nor credited.
    pub frozen: bool,
}

/// Mathematical value of a `TokenAccount`.
#[verifier::ext_equal]
pub ghost struct TokenAccountView {
    pub mint: Seq<u8>,
    pub owner: Seq<u8>,
    pub amount: u64,
    pub frozen: bool,
}

impl View for TokenAccount {
    type V = TokenAccountView;

    open spec fn view(&self) -> TokenAccountView {
        TokenAccountView {
            mint: self.mint@,
            owner: self.owner@,
            amount: self.amount,
            frozen: self.frozen,
        }
    }
}

impl TokenAccount {
    /// Both identifiers have the fixed address length.
    pub open spec fn wf(self) -> bool {
        self.mint@.len() == ADDRESS_LEN && self.owner@.len() == ADDRESS_LEN
    }
}

/// The account after a debit of `amount`.
pub open spec fn debited(account: TokenAccountView, amount: u64) -> TokenAccountView {
    TokenAccountView { amount: (account.amount - amount) as u64, ..account }
}

/// The account after a credit of `amount`.
pub open spec fn credited(account: TokenAccountView, amount: u64) -> TokenAccountView {
    TokenAccountView { amount: (account.amount + amount) as u64, ..account }
}

/// Why the ledger would refuse to move `amount` of `asset` from `from` to
/// `to`, or `None` when the transfer is allowed: the asset-identity check,
/// then the frozen check, then the balance check.
pub open spec fn transfer_err(from: TokenAccountView, to: TokenAccountView, asset: Seq<u8>, amount: u64) -> Option<TransferError> {
    if from.mint != asset || to.mint != asset {
        Some(TransferError::AssetMismatch)
    } else if from.frozen || to.frozen {
        Some(TransferError::AccountFrozen)
    } else if from.amount < amount {
        Some(TransferError::InsufficientBalance)
    } else {
        None
    }
}

/// One transfer leg of the asset ledger: move `amount` of `asset` from `from`
/// to `to`, or fail with the first applicable error and leave both accounts
/// untouched. The credit cannot overflow because a real ledger caps the sum
/// of all balances of an asset at that asset's total supply.
pub fn transfer(from: &mut TokenAccount, to: &mut TokenAccount, asset: &Vec<u8>, amount: u64) -> (r: Result<(), TransferError>)
    requires
        old(to).amount + amount <= u64::MAX,
    ensures
        transfer_err(old(from)@, old(to)@, asset@, amount) matches Some(e) ==> ({
            &&& r == Err::<(), TransferError>(e)
            &&& final(from)@ == old(from)@
            &&& final(to)@ == old(to)@
        }),
        transfer_err(old(from)@, old(to)@, asset@, amount) is None ==> ({
            &&& r == Ok::<(), TransferError>(())
            &&& final(from)@ == debited(old(from)@, amount)
            &&& final(to)@ == credited(old(to)@, amount)
        }),
{
    let from_matches = bytes_eq(&from.mint, asset);
    let to_matches = bytes_eq(&to.mint, asset);
    if !from_matches || !to_matches {
        return Err(TransferError::AssetMismatch);
    }
    if from.frozen || to.frozen {
        return Err(TransferError::AccountFrozen);
    }
    if from.amount < amount {
        return Err(TransferError::InsufficientBalance);
    }
    from.amount = from.amount - amount;
    to.amount = to.amount + amount;
    Ok(())
}

} // verus!
