//! A swap contract that moves tokens on behalf of the parties that signed.
//! It decides what may happen and in which order; the host performs it.

use crate::address::Address;
use crate::error::Error;
use crate::host::{AssetAction, Grant};
use crate::validations::signed_by;
use vstd::prelude::*;

verus! {

/// One transfer of a token, for the host to perform.
#[derive(Clone, Copy, Debug, PartialEq, Eq)]
pub struct TokenTransfer {
    pub token: Address,
    pub from: Address,
    pub to: Address,
    pub amount: i128,
}

/// What a swap asks of the host: first the grant, then the transfers in
/// order. If one of them fails, the host undoes those before it.
#[derive(Debug)]
pub struct SwapPlan {
    /// What the swap contract authorizes below its next call.
    pub grant: Grant,
    /// The transfers, in the order in which they are performed.
    pub transfers: Vec<TokenTransfer>,
}

/// The transfer that `delegate_transfer` hands to the host, or its refusal.
pub open spec fn delegated_transfer(
    signers: Seq<Address>,
    asset: Address,
    from: Address,
    to: Address,
    amount: i128,
) -> Result<TokenTransfer, Error> {
    if signers.contains(from) {
        Ok(TokenTransfer { token: asset, from, to, amount })
    } else {
        Err(Error::Unauthorized)
    }
}

/// The grant of a swap: the swap contract lets the wrapped asset move
/// `amount` from the contract's own balance to `from`.
pub open spec fn swap_grant(
    contract: Address,
    from: Address,
    sac_wrapped: Address,
    amount: i128,
) -> Grant {
    Grant {
        account: contract,
        contract: sac_wrapped,
        action: AssetAction::Transfer { from: contract, to: from, amount },
    }
}

/// The four legs of a swap. `from` pays the regular token and receives the
/// wrapped one, `to` the other way round, and each leg passes through the
/// swap contract.
pub open spec fn swap_transfers(
    contract: Address,
    from: Address,
    to: Address,
    token_regular: Address,
    wrapper: Address,
    amount: i128,
) -> Seq<TokenTransfer> {
    seq![
        TokenTransfer { token: token_regular, from, to: contract, amount },
        TokenTransfer { token: token_regular, from: contract, to, amount },
        TokenTransfer { token: wrapper, from: to, to: contract, amount },
        TokenTransfer { token: wrapper, from: contract, to: from, amount },
    ]
}

/// The entry points of the swap contract.
pub trait SwapTrait: Sized {
    /// The contract's own identity.
    spec fn identity(&self) -> Address;

    /// A transfer of `asset` from `from` to `to`, which `from` must have
    /// signed.
    fn delegate_transfer(
        &self,
        signers: &Vec<Address>,
        asset: Address,
        from: Address,
        to: Address,
        amount: i128,
    ) -> (r: Result<TokenTransfer, Error>)
        ensures
            r == delegated_transfer(signers@, asset, from, to, amount),
    ;

    /// An exchange of `amount` of the regular token of `from` against the
    /// same amount of the wrapped token of `to`. Both must have signed.
    fn simple_swap(
        &self,
        signers: &Vec<Address>,
        from: Address,
        to: Address,
        token_regular: Address,
        wrapper: Address,
        sac_wrapped: Address,
        amount: i128,
    ) -> (r: Result<SwapPlan, Error>)
        ensures
            match r {
                Ok(plan) => {
                    &&& signers@.contains(from)
                    &&& signers@.contains(to)
                    &&& plan.grant == swap_grant(self.identity(), from, sac_wrapped, amount)
                    &&& plan.transfers@ == swap_transfers(
                        self.identity(),
                        from,
                        to,
                        token_regular,
                        wrapper,
                        amount,
                    )
                },
                Err(e) => e == Error::Unauthorized && !(signers@.contains(from)
                    && signers@.contains(to)),
            },
    ;
}

/// The swap contract, which knows nothing but its own identity.
#[derive(Clone, Copy, Debug, PartialEq, Eq)]
pub struct SwapContract {
    pub contract: Address,
}

impl SwapContract {
    /// The swap contract with the identity `contract`.
    pub fn new(contract: Address) -> (r: SwapContract)
        ensures
            r.contract == contract,
    {
        SwapContract { contract }
    }
}

impl SwapTrait for SwapContract {
    open spec fn identity(&self) -> Address {
        self.contract
    }

    fn delegate_transfer(
        &self,
        signers: &Vec<Address>,
        asset: Address,
        from: Address,
        to: Address,
        amount: i128,
    ) -> (r: Result<TokenTransfer, Error>) {
        if signed_by(signers, &from) {
            Ok(TokenTransfer { token: asset, from, to, amount })
        } else {
            Err(Error::Unauthorized)
        }
    }

    fn simple_swap(
        &self,
        signers: &Vec<Address>,
        from: Address,
        to: Address,
        token_regular: Address,
        wrapper: Address,
        sac_wrapped: Address,
        amount: i128,
    ) -> (r: Result<SwapPlan, Error>) {
        if !signed_by(signers, &from) || !signed_by(signers, &to) {
            return Err(Error::Unauthorized);
        }
        let contract = self.contract;
        let grant = Grant {
            account: contract,
            contract: sac_wrapped,
            action: AssetAction::Transfer { from: contract, to: from, amount },
        };
        let mut transfers: Vec<TokenTransfer> = Vec::new();
        transfers.push(TokenTransfer { token: token_regular, from, to: contract, amount });
        transfers.push(TokenTransfer { token: token_regular, from: contract, to, amount });
        transfers.push(TokenTransfer { token: wrapper, from: to, to: contract, amount });
        transfers.push(TokenTransfer { token: wrapper, from: contract, to: from, amount });
        assert(transfers@ =~= swap_transfers(contract, from, to, token_regular, wrapper, amount));
        Ok(SwapPlan { grant, transfers })
    }
}

} // verus!
