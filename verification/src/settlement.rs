//! The settlement coordinator: who may change the ledger, and how a purchase is
//! settled through the external registry.

use crate::address::{AccountAddress, Address, ContractAddress};
use crate::error::MarketplaceError;
use crate::ledger::{is_snapshot_of, Listing, ListingLedger, TokenId, TokenPrice};
use crate::registry::{CallOutcome, RegistryCall};
use vstd::prelude::*;

verus! {

/// Guards a listing ledger on behalf of the owner of the system.
///
/// The owner is fixed when the coordinator is made and is compared with the
/// caller on every withdrawal and purchase. It is the administrator of the
/// deployment, not the owner of any token.
pub struct SettlementCoordinator {
    owner: AccountAddress,
}

impl SettlementCoordinator {
    /// The owner of the system.
    pub closed spec fn system_owner(&self) -> AccountAddress {
        self.owner
    }

    /// Whether `caller` may withdraw listings and execute purchases: it has to be
    /// exactly the owner of the system.
    pub open spec fn authorizes(&self, caller: Address) -> bool {
        caller.denotes(self.system_owner())
    }

    /// What a withdrawal by `caller` returns, and the ledger it leaves.
    pub open spec fn withdraw_outcome(
        &self,
        listings: Map<TokenId, TokenPrice>,
        caller: Address,
        token_id: TokenId,
    ) -> (Result<(), MarketplaceError>, Map<TokenId, TokenPrice>) {
        if !self.authorizes(caller) {
            (Err(MarketplaceError::Unauthorized), listings)
        } else if !listings.contains_key(token_id) {
            (Err(MarketplaceError::TokenNotFound), listings)
        } else {
            (Ok(()), listings.remove(token_id))
        }
    }

    /// Whether a purchase by `caller` gets as far as the call to the registry, and
    /// the error with which it stops if it does not.
    pub open spec fn purchase_admission(
        &self,
        listings: Map<TokenId, TokenPrice>,
        caller: Address,
        token_id: TokenId,
    ) -> Result<(), MarketplaceError> {
        if !self.authorizes(caller) {
            Err(MarketplaceError::Unauthorized)
        } else if !listings.contains_key(token_id) {
            Err(MarketplaceError::TokenNotFound)
        } else {
            Ok(())
        }
    }

    /// What a purchase returns once the registry has answered, and the ledger it
    /// leaves: the listing goes only if the transfer went through.
    pub open spec fn settlement_outcome(
        listings: Map<TokenId, TokenPrice>,
        token_id: TokenId,
        outcome: CallOutcome,
    ) -> (Result<(), MarketplaceError>, Map<TokenId, TokenPrice>) {
        match outcome {
            Ok(_) => (Ok(()), listings.remove(token_id)),
            Err(_) => (Err(MarketplaceError::InvokeContractError), listings),
        }
    }

    /// What a whole purchase returns, and the ledger it leaves, when the registry
    /// would answer `outcome` to the call.
    pub open spec fn purchase_outcome(
        &self,
        listings: Map<TokenId, TokenPrice>,
        caller: Address,
        token_id: TokenId,
        outcome: CallOutcome,
    ) -> (Result<(), MarketplaceError>, Map<TokenId, TokenPrice>) {
        match self.purchase_admission(listings, caller, token_id) {
            Err(error) => (Err(error), listings),
            Ok(_) => Self::settlement_outcome(listings, token_id, outcome),
        }
    }

    /// A coordinator that answers to `owner`.
    pub fn new(owner: AccountAddress) -> (coordinator: Self)
        ensures
            coordinator.system_owner() == owner,
    {
        SettlementCoordinator { owner }
    }

    /// The owner of the system.
    pub fn owner(&self) -> (owner: AccountAddress)
        ensures
            owner == self.system_owner(),
    {
        self.owner
    }

    /// Lists `token_id` for sale at `price`. Any caller may do so, and a token
    /// that is listed already gets the new price.
    pub fn list_for_sale(
        &self,
        ledger: &mut ListingLedger,
        _caller: &Address,
        token_id: TokenId,
        price: TokenPrice,
    )
        ensures
            final(ledger)@ == old(ledger)@.insert(token_id, price),
    {
        ledger.list(token_id, price);
    }

    /// Takes `token_id` off sale. Only the owner of the system may do so
    /// (`Unauthorized` otherwise), and only for a listed token (`TokenNotFound`
    /// otherwise). A withdrawal that fails changes nothing.
    pub fn withdraw(&self, ledger: &mut ListingLedger, caller: &Address, token_id: TokenId) -> (result:
        Result<(), MarketplaceError>)
        ensures
            result == self.withdraw_outcome(old(ledger)@, *caller, token_id).0,
            final(ledger)@ == self.withdraw_outcome(old(ledger)@, *caller, token_id).1,
    {
        if !caller.matches_account(&self.owner) {
            return Err(MarketplaceError::Unauthorized);
        }
        ledger.withdraw(token_id)
    }

    /// The first half of a purchase: decides whether the registry is to be called,
    /// and with what. Fails with `Unauthorized` unless `caller` is the owner of
    /// the system, then with `TokenNotFound` unless `token_id` is listed. On
    /// success the host issues the returned call, once, and hands its outcome to
    /// [`SettlementCoordinator::settle_purchase`].
    pub fn prepare_purchase(
        &self,
        ledger: &ListingLedger,
        caller: &Address,
        token_id: TokenId,
        from: AccountAddress,
        to: AccountAddress,
        registry: ContractAddress,
    ) -> (result: Result<RegistryCall, MarketplaceError>)
        ensures
            match result {
                Ok(call) => self.purchase_admission(ledger@, *caller, token_id) is Ok
                    && call.is_transfer_of_one(registry, token_id, from, to),
                Err(error) => self.purchase_admission(ledger@, *caller, token_id) == Err::<
                    (),
                    MarketplaceError,
                >(error),
            },
    {
        if !caller.matches_account(&self.owner) {
            return Err(MarketplaceError::Unauthorized);
        }
        if ledger.lookup(token_id).is_none() {
            return Err(MarketplaceError::TokenNotFound);
        }
        Ok(RegistryCall::transfer_of_one(registry, token_id, from, to))
    }

    /// The second half of a purchase: rolls the ledger forward once the registry
    /// has answered. If the transfer went through, the listing of `token_id` is
    /// removed and nothing else changes. If it failed, for whatever reason, the
    /// purchase fails with `InvokeContractError` and the ledger stays as it is.
    pub fn settle_purchase(
        &self,
        ledger: &mut ListingLedger,
        token_id: TokenId,
        outcome: CallOutcome,
    ) -> (result: Result<(), MarketplaceError>)
        ensures
            result == Self::settlement_outcome(old(ledger)@, token_id, outcome).0,
            final(ledger)@ == Self::settlement_outcome(old(ledger)@, token_id, outcome).1,
    {
        match outcome {
            Ok(_) => {
                ledger.remove(token_id);
                Ok(())
            },
            Err(failure) => Err(MarketplaceError::from(failure)),
        }
    }

    /// A whole purchase against a registry that is given as a function: admits the
    /// purchase, calls `invoke` once with the transfer of one unit of `token_id`
    /// from `from` to `to`, and settles with what it answered. A purchase that is
    /// not admitted never reaches `invoke`.
    pub fn purchase<F: FnOnce(RegistryCall) -> CallOutcome>(
        &self,
        ledger: &mut ListingLedger,
        caller: &Address,
        token_id: TokenId,
        from: AccountAddress,
        to: AccountAddress,
        registry: ContractAddress,
        invoke: F,
    ) -> (result: Result<(), MarketplaceError>)
        requires
            forall|call: RegistryCall|
                call.is_transfer_of_one(registry, token_id, from, to) ==> #[trigger] invoke.requires(
                    (call,),
                ),
        ensures
            self.purchase_admission(old(ledger)@, *caller, token_id) is Err ==> {
                &&& result == self.purchase_admission(old(ledger)@, *caller, token_id)
                &&& final(ledger)@ == old(ledger)@
            },
            self.purchase_admission(old(ledger)@, *caller, token_id) is Ok ==> exists|
                call: RegistryCall,
                outcome: CallOutcome,
            |
                {
                    &&& call.is_transfer_of_one(registry, token_id, from, to)
                    &&& #[trigger] invoke.ensures((call,), outcome)
                    &&& result == self.purchase_outcome(
                        old(ledger)@,
                        *caller,
                        token_id,
                        outcome,
                    ).0
                    &&& final(ledger)@ == self.purchase_outcome(
                        old(ledger)@,
                        *caller,
                        token_id,
                        outcome,
                    ).1
                },
    {
        match self.prepare_purchase(ledger, caller, token_id, from, to, registry) {
            Err(error) => Err(error),
            Ok(call) => {
                let ghost issued = call;
                let outcome = invoke(call);
                let result = self.settle_purchase(ledger, token_id, outcome);
                assert(invoke.ensures((issued,), outcome));
                result
            },
        }
    }

    /// Everything that is for sale, by ascending token identifier. Any caller may
    /// ask.
    pub fn view_listings(&self, ledger: &ListingLedger) -> (listings: Vec<Listing>)
        ensures
            is_snapshot_of(listings@, ledger@),
            listings@.len() == ledger@.len(),
    {
        ledger.snapshot()
    }
}

} // verus!
