//! Laws of the marketplace, stated over the models that the contracts of the
//! ledger and of the coordinator speak of.

use crate::address::Address;
use crate::error::MarketplaceError;
use crate::ledger::{is_snapshot_of, Listing, TokenId, TokenPrice};
use crate::registry::{CallFailure, CallOutcome};
use crate::settlement::SettlementCoordinator;
use vstd::prelude::*;

verus! {

/// Listing a token twice leaves one entry for it, with the second price: the
/// ledger is the one that the second listing alone would have made.
pub proof fn lemma_relisting_overwrites(
    listings: Map<TokenId, TokenPrice>,
    token_id: TokenId,
    first: TokenPrice,
    second: TokenPrice,
)
    ensures
        listings.insert(token_id, first).insert(token_id, second) == listings.insert(
            token_id,
            second,
        ),
        listings.insert(token_id, first).insert(token_id, second).dom() == listings.insert(
            token_id,
            first,
        ).dom(),
        listings.insert(token_id, first).insert(token_id, second)[token_id] == second,
        Map::<TokenId, TokenPrice>::empty().insert(token_id, first).insert(token_id, second).len()
            == 1,
{
    let twice = listings.insert(token_id, first).insert(token_id, second);
    assert(twice =~= listings.insert(token_id, second));
    assert(twice.dom() =~= listings.insert(token_id, first).dom());
    let fresh = Map::<TokenId, TokenPrice>::empty().insert(token_id, first).insert(
        token_id,
        second,
    );
    assert(fresh.dom() =~= Set::<TokenId>::empty().insert(token_id));
}

/// A withdrawal by the owner of the system of a token that is not listed fails
/// with `TokenNotFound` and leaves the ledger as it was.
pub proof fn lemma_withdraw_of_unlisted_token(
    coordinator: SettlementCoordinator,
    listings: Map<TokenId, TokenPrice>,
    caller: Address,
    token_id: TokenId,
)
    requires
        coordinator.authorizes(caller),
        !listings.contains_key(token_id),
    ensures
        coordinator.withdraw_outcome(listings, caller, token_id) == (
            Err::<(), MarketplaceError>(MarketplaceError::TokenNotFound),
            listings,
        ),
{
}

/// A purchase by the owner of the system of a token that is not listed fails with
/// `TokenNotFound` and leaves the ledger as it was, whatever the registry would
/// have answered.
pub proof fn lemma_purchase_of_unlisted_token(
    coordinator: SettlementCoordinator,
    listings: Map<TokenId, TokenPrice>,
    caller: Address,
    token_id: TokenId,
    outcome: CallOutcome,
)
    requires
        coordinator.authorizes(caller),
        !listings.contains_key(token_id),
    ensures
        coordinator.purchase_admission(listings, caller, token_id) == Err::<(), MarketplaceError>(
            MarketplaceError::TokenNotFound,
        ),
        coordinator.purchase_outcome(listings, caller, token_id, outcome) == (
            Err::<(), MarketplaceError>(MarketplaceError::TokenNotFound),
            listings,
        ),
{
}

/// A purchase whose transfer fails at the registry, for whatever reason, fails
/// with `InvokeContractError` and leaves every listing, that of the token
/// included, as it was.
pub proof fn lemma_failed_transfer_keeps_the_listing(
    coordinator: SettlementCoordinator,
    listings: Map<TokenId, TokenPrice>,
    caller: Address,
    token_id: TokenId,
    failure: CallFailure,
)
    requires
        coordinator.authorizes(caller),
        listings.contains_key(token_id),
    ensures
        SettlementCoordinator::settlement_outcome(listings, token_id, Err(failure)) == (
            Err::<(), MarketplaceError>(MarketplaceError::InvokeContractError),
            listings,
        ),
        coordinator.purchase_outcome(listings, caller, token_id, Err(failure)) == (
            Err::<(), MarketplaceError>(MarketplaceError::InvokeContractError),
            listings,
        ),
        coordinator.purchase_outcome(listings, caller, token_id, Err(failure)).1.contains_key(
            token_id,
        ),
{
}

/// A purchase whose transfer goes through succeeds and removes the listing of
/// that token and of no other.
pub proof fn lemma_successful_transfer_removes_the_listing(
    coordinator: SettlementCoordinator,
    listings: Map<TokenId, TokenPrice>,
    caller: Address,
    token_id: TokenId,
)
    requires
        coordinator.authorizes(caller),
        listings.contains_key(token_id),
    ensures
        coordinator.purchase_outcome(listings, caller, token_id, Ok(())).0 == Ok::<
            (),
            MarketplaceError,
        >(()),
        coordinator.purchase_outcome(listings, caller, token_id, Ok(())).1 == listings.remove(
            token_id,
        ),
        !coordinator.purchase_outcome(listings, caller, token_id, Ok(())).1.contains_key(token_id),
        forall|other: TokenId|
            other != token_id ==> (#[trigger] listings.remove(token_id).contains_key(other))
                == listings.contains_key(other),
        forall|other: TokenId|
            other != token_id && listings.contains_key(other) ==> (#[trigger] listings.remove(
                token_id,
            )[other]) == listings[other],
{
}

/// A withdrawal or a purchase by anyone but the owner of the system fails with
/// `Unauthorized` and leaves the ledger as it was, whether or not the token is
/// listed and whatever the registry would have answered.
pub proof fn lemma_unauthorized_caller_changes_nothing(
    coordinator: SettlementCoordinator,
    listings: Map<TokenId, TokenPrice>,
    caller: Address,
    token_id: TokenId,
    outcome: CallOutcome,
)
    requires
        !coordinator.authorizes(caller),
    ensures
        coordinator.withdraw_outcome(listings, caller, token_id) == (
            Err::<(), MarketplaceError>(MarketplaceError::Unauthorized),
            listings,
        ),
        coordinator.purchase_admission(listings, caller, token_id) == Err::<(), MarketplaceError>(
            MarketplaceError::Unauthorized,
        ),
        coordinator.purchase_outcome(listings, caller, token_id, outcome) == (
            Err::<(), MarketplaceError>(MarketplaceError::Unauthorized),
            listings,
        ),
{
}

/// The view of a ledger in which nothing was ever listed is the empty sequence.
pub proof fn lemma_view_of_empty_ledger_is_empty(listings: Seq<Listing>)
    requires
        is_snapshot_of(listings, Map::<TokenId, TokenPrice>::empty()),
    ensures
        listings == Seq::<Listing>::empty(),
{
    if listings.len() > 0 {
        assert(Map::<TokenId, TokenPrice>::empty().contains_key(listings[0].token_id));
    }
    assert(listings =~= Seq::<Listing>::empty());
}

/// A ledger has one snapshot only: two sequences that both show its entries, by
/// ascending token identifier, are the same sequence.
pub proof fn lemma_snapshot_is_determined(
    first: Seq<Listing>,
    second: Seq<Listing>,
    ledger: Map<TokenId, TokenPrice>,
)
    requires
        is_snapshot_of(first, ledger),
        is_snapshot_of(second, ledger),
    ensures
        first == second,
{
    lemma_snapshots_agree_up_to(first, second, ledger, first.len() as int);
    lemma_snapshots_agree_up_to(second, first, ledger, second.len() as int);
    assert(first =~= second);
}

/// Two snapshots of one ledger hold the same listings at their first `n` places,
/// and the second is at least as long as `n`.
proof fn lemma_snapshots_agree_up_to(
    first: Seq<Listing>,
    second: Seq<Listing>,
    ledger: Map<TokenId, TokenPrice>,
    n: int,
)
    requires
        is_snapshot_of(first, ledger),
        is_snapshot_of(second, ledger),
        0 <= n <= first.len(),
    ensures
        n <= second.len(),
        forall|i: int| 0 <= i < n ==> first[i] == second[i],
    decreases n,
{
    if n > 0 {
        lemma_snapshots_agree_up_to(first, second, ledger, n - 1);
        let last = n - 1;
        let token_id = first[last].token_id;
        assert(ledger.contains_key(token_id));
        let j = choose|j: int| 0 <= j < second.len() && second[j].token_id == token_id;
        if j < last {
            assert(first[j] == second[j]);
            assert(first[j].token_id < first[last].token_id);
        }
        assert(last < second.len());
        let other = second[last].token_id;
        assert(ledger.contains_key(other));
        let k = choose|k: int| 0 <= k < first.len() && first[k].token_id == other;
        if k < last {
            assert(first[k] == second[k]);
            assert(second[k].token_id < second[last].token_id);
        }
        if last < j {
            assert(second[last].token_id < second[j].token_id);
        }
        if last < k {
            assert(first[last].token_id < first[k].token_id);
        }
        assert(first[last].token_id == second[last].token_id);
        assert(first[last].price == ledger[token_id]);
        assert(second[last].price == ledger[token_id]);
    }
}

} // verus!
