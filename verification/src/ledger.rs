//! The listing ledger: which tokens are offered for sale, and at what price.

use crate::error::MarketplaceError;
use std::collections::BTreeMap;
use vstd::prelude::*;
use vstd::std_specs::cmp::OrdSpec;
use vstd::std_specs::iter::IteratorSpec;

verus! {

/// Identifies one token of the collection.
pub type TokenId = u32;

/// An asking price. The ledger attaches no currency to it.
pub type TokenPrice = u32;

/// One entry of the ledger: a token and the price asked for it.
#[derive(Debug, Clone, Copy, PartialEq, Eq)]
pub struct Listing {
    pub token_id: TokenId,
    pub price: TokenPrice,
}

/// Whether `listings` shows exactly the entries of `ledger`, each once, by
/// ascending token identifier.
pub open spec fn is_snapshot_of(listings: Seq<Listing>, ledger: Map<TokenId, TokenPrice>) -> bool {
    &&& forall|i: int|
        0 <= i < listings.len() ==> ledger.contains_key(#[trigger] listings[i].token_id)
            && ledger[listings[i].token_id] == listings[i].price
    &&& forall|token_id: TokenId| #[trigger]
        ledger.contains_key(token_id) ==> exists|i: int|
            0 <= i < listings.len() && (#[trigger] listings[i]).token_id == token_id
    &&& forall|i: int, j: int|
        0 <= i < j < listings.len() ==> (#[trigger] listings[i]).token_id
            < (#[trigger] listings[j]).token_id
}

/// The tokens currently for sale, each with its asking price.
///
/// The ledger is viewed as a map from token identifier to price. A token is for
/// sale exactly when the map has an entry for it, so no token has two prices.
pub struct ListingLedger {
    listings: BTreeMap<TokenId, TokenPrice>,
}

impl View for ListingLedger {
    type V = Map<TokenId, TokenPrice>;

    closed spec fn view(&self) -> Map<TokenId, TokenPrice> {
        self.listings@
    }
}

impl ListingLedger {
    /// A ledger in which nothing is for sale.
    pub fn empty() -> (ledger: Self)
        ensures
            ledger@ == Map::<TokenId, TokenPrice>::empty(),
    {
        ListingLedger { listings: BTreeMap::new() }
    }

    /// Offers `token_id` for sale at `price`, replacing any earlier price.
    pub fn list(&mut self, token_id: TokenId, price: TokenPrice)
        ensures
            final(self)@ == old(self)@.insert(token_id, price),
    {
        self.listings.insert(token_id, price);
    }

    /// Takes `token_id` off sale. Fails with `TokenNotFound`, changing nothing,
    /// when the token is not listed.
    pub fn withdraw(&mut self, token_id: TokenId) -> (result: Result<(), MarketplaceError>)
        ensures
            old(self)@.contains_key(token_id) ==> result == Ok::<(), MarketplaceError>(())
                && final(self)@ == old(self)@.remove(token_id),
            !old(self)@.contains_key(token_id) ==> result == Err::<(), MarketplaceError>(
                MarketplaceError::TokenNotFound,
            ) && final(self)@ == old(self)@,
    {
        match self.listings.remove(&token_id) {
            Some(_) => Ok(()),
            None => {
                assert(final(self)@ =~= old(self)@);
                Err(MarketplaceError::TokenNotFound)
            },
        }
    }

    /// How many tokens are for sale.
    pub fn len(&self) -> (count: usize)
        ensures
            count == self@.len(),
    {
        self.listings.len()
    }

    /// Whether nothing is for sale.
    pub fn is_empty(&self) -> (empty: bool)
        ensures
            empty == (self@.len() == 0),
    {
        self.listings.len() == 0
    }

    /// Makes sure that `token_id` is not for sale. Other listings stay as they are.
    pub fn remove(&mut self, token_id: TokenId)
        ensures
            final(self)@ == old(self)@.remove(token_id),
    {
        self.listings.remove(&token_id);
    }

    /// The entries of the ledger as they stand now, by ascending token identifier.
    pub fn snapshot(&self) -> (listings: Vec<Listing>)
        ensures
            is_snapshot_of(listings@, self@),
            listings@.len() == self@.len(),
    {
        let mut listings: Vec<Listing> = Vec::new();
        let ghost entries = self.listings.iter().remaining();
        for entry in it: self.listings.iter()
            invariant
                it.seq() == entries,
                listings@.len() == it.index(),
                forall|j: int|
                    0 <= j < it.index() ==> (#[trigger] listings@[j]).token_id == *entries[j].0
                        && listings@[j].price == *entries[j].1,
        {
            let (token_id, price) = entry;
            listings.push(Listing { token_id: *token_id, price: *price });
        }
        proof {
            let keys = entries.map_values(|kv: (&TokenId, &TokenPrice)| *kv.0);
            assert(listings@.len() == entries.len());
            assert(vstd::std_specs::btree::increasing_seq(keys));
            assert forall|token_id: TokenId| #[trigger] self@.contains_key(token_id) implies exists|
                i: int,
            |
                0 <= i < listings@.len() && (#[trigger] listings@[i]).token_id == token_id by {
                assert(entries.contains((&token_id, &self@[token_id])));
                let i = choose|i: int|
                    0 <= i < entries.len() && entries[i] == (&token_id, &self@[token_id]);
                assert(listings@[i].token_id == token_id);
            }
            assert forall|i: int, j: int| 0 <= i < j < listings@.len() implies (
            #[trigger] listings@[i]).token_id < (#[trigger] listings@[j]).token_id by {
                assert(keys[i] == listings@[i].token_id);
                assert(keys[j] == listings@[j].token_id);
                assert(keys[i].cmp_spec(&keys[j]) is Less);
            }
        }
        listings
    }

    /// The asking price of `token_id`, or `None` when it is not for sale.
    pub fn lookup(&self, token_id: TokenId) -> (price: Option<TokenPrice>)
        ensures
            price == if self@.contains_key(token_id) {
                Some(self@[token_id])
            } else {
                None
            },
    {
        match self.listings.get(&token_id) {
            Some(price) => Some(*price),
            None => None,
        }
    }
}

} // verus!
