//! Identities on the chain: accounts, contract instances, and either of the two.

use vstd::prelude::*;

verus! {

/// The address of an account: thirty-two raw bytes.
#[derive(Debug, Clone, Copy, PartialEq, Eq)]
pub struct AccountAddress(pub [u8; 32]);

/// The address of a contract instance.
#[derive(Debug, Clone, Copy, PartialEq, Eq)]
pub struct ContractAddress {
    pub index: u64,
    pub subindex: u64,
}

/// Whoever invokes an operation: an account or a contract instance.
#[derive(Debug, Clone, Copy, PartialEq, Eq)]
pub enum Address {
    Account(AccountAddress),
    Contract(ContractAddress),
}

impl Address {
    /// Whether this address is that of `account`: an account address with the same
    /// thirty-two bytes. A contract address denotes no account.
    pub open spec fn denotes(self, account: AccountAddress) -> bool {
        self == Address::Account(account)
    }

    /// Decides [`Address::denotes`].
    pub fn matches_account(&self, account: &AccountAddress) -> (matches: bool)
        ensures
            matches == self.denotes(*account),
    {
        address_matches_account(self, account)
    }
}

/// Calls `concordium_std::Address::matches_account`, which answers `true` exactly
/// when the address is an account address whose bytes equal those of `account`.
#[verifier::external_body]
fn address_matches_account(address: &Address, account: &AccountAddress) -> (matches: bool)
    ensures
        matches == (*address == Address::Account(*account)),
{
    let outside = match address {
        Address::Account(a) => concordium_std::Address::Account(concordium_std::AccountAddress(a.0)),
        Address::Contract(c) => concordium_std::Address::Contract(
            concordium_std::ContractAddress::new(c.index, c.subindex),
        ),
    };
    outside.matches_account(&concordium_std::AccountAddress(account.0))
}

} // verus!
