//! What the marketplace asks of the external token registry, and what the
//! registry may answer.

use crate::address::{AccountAddress, ContractAddress};
use crate::error::MarketplaceError;
use crate::ledger::TokenId;
use vstd::prelude::*;

verus! {

/// A number of units of one token.
pub type TokenAmount = u32;

/// The entrypoint of the registry that moves tokens between addresses.
pub const TRANSFER_ENTRYPOINT: &'static str = "transfer";

/// One movement of tokens between two accounts, as the registry is to perform it.
#[derive(Debug, Clone, PartialEq, Eq)]
pub struct Transfer {
    /// The token that changes hands.
    pub token_id: TokenId,
    /// How many units of it.
    pub amount: TokenAmount,
    /// The account that gives the token.
    pub from: AccountAddress,
    /// The account that receives the token.
    pub to: AccountAddress,
    /// Auxiliary payload handed to the receiver.
    pub data: Vec<u8>,
}

/// The bytes by which the registry is told of one transfer: the serialised
/// parameter of its transfer entrypoint, holding this transfer alone.
pub uninterp spec fn transfer_parameter(
    token_id: TokenId,
    amount: TokenAmount,
    from: Seq<u8>,
    to: Seq<u8>,
    data: Seq<u8>,
) -> Seq<u8>;

/// Calls `concordium_std::to_bytes` on the `concordium_cis2::TransferParams` that
/// holds the one given transfer, from an account to an account. The outcome is a
/// function of the transfer alone and is known here only by its name,
/// [`transfer_parameter`]. The length of the payload has to fit in sixteen bits:
/// on a longer one the serialisation fails and `to_bytes` panics.
#[verifier::external_body]
fn encode_transfer(transfer: &Transfer) -> (bytes: Vec<u8>)
    requires
        transfer.data@.len() <= 0xffff,
    ensures
        bytes@ == transfer_parameter(
            transfer.token_id,
            transfer.amount,
            transfer.from.0@,
            transfer.to.0@,
            transfer.data@,
        ),
{
    let outside = concordium_cis2::Transfer {
        token_id: concordium_cis2::TokenIdU32(transfer.token_id),
        amount: concordium_cis2::TokenAmountU32(transfer.amount),
        from: concordium_std::Address::Account(concordium_std::AccountAddress(transfer.from.0)),
        to: concordium_cis2::Receiver::Account(concordium_std::AccountAddress(transfer.to.0)),
        data: concordium_cis2::AdditionalData::from(transfer.data.clone()),
    };
    concordium_std::to_bytes(&concordium_cis2::TransferParams(vec![outside]))
}

/// One call to the external registry: everything the host needs to issue it.
#[derive(Debug, Clone, PartialEq, Eq)]
pub struct RegistryCall {
    /// The registry to call.
    pub registry: ContractAddress,
    /// The entrypoint to invoke there.
    pub entrypoint: &'static str,
    /// The transfer that is asked for.
    pub transfer: Transfer,
    /// The transfer as the bytes that go over the wire.
    pub parameter: Vec<u8>,
    /// The value attached to the call.
    pub attached_amount: u64,
}

impl RegistryCall {
    /// Whether this call asks `registry` to move exactly one unit of `token_id`
    /// from `from` to `to`, with no auxiliary payload and no value attached.
    pub open spec fn is_transfer_of_one(
        &self,
        registry: ContractAddress,
        token_id: TokenId,
        from: AccountAddress,
        to: AccountAddress,
    ) -> bool {
        &&& self.registry == registry
        &&& self.entrypoint@ == TRANSFER_ENTRYPOINT@
        &&& self.transfer.token_id == token_id
        &&& self.transfer.amount == 1
        &&& self.transfer.from == from
        &&& self.transfer.to == to
        &&& self.transfer.data@ == Seq::<u8>::empty()
        &&& self.parameter@ == transfer_parameter(
            token_id,
            1,
            from.0@,
            to.0@,
            Seq::<u8>::empty(),
        )
        &&& self.attached_amount == 0
    }

    /// The call that moves one unit of `token_id` from `from` to `to` at `registry`.
    pub fn transfer_of_one(
        registry: ContractAddress,
        token_id: TokenId,
        from: AccountAddress,
        to: AccountAddress,
    ) -> (call: Self)
        ensures
            call.is_transfer_of_one(registry, token_id, from, to),
    {
        let transfer = Transfer { token_id, amount: 1, from, to, data: Vec::new() };
        let parameter = encode_transfer(&transfer);
        RegistryCall {
            registry,
            entrypoint: TRANSFER_ENTRYPOINT,
            transfer,
            parameter,
            attached_amount: 0,
        }
    }
}

/// Why a call to the registry did not go through.
#[derive(Debug, Clone, Copy, PartialEq, Eq)]
pub enum CallFailure {
    /// The value attached to the call is not available to the caller.
    AmountTooLarge,
    /// The account that owns the registry does not exist.
    MissingAccount,
    /// No contract lives at the registry's address.
    MissingContract,
    /// The registry has no such entrypoint.
    MissingEntrypoint,
    /// Sending a message to a registry of the first contract version failed.
    MessageFailed,
    /// The registry rejected the call, giving this reason.
    LogicReject { reason: i32 },
    /// The registry ran into a runtime error.
    Trap,
}

/// What the registry answered: success, or the way in which the call failed.
pub type CallOutcome = Result<(), CallFailure>;

impl From<CallFailure> for MarketplaceError {
    /// Every failure of the registry becomes `InvokeContractError`.
    fn from(failure: CallFailure) -> (error: Self) {
        MarketplaceError::InvokeContractError
    }
}

impl vstd::std_specs::convert::FromSpecImpl<CallFailure> for MarketplaceError {
    open spec fn obeys_from_spec() -> bool {
        true
    }

    open spec fn from_spec(failure: CallFailure) -> Self {
        MarketplaceError::InvokeContractError
    }
}

} // verus!
