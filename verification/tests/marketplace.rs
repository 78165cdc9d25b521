use marketplace::address::{AccountAddress, Address, ContractAddress};
use marketplace::error::MarketplaceError;
use marketplace::ledger::{Listing, ListingLedger};
use marketplace::registry::{CallFailure, RegistryCall, Transfer, TRANSFER_ENTRYPOINT};
use marketplace::settlement::SettlementCoordinator;

const OWNER: AccountAddress = AccountAddress([0u8; 32]);
const OWNER_ADDR: Address = Address::Account(OWNER);
const RECEIVER: AccountAddress = AccountAddress([1u8; 32]);
const STRANGER: AccountAddress = AccountAddress([7u8; 32]);
const NFT_CONTRACT: ContractAddress = ContractAddress { index: 42, subindex: 0 };
const TOKEN1_ID: u32 = 1;
const TOKEN1_PRICE: u32 = 1000;

fn listed_once() -> (SettlementCoordinator, ListingLedger) {
    let coordinator = SettlementCoordinator::new(OWNER);
    let mut ledger = ListingLedger::empty();
    ledger.list(TOKEN1_ID, TOKEN1_PRICE);
    (coordinator, ledger)
}

#[test]
fn test_init() {
    let ledger = ListingLedger::empty();
    assert_eq!(ledger.snapshot().len(), 0);
    assert_eq!(ledger.len(), 0);
    assert!(ledger.is_empty());
}

#[test]
fn test_place_for_sale() {
    let coordinator = SettlementCoordinator::new(OWNER);
    let mut ledger = ListingLedger::empty();
    coordinator.list_for_sale(&mut ledger, &OWNER_ADDR, 1, 1000);
    assert_eq!(ledger.snapshot().len(), 1);
    assert_eq!(ledger.lookup(1), Some(1000));
}

#[test]
fn test_withdraw() {
    let (coordinator, mut ledger) = listed_once();
    let result = coordinator.withdraw(&mut ledger, &OWNER_ADDR, TOKEN1_ID);
    assert!(result.is_ok());
    assert_eq!(ledger.snapshot().len(), 0);
}

#[test]
fn test_purchase() {
    let (coordinator, mut ledger) = listed_once();
    let result = coordinator.purchase(
        &mut ledger,
        &OWNER_ADDR,
        TOKEN1_ID,
        OWNER,
        RECEIVER,
        NFT_CONTRACT,
        |_call| Ok(()),
    );
    assert!(result.is_ok());
    assert_eq!(ledger.snapshot().len(), 0);
}

#[test]
fn test_view_tokens_for_sale() {
    let (coordinator, ledger) = listed_once();
    let view = coordinator.view_listings(&ledger);
    assert_eq!(view, vec![Listing { token_id: TOKEN1_ID, price: TOKEN1_PRICE }]);
}

#[test]
fn relisting_keeps_one_entry_with_the_second_price() {
    let mut ledger = ListingLedger::empty();
    ledger.list(5, 100);
    ledger.list(5, 250);
    assert_eq!(ledger.len(), 1);
    assert_eq!(ledger.lookup(5), Some(250));
    assert_eq!(ledger.snapshot(), vec![Listing { token_id: 5, price: 250 }]);
}

#[test]
fn anyone_may_list() {
    let coordinator = SettlementCoordinator::new(OWNER);
    let mut ledger = ListingLedger::empty();
    coordinator.list_for_sale(&mut ledger, &Address::Account(STRANGER), 9, 3);
    coordinator.list_for_sale(&mut ledger, &Address::Contract(NFT_CONTRACT), 8, 4);
    assert_eq!(
        ledger.snapshot(),
        vec![Listing { token_id: 8, price: 4 }, Listing { token_id: 9, price: 3 }]
    );
}

#[test]
fn ledger_withdraw_of_unlisted_token_is_not_found() {
    let mut ledger = ListingLedger::empty();
    ledger.list(1, 1000);
    assert_eq!(ledger.withdraw(2), Err(MarketplaceError::TokenNotFound));
    assert_eq!(ledger.snapshot(), vec![Listing { token_id: 1, price: 1000 }]);
    assert_eq!(ledger.withdraw(1), Ok(()));
    assert_eq!(ledger.withdraw(1), Err(MarketplaceError::TokenNotFound));
    assert!(ledger.is_empty());
}

#[test]
fn lookup_tells_listed_from_unlisted() {
    let mut ledger = ListingLedger::empty();
    assert_eq!(ledger.lookup(0), None);
    ledger.list(0, 0);
    ledger.list(u32::MAX, u32::MAX);
    assert_eq!(ledger.lookup(0), Some(0));
    assert_eq!(ledger.lookup(u32::MAX), Some(u32::MAX));
    assert_eq!(ledger.lookup(1), None);
}

#[test]
fn remove_is_silent_on_an_unlisted_token() {
    let mut ledger = ListingLedger::empty();
    ledger.list(3, 30);
    ledger.remove(4);
    assert_eq!(ledger.len(), 1);
    ledger.remove(3);
    assert_eq!(ledger.len(), 0);
}

#[test]
fn snapshot_is_by_ascending_token() {
    let mut ledger = ListingLedger::empty();
    ledger.list(300, 3);
    ledger.list(2, 20);
    ledger.list(256, 7);
    ledger.list(1, 10);
    assert_eq!(
        ledger.snapshot(),
        vec![
            Listing { token_id: 1, price: 10 },
            Listing { token_id: 2, price: 20 },
            Listing { token_id: 256, price: 7 },
            Listing { token_id: 300, price: 3 },
        ]
    );
    assert_eq!(ledger.snapshot(), ledger.snapshot());
}

#[test]
fn coordinator_withdraw_of_unlisted_token_is_not_found() {
    let (coordinator, mut ledger) = listed_once();
    assert_eq!(
        coordinator.withdraw(&mut ledger, &OWNER_ADDR, 2),
        Err(MarketplaceError::TokenNotFound)
    );
    assert_eq!(ledger.snapshot(), vec![Listing { token_id: 1, price: 1000 }]);
}

#[test]
fn unauthorized_withdraw_changes_nothing() {
    let (coordinator, mut ledger) = listed_once();
    for caller in [Address::Account(STRANGER), Address::Contract(NFT_CONTRACT)] {
        assert_eq!(
            coordinator.withdraw(&mut ledger, &caller, TOKEN1_ID),
            Err(MarketplaceError::Unauthorized)
        );
        assert_eq!(
            coordinator.withdraw(&mut ledger, &caller, 2),
            Err(MarketplaceError::Unauthorized)
        );
        assert_eq!(ledger.snapshot(), vec![Listing { token_id: 1, price: 1000 }]);
    }
}

#[test]
fn unauthorized_purchase_never_reaches_the_registry() {
    let (coordinator, mut ledger) = listed_once();
    let mut called = false;
    let result = coordinator.purchase(
        &mut ledger,
        &Address::Account(STRANGER),
        TOKEN1_ID,
        OWNER,
        RECEIVER,
        NFT_CONTRACT,
        |_call| {
            called = true;
            Ok(())
        },
    );
    assert_eq!(result, Err(MarketplaceError::Unauthorized));
    assert!(!called);
    assert_eq!(ledger.snapshot(), vec![Listing { token_id: 1, price: 1000 }]);
    assert_eq!(
        coordinator
            .prepare_purchase(&ledger, &Address::Account(STRANGER), 2, OWNER, RECEIVER, NFT_CONTRACT)
            .unwrap_err(),
        MarketplaceError::Unauthorized
    );
}

#[test]
fn purchase_of_unlisted_token_is_not_found() {
    let (coordinator, mut ledger) = listed_once();
    let mut called = false;
    let result = coordinator.purchase(
        &mut ledger,
        &OWNER_ADDR,
        2,
        OWNER,
        RECEIVER,
        NFT_CONTRACT,
        |_call| {
            called = true;
            Ok(())
        },
    );
    assert_eq!(result, Err(MarketplaceError::TokenNotFound));
    assert!(!called);
    assert_eq!(ledger.snapshot(), vec![Listing { token_id: 1, price: 1000 }]);
}

#[test]
fn failed_transfer_keeps_the_listing() {
    let failures = [
        CallFailure::AmountTooLarge,
        CallFailure::MissingAccount,
        CallFailure::MissingContract,
        CallFailure::MissingEntrypoint,
        CallFailure::MessageFailed,
        CallFailure::LogicReject { reason: -42000001 },
        CallFailure::Trap,
    ];
    for failure in failures {
        let (coordinator, mut ledger) = listed_once();
        let result = coordinator.purchase(
            &mut ledger,
            &OWNER_ADDR,
            TOKEN1_ID,
            OWNER,
            RECEIVER,
            NFT_CONTRACT,
            |_call| Err(failure),
        );
        assert_eq!(result, Err(MarketplaceError::InvokeContractError));
        assert_eq!(ledger.snapshot(), vec![Listing { token_id: 1, price: 1000 }]);
        assert_eq!(MarketplaceError::from(failure), MarketplaceError::InvokeContractError);
    }
}

#[test]
fn successful_transfer_removes_that_listing_only() {
    let (coordinator, mut ledger) = listed_once();
    ledger.list(2, 2000);
    ledger.list(3, 3000);
    let mut calls = 0;
    let result = coordinator.purchase(
        &mut ledger,
        &OWNER_ADDR,
        2,
        OWNER,
        RECEIVER,
        NFT_CONTRACT,
        |_call| {
            calls += 1;
            Ok(())
        },
    );
    assert_eq!(result, Ok(()));
    assert_eq!(calls, 1);
    assert_eq!(
        ledger.snapshot(),
        vec![Listing { token_id: 1, price: 1000 }, Listing { token_id: 3, price: 3000 }]
    );
}

#[test]
fn purchase_in_two_steps() {
    let (coordinator, mut ledger) = listed_once();
    let call = coordinator
        .prepare_purchase(&ledger, &OWNER_ADDR, TOKEN1_ID, OWNER, RECEIVER, NFT_CONTRACT)
        .unwrap();
    assert_eq!(call.registry, NFT_CONTRACT);
    assert_eq!(ledger.lookup(TOKEN1_ID), Some(TOKEN1_PRICE));
    assert_eq!(
        coordinator.settle_purchase(&mut ledger, TOKEN1_ID, Err(CallFailure::Trap)),
        Err(MarketplaceError::InvokeContractError)
    );
    assert_eq!(ledger.lookup(TOKEN1_ID), Some(TOKEN1_PRICE));
    assert_eq!(coordinator.settle_purchase(&mut ledger, TOKEN1_ID, Ok(())), Ok(()));
    assert_eq!(ledger.lookup(TOKEN1_ID), None);
    assert_eq!(coordinator.settle_purchase(&mut ledger, TOKEN1_ID, Ok(())), Ok(()));
    assert!(ledger.is_empty());
}

#[test]
fn the_call_asks_for_one_unit_with_nothing_attached() {
    let (coordinator, ledger) = listed_once();
    let call = coordinator
        .prepare_purchase(&ledger, &OWNER_ADDR, TOKEN1_ID, OWNER, RECEIVER, NFT_CONTRACT)
        .unwrap();
    assert_eq!(call.registry, ContractAddress { index: 42, subindex: 0 });
    assert_eq!(call.entrypoint, "transfer");
    assert_eq!(TRANSFER_ENTRYPOINT, "transfer");
    assert_eq!(call.attached_amount, 0);
    assert_eq!(
        call.transfer,
        Transfer { token_id: 1, amount: 1, from: OWNER, to: RECEIVER, data: Vec::new() }
    );
    assert_eq!(call, RegistryCall::transfer_of_one(NFT_CONTRACT, TOKEN1_ID, OWNER, RECEIVER));
}

#[test]
fn the_parameter_is_the_serialised_transfer() {
    let mut from = [0u8; 32];
    for (i, byte) in from.iter_mut().enumerate() {
        *byte = i as u8;
    }
    let to = [0xEEu8; 32];
    let call = RegistryCall::transfer_of_one(
        NFT_CONTRACT,
        0x0A0B0C0D,
        AccountAddress(from),
        AccountAddress(to),
    );
    let mut expected: Vec<u8> = vec![1, 0, 4, 0x0D, 0x0C, 0x0B, 0x0A, 1, 0];
    expected.extend_from_slice(&from);
    expected.push(0);
    expected.extend_from_slice(&to);
    expected.extend_from_slice(&[0, 0]);
    assert_eq!(call.parameter, expected);
    assert_eq!(call.parameter.len(), 76);
}

#[test]
fn the_parameter_is_what_the_registry_reads_back() {
    let call = RegistryCall::transfer_of_one(NFT_CONTRACT, 77, OWNER, RECEIVER);
    let read: concordium_cis2::TransferParams<
        concordium_cis2::TokenIdU32,
        concordium_cis2::TokenAmountU32,
    > = concordium_std::from_bytes(&call.parameter).unwrap();
    assert_eq!(read.0.len(), 1);
    let transfer = &read.0[0];
    assert_eq!(transfer.token_id, concordium_cis2::TokenIdU32(77));
    assert_eq!(transfer.amount, concordium_cis2::TokenAmountU32(1));
    assert_eq!(
        transfer.from,
        concordium_std::Address::Account(concordium_std::AccountAddress([0u8; 32]))
    );
    assert_eq!(
        transfer.to.address(),
        concordium_std::Address::Account(concordium_std::AccountAddress([1u8; 32]))
    );
    assert!(transfer.data.as_ref().is_empty());
}

#[test]
fn matches_account_compares_all_bytes() {
    let mut near = [0u8; 32];
    near[31] = 1;
    assert!(OWNER_ADDR.matches_account(&OWNER));
    assert!(!OWNER_ADDR.matches_account(&AccountAddress(near)));
    assert!(!Address::Account(AccountAddress(near)).matches_account(&OWNER));
    assert!(Address::Account(AccountAddress(near)).matches_account(&AccountAddress(near)));
    assert!(!Address::Contract(ContractAddress { index: 0, subindex: 0 }).matches_account(&OWNER));
}

#[test]
fn the_coordinator_remembers_its_owner() {
    assert_eq!(SettlementCoordinator::new(RECEIVER).owner(), RECEIVER);
    let coordinator = SettlementCoordinator::new(RECEIVER);
    let mut ledger = ListingLedger::empty();
    ledger.list(1, 1);
    assert_eq!(
        coordinator.withdraw(&mut ledger, &OWNER_ADDR, 1),
        Err(MarketplaceError::Unauthorized)
    );
    assert_eq!(coordinator.withdraw(&mut ledger, &Address::Account(RECEIVER), 1), Ok(()));
}

#[test]
fn list_withdraw_list_purchase() {
    let coordinator = SettlementCoordinator::new(OWNER);
    let mut ledger = ListingLedger::empty();
    assert_eq!(coordinator.view_listings(&ledger), vec![]);

    coordinator.list_for_sale(&mut ledger, &OWNER_ADDR, 1, 1000);
    assert_eq!(coordinator.view_listings(&ledger), vec![Listing { token_id: 1, price: 1000 }]);

    assert_eq!(coordinator.withdraw(&mut ledger, &OWNER_ADDR, 1), Ok(()));
    assert_eq!(coordinator.view_listings(&ledger), vec![]);

    coordinator.list_for_sale(&mut ledger, &OWNER_ADDR, 1, 1000);
    let bought = coordinator.purchase(
        &mut ledger,
        &OWNER_ADDR,
        1,
        OWNER,
        RECEIVER,
        NFT_CONTRACT,
        |_call| Ok(()),
    );
    assert_eq!(bought, Ok(()));
    assert_eq!(coordinator.view_listings(&ledger), vec![]);

    coordinator.list_for_sale(&mut ledger, &OWNER_ADDR, 1, 1000);
    let refused = coordinator.purchase(
        &mut ledger,
        &OWNER_ADDR,
        1,
        OWNER,
        RECEIVER,
        NFT_CONTRACT,
        |_call| Err(CallFailure::LogicReject { reason: -1 }),
    );
    assert_eq!(refused, Err(MarketplaceError::InvokeContractError));
    assert_eq!(coordinator.view_listings(&ledger), vec![Listing { token_id: 1, price: 1000 }]);
}
