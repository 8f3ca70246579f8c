#![allow(dead_code)]

use soroban_contracts::dutch_auction::SorobanDutchAuction;
use soroban_contracts::host::Address;
use soroban_contracts::host::AddressKind;
use soroban_contracts::host::Env;
use soroban_contracts::host::Event;
use soroban_contracts::host::Transfer;
use soroban_contracts::lop::OrderState;
use soroban_contracts::lop_factory::DataKey;
use soroban_contracts::lop_factory::Error;
use soroban_contracts::lop_factory::SorobanLOPFactory;
use soroban_sdk::address_payload::AddressPayload;
use soroban_sdk::testutils::Address as _;
use soroban_sdk::testutils::EnvTestConfig;
use soroban_sdk::testutils::Ledger;
use soroban_sdk::token;
use soroban_sdk::BytesN;

fn ledger() -> soroban_sdk::Env {
    soroban_sdk::Env::new_with_config(EnvTestConfig { capture_snapshot_at_drop: false })
}

fn lib_address(addr: &soroban_sdk::Address) -> Address {
    match addr.to_payload() {
        Some(AddressPayload::AccountIdPublicKeyEd25519(key)) => Address::account(key.to_array()),
        Some(AddressPayload::ContractIdHash(hash)) => Address::contract(hash.to_array()),
        None => panic!("unknown kind of address"),
    }
}

fn sdk_address(e: &soroban_sdk::Env, addr: &Address) -> soroban_sdk::Address {
    let id = BytesN::from_array(e, &addr.id);
    let payload = match addr.kind {
        AddressKind::Account => AddressPayload::AccountIdPublicKeyEd25519(id),
        AddressKind::Contract => AddressPayload::ContractIdHash(id),
    };
    soroban_sdk::Address::from_payload(e, payload)
}

/// The invocation of `contract` on the ledger `e`, authorized by `signers`.
fn invocation(
    e: &soroban_sdk::Env,
    contract: &soroban_sdk::Address,
    signers: &[&soroban_sdk::Address],
) -> Env {
    let mut env = Env::new(
        e.ledger().timestamp(),
        e.ledger().network_id().to_array(),
        lib_address(contract),
    );
    for signer in signers {
        env.authorize(lib_address(signer));
    }
    env
}

/// Has the token contract carry out a transfer that the library asked for.
fn carry_out(e: &soroban_sdk::Env, transfer: &Transfer) {
    token::Client::new(e, &sdk_address(e, &transfer.token)).transfer(
        &sdk_address(e, &transfer.from),
        &sdk_address(e, &transfer.to),
        &transfer.amount,
    );
}

fn create_token_contract<'a>(
    e: &soroban_sdk::Env,
    admin: &soroban_sdk::Address,
) -> (token::Client<'a>, token::StellarAssetClient<'a>) {
    let sac = e.register_stellar_asset_contract_v2(admin.clone());
    (
        token::Client::new(e, &sac.address()),
        token::StellarAssetClient::new(e, &sac.address()),
    )
}

/// A fresh factory and the address it stands at.
fn create_factory_contract(e: &soroban_sdk::Env) -> (SorobanLOPFactory, soroban_sdk::Address) {
    (SorobanLOPFactory::new(), soroban_sdk::Address::generate(e))
}

/// The digests under which the two programs are registered in these tests.
const LOP_WASM_HASH: [u8; 32] = [0xA1; 32];
const DUTCH_AUCTION_WASM_HASH: [u8; 32] = [0xA2; 32];

#[test]
fn test_initialize_lop_factory() {
    let env = ledger();
    let (mut factory, _factory_address) = create_factory_contract(&env);
    let admin = soroban_sdk::Address::generate(&env);
    let lop_wasm_hash = [1; 32];
    let dutch_auction_wasm_hash = [2; 32];

    // Should initialize successfully
    assert_eq!(
        factory.initialize(lib_address(&admin), lop_wasm_hash, dutch_auction_wasm_hash),
        Ok(())
    );

    // Should fail to initialize again
    assert_eq!(
        factory.initialize(lib_address(&admin), lop_wasm_hash, dutch_auction_wasm_hash),
        Err(Error::AlreadyInitialized)
    );

    // Check stored values
    assert_eq!(factory.get_admin(), Ok(lib_address(&admin)));
    assert_eq!(factory.get_lop_wasm_hash(), Ok(lop_wasm_hash));
    assert_eq!(factory.get_dutch_auction_wasm_hash(), Ok(dutch_auction_wasm_hash));
}

#[test]
fn test_deploy_lop() {
    let env = ledger();
    env.mock_all_auths();

    // Set up factory
    let (mut factory, factory_address) = create_factory_contract(&env);
    let admin = soroban_sdk::Address::generate(&env);

    assert_eq!(
        factory.initialize(lib_address(&admin), LOP_WASM_HASH, DUTCH_AUCTION_WASM_HASH),
        Ok(())
    );

    let salt = [42; 32];
    let lop_admin = soroban_sdk::Address::generate(&env);

    // Deploy LOP
    let deployed = factory
        .deploy_lop(&invocation(&env, &factory_address, &[]), &salt, &lib_address(&lop_admin))
        .unwrap();

    // Verify the LOP was deployed and initialized
    let lop_client = &deployed.lop;

    assert_eq!(lop_client.get_admin(), Ok(lib_address(&lop_admin)));
    assert_eq!(lop_client.get_dutch_auction_contract(), Ok(deployed.dutch_auction.address));
    assert_eq!(deployed.wasm_hash, LOP_WASM_HASH);
    assert_eq!(deployed.salt, salt);
    assert_eq!(deployed.event, Event::DeployLop { address: deployed.address });
    assert_eq!(deployed.event.topic(), "deploy_lop");
    assert_eq!(deployed.dutch_auction.wasm_hash, DUTCH_AUCTION_WASM_HASH);
    assert_eq!(
        deployed.dutch_auction.event,
        Event::DeployDutchAuction { address: deployed.dutch_auction.address }
    );
    assert_eq!(deployed.dutch_auction.event.topic(), "deploy_dutch_auction");
}

#[test]
fn test_deploy_dutch_auction() {
    let env = ledger();
    env.mock_all_auths();

    // Set up factory
    let (mut factory, factory_address) = create_factory_contract(&env);
    let admin = soroban_sdk::Address::generate(&env);

    assert_eq!(
        factory.initialize(lib_address(&admin), LOP_WASM_HASH, DUTCH_AUCTION_WASM_HASH),
        Ok(())
    );

    let salt = [42; 32];

    // Deploy Dutch auction
    let deployed = factory
        .deploy_dutch_auction(&invocation(&env, &factory_address, &[]), &salt)
        .unwrap();

    // Verify the contract was deployed
    let dutch_auction_address = sdk_address(&env, &deployed.address);
    assert_eq!(deployed.dutch_auction, SorobanDutchAuction);

    // Test that it works - set a timestamp first
    env.ledger().with_mut(|li| {
        li.timestamp = 1500;
    });
    let result = SorobanDutchAuction::calculate_taking_amount(
        &invocation(&env, &dutch_auction_address, &[]),
        100,
        1000,
        500,
        1000,
        2000,
    )
    .unwrap();
    assert!(result > 0); // Should return a valid amount
    assert_eq!(result, 750);
}

#[test]
fn test_get_addresses() {
    let env = ledger();
    let (mut factory, factory_address) = create_factory_contract(&env);
    let admin = soroban_sdk::Address::generate(&env);

    assert_eq!(
        factory.initialize(lib_address(&admin), LOP_WASM_HASH, DUTCH_AUCTION_WASM_HASH),
        Ok(())
    );

    let lop_salt = [42; 32];
    let dutch_auction_salt = [43; 32]; // Use different salt
    let context = invocation(&env, &factory_address, &[]);

    // Get predicted addresses
    let predicted_lop_address = factory.get_lop_address(&context, &lop_salt).unwrap();
    let predicted_dutch_auction_address =
        factory.get_dutch_auction_address(&context, &dutch_auction_salt).unwrap();

    // Deploy contracts with respective salts
    let lop_admin = soroban_sdk::Address::generate(&env);
    let actual_lop_address =
        factory.deploy_lop(&context, &lop_salt, &lib_address(&lop_admin)).unwrap().address;
    let actual_dutch_auction_address =
        factory.deploy_dutch_auction(&context, &dutch_auction_salt).unwrap().address;

    // Addresses should match predictions
    assert_eq!(predicted_lop_address, actual_lop_address);
    assert_eq!(predicted_dutch_auction_address, actual_dutch_auction_address);
}

#[test]
fn test_update_wasm_hashes() {
    let env = ledger();
    env.mock_all_auths();

    let (mut factory, factory_address) = create_factory_contract(&env);
    let admin = soroban_sdk::Address::generate(&env);
    let initial_lop_wasm_hash = [1; 32];
    let initial_dutch_auction_wasm_hash = [2; 32];
    let new_lop_wasm_hash = [3; 32];
    let new_dutch_auction_wasm_hash = [4; 32];

    assert_eq!(
        factory.initialize(
            lib_address(&admin),
            initial_lop_wasm_hash,
            initial_dutch_auction_wasm_hash
        ),
        Ok(())
    );

    // Update WASM hashes
    let context = invocation(&env, &factory_address, &[&admin]);
    assert_eq!(factory.update_lop_wasm_hash(&context, new_lop_wasm_hash), Ok(()));
    assert_eq!(
        factory.update_dutch_auction_wasm_hash(&context, new_dutch_auction_wasm_hash),
        Ok(())
    );

    // Verify updates
    assert_eq!(factory.get_lop_wasm_hash(), Ok(new_lop_wasm_hash));
    assert_eq!(factory.get_dutch_auction_wasm_hash(), Ok(new_dutch_auction_wasm_hash));
}

#[test]
fn paired_pricer_stands_at_the_digest_of_the_salt() {
    let env = ledger();
    let (mut factory, factory_address) = create_factory_contract(&env);
    let admin = soroban_sdk::Address::generate(&env);
    assert_eq!(
        factory.initialize(lib_address(&admin), LOP_WASM_HASH, DUTCH_AUCTION_WASM_HASH),
        Ok(())
    );
    let context = invocation(&env, &factory_address, &[]);
    let salt = [42u8; 32];
    let deployed = factory.deploy_lop(&context, &salt, &lib_address(&admin)).unwrap();

    let digest: [u8; 32] = env.crypto().sha256(&BytesN::from_array(&env, &salt).into()).to_array();
    assert_ne!(digest, salt);
    assert_eq!(deployed.dutch_auction.salt, digest);
    assert_eq!(
        Ok(deployed.dutch_auction.address),
        factory.get_dutch_auction_address(&context, &digest)
    );

    // Both addresses are the ones the host derives for this factory.
    let lop_by_host = env
        .deployer()
        .with_address(factory_address.clone(), BytesN::from_array(&env, &salt))
        .deployed_address();
    let pricer_by_host = env
        .deployer()
        .with_address(factory_address.clone(), BytesN::from_array(&env, &digest))
        .deployed_address();
    assert_eq!(sdk_address(&env, &deployed.address), lop_by_host);
    assert_eq!(sdk_address(&env, &deployed.dutch_auction.address), pricer_by_host);
    assert_ne!(deployed.address, deployed.dutch_auction.address);

    // The new protocol has seen no order.
    let order = soroban_contracts::lop::Order {
        salt: 1,
        maker: lib_address(&admin),
        receiver: lib_address(&admin),
        maker_asset: lib_address(&admin),
        taker_asset: lib_address(&admin),
        making_amount: 1,
        taking_amount: 1,
        maker_traits: 0,
        auction_start_time: 0,
        auction_end_time: 0,
        taking_amount_start: 0,
        taking_amount_end: 0,
    };
    assert_eq!(deployed.lop.get_order_state(&order), OrderState::Active);
}

#[test]
fn lop_factory_needs_its_digests() {
    let env = ledger();
    let (mut factory, factory_address) = create_factory_contract(&env);
    let admin = soroban_sdk::Address::generate(&env);
    let stranger = soroban_sdk::Address::generate(&env);
    let context = invocation(&env, &factory_address, &[&stranger]);
    let salt = [1u8; 32];

    for key in [DataKey::LOPWasmHash, DataKey::DutchAuctionWasmHash, DataKey::Admin] {
        assert!(!factory.has(&key));
    }
    assert!(matches!(
        factory.deploy_lop(&context, &salt, &lib_address(&admin)),
        Err(Error::NotInitialized)
    ));
    assert!(matches!(factory.deploy_dutch_auction(&context, &salt), Err(Error::NotInitialized)));
    assert_eq!(factory.get_lop_address(&context, &salt), Err(Error::NotInitialized));
    assert_eq!(factory.get_dutch_auction_address(&context, &salt), Err(Error::NotInitialized));
    assert_eq!(factory.get_admin(), Err(Error::NotInitialized));
    assert_eq!(factory.get_lop_wasm_hash(), Err(Error::NotInitialized));
    assert_eq!(factory.get_dutch_auction_wasm_hash(), Err(Error::NotInitialized));
    assert_eq!(factory.update_lop_wasm_hash(&context, [3; 32]), Err(Error::NotInitialized));
    assert_eq!(
        factory.update_dutch_auction_wasm_hash(&context, [3; 32]),
        Err(Error::NotInitialized)
    );

    assert_eq!(factory.initialize(lib_address(&admin), [1; 32], [2; 32]), Ok(()));
    for key in [DataKey::LOPWasmHash, DataKey::DutchAuctionWasmHash, DataKey::Admin] {
        assert!(factory.has(&key));
    }
    // Someone else than the admin rotates nothing.
    assert_eq!(factory.update_lop_wasm_hash(&context, [3; 32]), Err(Error::NotAuthorized));
    assert_eq!(
        factory.update_dutch_auction_wasm_hash(&context, [4; 32]),
        Err(Error::NotAuthorized)
    );
    assert_eq!(factory.get_lop_wasm_hash(), Ok([1; 32]));
    assert_eq!(factory.get_dutch_auction_wasm_hash(), Ok([2; 32]));
}

#[test]
fn lop_factory_error_codes() {
    assert_eq!(Error::NotInitialized.code(), 1);
    assert_eq!(Error::AlreadyInitialized.code(), 2);
    assert_eq!(Error::NotAuthorized.code(), 3);
    assert_eq!(Error::DeploymentFailed.code(), 4);
}
