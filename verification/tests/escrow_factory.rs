#![allow(dead_code)]

use soroban_contracts::escrow::SorobanEscrow;
use soroban_contracts::escrow_factory::DataKey;
use soroban_contracts::escrow_factory::Error;
use soroban_contracts::escrow_factory::Immutables;
use soroban_contracts::escrow_factory::SorobanEscrowFactory;
use soroban_contracts::host::Address;
use soroban_contracts::host::AddressKind;
use soroban_contracts::host::Env;
use soroban_contracts::host::Event;
use soroban_contracts::host::Transfer;
use soroban_sdk::address_payload::AddressPayload;
use soroban_sdk::testutils::Address as _;
use soroban_sdk::testutils::EnvTestConfig;
use soroban_sdk::testutils::Ledger;
use soroban_sdk::token;
use soroban_sdk::Bytes;
use soroban_sdk::BytesN;

fn ledger() -> soroban_sdk::Env {
    soroban_sdk::Env::new_with_config(EnvTestConfig { capture_snapshot_at_drop: false })
}

fn lib_address(addr: &soroban_sdk::Address) -> Address {
    match addr.to_payload() {
        Some(AddressPayload::AccountIdPublicKeyEd25519(key)) => Address::account(key.to_array()),
        Some(AddressPayload::ContractIdHash(hash)) => Address::contract(hash.to_array()),
        None => panic!("unknown kind of address"),
    }
}

fn sdk_address(e: &soroban_sdk::Env, addr: &Address) -> soroban_sdk::Address {
    let id = BytesN::from_array(e, &addr.id);
    let payload = match addr.kind {
        AddressKind::Account => AddressPayload::AccountIdPublicKeyEd25519(id),
        AddressKind::Contract => AddressPayload::ContractIdHash(id),
    };
    soroban_sdk::Address::from_payload(e, payload)
}

/// The invocation of `contract` on the ledger `e`, authorized by `signers`.
fn invocation(
    e: &soroban_sdk::Env,
    contract: &soroban_sdk::Address,
    signers: &[&soroban_sdk::Address],
) -> Env {
    let mut env = Env::new(
        e.ledger().timestamp(),
        e.ledger().network_id().to_array(),
        lib_address(contract),
    );
    for signer in signers {
        env.authorize(lib_address(signer));
    }
    env
}

/// Has the token contract carry out a transfer that the library asked for.
fn carry_out(e: &soroban_sdk::Env, transfer: &Transfer) {
    token::Client::new(e, &sdk_address(e, &transfer.token)).transfer(
        &sdk_address(e, &transfer.from),
        &sdk_address(e, &transfer.to),
        &transfer.amount,
    );
}

fn create_token_contract<'a>(
    e: &soroban_sdk::Env,
    admin: &soroban_sdk::Address,
) -> (token::Client<'a>, token::StellarAssetClient<'a>) {
    let sac = e.register_stellar_asset_contract_v2(admin.clone());
    (
        token::Client::new(e, &sac.address()),
        token::StellarAssetClient::new(e, &sac.address()),
    )
}

fn create_accounts(
    env: &soroban_sdk::Env,
) -> (soroban_sdk::Address, soroban_sdk::Address, soroban_sdk::Address) {
    let admin = soroban_sdk::Address::generate(env);
    let maker = soroban_sdk::Address::generate(env);
    let taker = soroban_sdk::Address::generate(env);
    (admin, maker, taker)
}

fn sha256_bytes32(env: &soroban_sdk::Env, secret_32: &[u8; 32]) -> [u8; 32] {
    let b = Bytes::from_array(env, secret_32);
    env.crypto().sha256(&b).to_array()
}

fn build_immutables(
    env: &soroban_sdk::Env,
    token_addr: &soroban_sdk::Address,
    maker: &soroban_sdk::Address,
    taker: &soroban_sdk::Address,
    amount: i128,
    cancel_ts: u64,
    secret: &[u8; 32],
) -> (Immutables, [u8; 32]) {
    let hashlock = sha256_bytes32(env, secret);
    (
        Immutables {
            hashlock,
            maker: lib_address(maker),
            taker: lib_address(taker),
            token: lib_address(token_addr),
            amount,
            cancellation_timestamp: cancel_ts,
        },
        hashlock,
    )
}

fn as_bytesn32(fill: u8) -> [u8; 32] {
    [fill; 32]
}

/// The digest under which the escrow's code is registered in these tests.
const ESCROW_WASM_HASH: [u8; 32] = [0xE5; 32];

#[test]
fn deploy_and_initialize_works() {
    let env = ledger();

    // Time zero
    env.ledger().with_mut(|li| {
        li.timestamp = 10_000;
    });

    // Accounts and token
    let (admin, maker, taker) = create_accounts(&env);
    let (token, _token_admin) = create_token_contract(&env, &admin);
    let token_addr = token.address.clone();

    // Register factory
    let factory_id = soroban_sdk::Address::generate(&env);
    let mut factory = SorobanEscrowFactory::new();

    // Initialize factory
    assert_eq!(factory.initialize(lib_address(&admin), ESCROW_WASM_HASH), Ok(()));

    // Build immutables (secret -> hashlock)
    let secret = [7u8; 32];
    let (immutables, _hashlock) =
        build_immutables(&env, &token_addr, &maker, &taker, 1_000, 15_000, &secret);

    // Salt for deterministic address
    let salt = as_bytesn32(1);

    // Deploy escrow via factory
    let deployed = factory
        .deploy_escrow(&invocation(&env, &factory_id, &[]), immutables, &salt)
        .unwrap();
    let escrow_addr = sdk_address(&env, &deployed.address);

    // Sanity: escrow was deployed, not equal to factory address
    assert_ne!(escrow_addr, factory_id);

    assert_eq!(deployed.escrow.get_immutables(), Ok(immutables));
    assert_eq!(deployed.wasm_hash, ESCROW_WASM_HASH);
    assert_eq!(deployed.salt, salt);
    assert_eq!(deployed.event, Event::DeployEscrow { address: deployed.address });
    assert_eq!(deployed.event.topic(), "deploy_escrow");
    // Just verify zero balance initially.
    assert_eq!(token.balance(&escrow_addr), 0);
}

#[test]
fn withdraw_before_deadline_works() {
    let env = ledger();
    env.mock_all_auths();

    env.ledger().with_mut(|li| {
        li.timestamp = 12_000; // before cancel window
    });

    let (admin, maker, taker) = create_accounts(&env);
    let (token, token_admin) = create_token_contract(&env, &admin);
    let token_addr = token.address.clone();

    let factory_id = soroban_sdk::Address::generate(&env);
    let mut factory = SorobanEscrowFactory::new();
    assert_eq!(factory.initialize(lib_address(&admin), ESCROW_WASM_HASH), Ok(()));

    let secret = [9u8; 32];
    let (immutables, _hashlock) =
        build_immutables(&env, &token_addr, &maker, &taker, 1_000, 20_000, &secret);

    let salt = as_bytesn32(2);
    let deployed = factory
        .deploy_escrow(&invocation(&env, &factory_id, &[]), immutables, &salt)
        .unwrap();
    let escrow_addr = sdk_address(&env, &deployed.address);

    // fund escrow with tokens
    token_admin.mint(&escrow_addr, &immutables.amount);
    assert_eq!(token.balance(&escrow_addr), 1_000);

    // taker withdraws by providing secret (must be authorized as taker)
    let escrow: SorobanEscrow = deployed.escrow;
    let payout = escrow.withdraw(&invocation(&env, &escrow_addr, &[&taker]), &secret).unwrap();
    carry_out(&env, &payout.transfer);

    assert_eq!(token.balance(&escrow_addr), 0);
    assert_eq!(token.balance(&taker), 1_000);
}

#[test]
fn cancel_after_deadline_refunds_maker() {
    let env = ledger();
    env.mock_all_auths();

    env.ledger().with_mut(|li| {
        li.timestamp = 14_000;
    });

    let (admin, maker, taker) = create_accounts(&env);
    let (token, token_admin) = create_token_contract(&env, &admin);
    let token_addr = token.address.clone();

    let factory_id = soroban_sdk::Address::generate(&env);
    let mut factory = SorobanEscrowFactory::new();
    assert_eq!(factory.initialize(lib_address(&admin), ESCROW_WASM_HASH), Ok(()));

    let secret = [5u8; 32];
    let (immutables, _hashlock) =
        build_immutables(&env, &token_addr, &maker, &taker, 1_000, 15_000, &secret);

    let salt = as_bytesn32(3);
    let deployed = factory
        .deploy_escrow(&invocation(&env, &factory_id, &[]), immutables, &salt)
        .unwrap();
    let escrow_addr = sdk_address(&env, &deployed.address);

    // fund escrow
    token_admin.mint(&escrow_addr, &immutables.amount);
    assert_eq!(token.balance(&escrow_addr), 1_000);

    // advance time beyond cancellation timestamp
    env.ledger().with_mut(|li| {
        li.timestamp = 16_000;
    });

    // maker cancels -> refund to maker
    let escrow: SorobanEscrow = deployed.escrow;
    let payout = escrow.cancel(&invocation(&env, &escrow_addr, &[&maker])).unwrap();
    carry_out(&env, &payout.transfer);

    assert_eq!(token.balance(&maker), 1_000);
    assert_eq!(token.balance(&escrow_addr), 0);
}

#[test]
fn escrow_factory_initializes_once() {
    let env = ledger();
    let (admin, maker, _taker) = create_accounts(&env);
    let mut factory = SorobanEscrowFactory::new();

    assert!(!factory.has(&DataKey::Admin));
    assert!(!factory.has(&DataKey::EscrowWasmHash));
    assert_eq!(factory.get_admin(), Err(Error::NotInitialized));
    assert_eq!(factory.get_escrow_wasm_hash(), Err(Error::NotInitialized));

    assert_eq!(factory.initialize(lib_address(&admin), [1; 32]), Ok(()));
    assert_eq!(
        factory.initialize(lib_address(&maker), [2; 32]),
        Err(Error::AlreadyInitialized)
    );
    assert!(factory.has(&DataKey::Admin));
    assert!(factory.has(&DataKey::EscrowWasmHash));
    assert_eq!(factory.get_admin(), Ok(lib_address(&admin)));
    assert_eq!(factory.get_escrow_wasm_hash(), Ok([1; 32]));
}

#[test]
fn escrow_factory_refuses_what_it_cannot_deploy() {
    let env = ledger();
    let (admin, maker, taker) = create_accounts(&env);
    let token = soroban_sdk::Address::generate(&env);
    let factory_id = soroban_sdk::Address::generate(&env);
    let mut factory = SorobanEscrowFactory::new();
    let (immutables, _) = build_immutables(&env, &token, &maker, &taker, 1_000, 15_000, &[7; 32]);
    let context = invocation(&env, &factory_id, &[]);

    assert_eq!(
        factory.deploy_escrow(&context, immutables, &[1; 32]),
        Err(Error::NotInitialized)
    );
    assert_eq!(factory.get_escrow_address(&context, &[1; 32]), Err(Error::NotInitialized));

    assert_eq!(factory.initialize(lib_address(&admin), ESCROW_WASM_HASH), Ok(()));
    let negative = Immutables { amount: -1, ..immutables };
    assert_eq!(
        factory.deploy_escrow(&context, negative, &[1; 32]),
        Err(Error::DeploymentFailed)
    );
}

#[test]
fn escrow_address_is_the_one_the_host_derives() {
    let env = ledger();
    env.ledger().with_mut(|li| {
        li.network_id = [0x5A; 32];
    });
    let (admin, maker, taker) = create_accounts(&env);
    let token = soroban_sdk::Address::generate(&env);
    let factory_id = soroban_sdk::Address::generate(&env);
    let mut factory = SorobanEscrowFactory::new();
    assert_eq!(factory.initialize(lib_address(&admin), ESCROW_WASM_HASH), Ok(()));
    let (immutables, _) = build_immutables(&env, &token, &maker, &taker, 1_000, 15_000, &[7; 32]);
    let context = invocation(&env, &factory_id, &[]);

    let salt = [0x11u8; 32];
    let predicted = factory.get_escrow_address(&context, &salt).unwrap();
    let deployed = factory.deploy_escrow(&context, immutables, &salt).unwrap();
    assert_eq!(predicted, deployed.address);
    assert_eq!(predicted.kind, AddressKind::Contract);

    let by_host = env
        .deployer()
        .with_address(factory_id.clone(), BytesN::from_array(&env, &salt))
        .deployed_address();
    assert_eq!(sdk_address(&env, &predicted), by_host);
    assert_ne!(predicted, lib_address(&factory_id));

    // Another salt, another deployer or another network gives another address.
    let other_salt = factory.get_escrow_address(&context, &[0x12u8; 32]).unwrap();
    assert_ne!(other_salt, predicted);
    let other_factory = soroban_sdk::Address::generate(&env);
    let elsewhere = factory
        .get_escrow_address(&invocation(&env, &other_factory, &[]), &salt)
        .unwrap();
    assert_ne!(elsewhere, predicted);
    let other_network = Env::new(0, [0x5B; 32], lib_address(&factory_id));
    assert_ne!(factory.get_escrow_address(&other_network, &salt).unwrap(), predicted);
}

#[test]
fn account_as_deployer_gets_the_address_the_host_derives() {
    let env = ledger();
    let account = Address::account([0x33; 32]);
    let context = Env::new(0, env.ledger().network_id().to_array(), account);
    let salt = [0x44u8; 32];
    let derived = context.contract_address(&account, &salt);
    let by_host = env
        .deployer()
        .with_address(sdk_address(&env, &account), BytesN::from_array(&env, &salt))
        .deployed_address();
    assert_eq!(sdk_address(&env, &derived), by_host);
    // The kind of the deployer enters the address.
    assert_ne!(context.contract_address(&Address::contract([0x33; 32]), &salt), derived);
}

#[test]
fn escrow_wasm_hash_is_rotated_by_the_admin_only() {
    let env = ledger();
    let (admin, maker, _taker) = create_accounts(&env);
    let factory_id = soroban_sdk::Address::generate(&env);
    let mut factory = SorobanEscrowFactory::new();

    assert_eq!(
        factory.update_escrow_wasm_hash(&invocation(&env, &factory_id, &[&admin]), [3; 32]),
        Err(Error::NotInitialized)
    );
    assert_eq!(factory.initialize(lib_address(&admin), [1; 32]), Ok(()));
    assert_eq!(
        factory.update_escrow_wasm_hash(&invocation(&env, &factory_id, &[&maker]), [3; 32]),
        Err(Error::NotAuthorized)
    );
    assert_eq!(factory.get_escrow_wasm_hash(), Ok([1; 32]));
    assert_eq!(
        factory.update_escrow_wasm_hash(&invocation(&env, &factory_id, &[&admin]), [3; 32]),
        Ok(())
    );
    assert_eq!(factory.get_escrow_wasm_hash(), Ok([3; 32]));
    assert_eq!(factory.get_admin(), Ok(lib_address(&admin)));
}

#[test]
fn escrow_factory_error_codes() {
    assert_eq!(Error::NotInitialized.code(), 1);
    assert_eq!(Error::AlreadyInitialized.code(), 2);
    assert_eq!(Error::NotAuthorized.code(), 3);
    assert_eq!(Error::DeploymentFailed.code(), 4);
}
