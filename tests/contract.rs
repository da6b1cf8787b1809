use basket::contract::{
    get_price, handle, init, price_queries, query, try_mint, try_post_initialize, try_redeem,
    MINT_AMOUNT, TOKEN_DECIMALS,
};
use basket::error::ContractError;
use basket::msg::{
    Asset, AssetInfo, HandleMsg, Instruction, QueryMsg, QueryResponse, SimulationResponse,
};
use basket::state::{config, config_read, ComponentRaw, ConfigStore, State};

fn component(asset: &[u8], pair: &[u8], unit: u128) -> ComponentRaw {
    ComponentRaw { asset: asset.to_vec(), pair: pair.to_vec(), unit }
}

fn quote(r: u128, s: u128, c: u128) -> Option<SimulationResponse> {
    Some(SimulationResponse { return_amount: r, spread_amount: s, commission_amount: c })
}

fn deposit(amount: u128) -> Asset {
    Asset { info: AssetInfo::NativeToken { denom: "uusd".to_string() }, amount }
}

fn store_with(token: &[u8], components: Vec<ComponentRaw>) -> ConfigStore {
    ConfigStore::with_record(State { owner: b"owner".to_vec(), token: token.to_vec(), components })
}

#[test]
fn single_component_scenario() {
    let store = store_with(b"token", vec![component(b"asset", b"pair", 1)]);
    let quotes = vec![quote(900000, 50000, 50000)];
    let state = config_read(&store).unwrap();
    assert_eq!(get_price(&state, &quotes).unwrap().price, 1000000);
    let resp = try_mint(&store, &"alice".to_string(), &deposit(2000000), &quotes).unwrap();
    assert_eq!(resp.messages.len(), 2);
    match &resp.messages[0] {
        Instruction::Swap { pair, asset, amount } => {
            assert_eq!(pair, &b"pair".to_vec());
            assert_eq!(asset, &b"asset".to_vec());
            assert_eq!(*amount, 2);
        }
        other => panic!("expected a swap, got {:?}", other),
    }
    match &resp.messages[1] {
        Instruction::Mint { token, recipient, amount } => {
            assert_eq!(token, &b"token".to_vec());
            assert_eq!(recipient, "alice");
            assert_eq!(*amount, MINT_AMOUNT);
        }
        other => panic!("expected a mint, got {:?}", other),
    }
}

#[test]
fn price_queries_follow_component_order() {
    let state = State {
        owner: b"owner".to_vec(),
        token: Vec::new(),
        components: vec![component(b"a1", b"p1", 3), component(b"a2", b"p2", 5), component(b"a3", b"p3", 7)],
    };
    let qs = price_queries(&state);
    assert_eq!(qs.len(), 3);
    assert_eq!(qs[0].pair, b"p1".to_vec());
    assert_eq!(qs[1].asset, b"a2".to_vec());
    assert_eq!(qs[2].amount, 7);
    let quotes = vec![quote(10, 1, 1), quote(20, 2, 2), quote(30, 3, 3)];
    let price = get_price(&state, &quotes).unwrap();
    assert_eq!(price.price, 72);
    assert_eq!(price.data.len(), 3);
    assert_eq!(price.data[0].pair, b"p1".to_vec());
    assert_eq!(price.data[2].asset, b"a3".to_vec());
    assert_eq!(price.data[1].price.return_amount, 20);
}

#[test]
fn failed_quote_fails_aggregation() {
    let state = State {
        owner: b"owner".to_vec(),
        token: Vec::new(),
        components: vec![component(b"a1", b"p1", 1), component(b"a2", b"p2", 1)],
    };
    let quotes = vec![quote(10, 0, 0), None];
    assert_eq!(get_price(&state, &quotes).unwrap_err(), ContractError::AggregationFailure);
}

#[test]
fn price_beyond_128_bits_overflows() {
    let state = State {
        owner: b"owner".to_vec(),
        token: Vec::new(),
        components: vec![component(b"a1", b"p1", 1), component(b"a2", b"p2", 1)],
    };
    let quotes = vec![quote(u128::MAX, 0, 0), quote(1, 0, 0)];
    assert_eq!(get_price(&state, &quotes).unwrap_err(), ContractError::Overflow);
}

#[test]
fn repeated_queries_agree() {
    let store = store_with(b"token", vec![component(b"a1", b"p1", 2)]);
    let quotes = vec![quote(5, 1, 1)];
    for _ in 0..2 {
        match query(&store, &QueryMsg::Price {}, &quotes).unwrap() {
            QueryResponse::Price(p) => {
                assert_eq!(p.price, 7);
                assert_eq!(p.data.len(), 1);
            }
            other => panic!("expected a price, got {:?}", other),
        }
        match query(&store, &QueryMsg::Config {}, &quotes).unwrap() {
            QueryResponse::Config(c) => assert_eq!(c.owner, b"owner".to_vec()),
            other => panic!("expected a config, got {:?}", other),
        }
    }
}

#[test]
fn query_before_init_is_not_initialized() {
    let store = ConfigStore::new();
    assert_eq!(query(&store, &QueryMsg::Config {}, &vec![]).unwrap_err(), ContractError::NotInitialized);
    assert_eq!(query(&store, &QueryMsg::Price {}, &vec![]).unwrap_err(), ContractError::NotInitialized);
}

#[test]
fn post_initialize_binds_once() {
    let mut store = store_with(b"", vec![component(b"a1", b"p1", 1)]);
    let first = try_post_initialize(&mut store, &b"token1".to_vec()).unwrap();
    assert!(first.messages.is_empty());
    assert_eq!(config_read(&store).unwrap().token, b"token1".to_vec());
    let second = try_post_initialize(&mut store, &b"token2".to_vec());
    assert_eq!(second.unwrap_err(), ContractError::Unauthorized);
    assert_eq!(config_read(&store).unwrap().token, b"token1".to_vec());
}

#[test]
fn post_initialize_before_init_fails() {
    let mut store = ConfigStore::new();
    let r = try_post_initialize(&mut store, &b"token".to_vec());
    assert_eq!(r.unwrap_err(), ContractError::NotInitialized);
}

#[test]
fn zero_price_mint_is_refused() {
    let store = store_with(b"token", vec![component(b"a1", b"p1", 1)]);
    let quotes = vec![quote(0, 0, 0)];
    let r = try_mint(&store, &"alice".to_string(), &deposit(100), &quotes);
    assert_eq!(r.unwrap_err(), ContractError::InvalidPrice);
}

#[test]
fn mint_gives_one_swap_per_component_then_mint() {
    let store = store_with(
        b"token",
        vec![component(b"a1", b"p1", 1), component(b"a2", b"p2", 2), component(b"a3", b"p3", 3)],
    );
    let quotes = vec![quote(10, 0, 0), quote(20, 0, 0), quote(30, 0, 0)];
    let resp = try_mint(&store, &"bob".to_string(), &deposit(125), &quotes).unwrap();
    assert_eq!(resp.messages.len(), 4);
    let expected: [(&[u8], u128); 3] = [(b"p1", 2), (b"p2", 4), (b"p3", 6)];
    for (i, (pair_name, amt)) in expected.iter().enumerate() {
        match &resp.messages[i] {
            Instruction::Swap { pair, amount, .. } => {
                assert_eq!(pair.as_slice(), *pair_name);
                assert_eq!(amount, amt);
            }
            other => panic!("expected a swap, got {:?}", other),
        }
    }
    assert!(matches!(resp.messages[3], Instruction::Mint { .. }));
}

#[test]
fn mint_truncates_multiplier() {
    let store = store_with(b"token", vec![component(b"a1", b"p1", 4)]);
    let quotes = vec![quote(10, 0, 0)];
    let resp = try_mint(&store, &"bob".to_string(), &deposit(29), &quotes).unwrap();
    match &resp.messages[0] {
        Instruction::Swap { amount, .. } => assert_eq!(*amount, 8),
        other => panic!("expected a swap, got {:?}", other),
    }
}

#[test]
fn mint_with_small_deposit_swaps_nothing() {
    let store = store_with(b"token", vec![component(b"a1", b"p1", 4)]);
    let quotes = vec![quote(10, 0, 0)];
    let resp = try_mint(&store, &"bob".to_string(), &deposit(9), &quotes).unwrap();
    match &resp.messages[0] {
        Instruction::Swap { amount, .. } => assert_eq!(*amount, 0),
        other => panic!("expected a swap, got {:?}", other),
    }
}

#[test]
fn mint_before_post_initialize_is_refused() {
    let store = store_with(b"", vec![component(b"a1", b"p1", 1)]);
    let quotes = vec![quote(10, 0, 0)];
    let r = try_mint(&store, &"alice".to_string(), &deposit(100), &quotes);
    assert_eq!(r.unwrap_err(), ContractError::Unauthorized);
}

#[test]
fn mint_before_init_is_not_initialized() {
    let store = ConfigStore::new();
    let r = try_mint(&store, &"alice".to_string(), &deposit(100), &vec![]);
    assert_eq!(r.unwrap_err(), ContractError::NotInitialized);
}

#[test]
fn mint_overflowing_amount_is_refused() {
    let store = store_with(b"token", vec![component(b"a1", b"p1", u128::MAX)]);
    let quotes = vec![quote(1, 0, 0)];
    let r = try_mint(&store, &"alice".to_string(), &deposit(2), &quotes);
    assert_eq!(r.unwrap_err(), ContractError::Overflow);
}

#[test]
fn mint_with_failed_quote_is_refused() {
    let store = store_with(b"token", vec![component(b"a1", b"p1", 1)]);
    let r = try_mint(&store, &"alice".to_string(), &deposit(100), &vec![None]);
    assert_eq!(r.unwrap_err(), ContractError::AggregationFailure);
}

#[test]
fn save_then_load_round_trip() {
    let mut store = ConfigStore::new();
    assert_eq!(config_read(&store).unwrap_err(), ContractError::NotInitialized);
    let state = State {
        owner: b"owner".to_vec(),
        token: b"tok".to_vec(),
        components: vec![component(b"a1", b"p1", 3), component(b"a2", b"p2", 9)],
    };
    config(&mut store, &state);
    let loaded = config_read(&store).unwrap();
    assert_eq!(loaded.owner, state.owner);
    assert_eq!(loaded.token, state.token);
    assert_eq!(loaded.components.len(), 2);
    for (a, b) in loaded.components.iter().zip(state.components.iter()) {
        assert_eq!(a.asset, b.asset);
        assert_eq!(a.pair, b.pair);
        assert_eq!(a.unit, b.unit);
    }
}

#[test]
fn init_saves_unbound_config_and_instantiates_token() {
    let mut store = ConfigStore::new();
    let resp = init(&mut store, b"owner".to_vec(), &"contract".to_string(), 42, vec![component(b"a1", b"p1", 1)])
        .unwrap();
    assert_eq!(resp.messages.len(), 1);
    match &resp.messages[0] {
        Instruction::InstantiateToken { code_id, name, symbol, decimals, minter } => {
            assert_eq!(*code_id, 42);
            assert_eq!(name, "wrapper token");
            assert_eq!(symbol, "uWRAP");
            assert_eq!(*decimals, TOKEN_DECIMALS);
            assert_eq!(minter, "contract");
        }
        other => panic!("expected an instantiation, got {:?}", other),
    }
    let state = config_read(&store).unwrap();
    assert_eq!(state.owner, b"owner".to_vec());
    assert!(state.token.is_empty());
    assert_eq!(state.components.len(), 1);
}

#[test]
fn init_with_empty_basket_is_refused() {
    let mut store = ConfigStore::new();
    let r = init(&mut store, b"owner".to_vec(), &"contract".to_string(), 1, vec![]);
    assert_eq!(r.unwrap_err(), ContractError::EmptyBasket);
    assert_eq!(config_read(&store).unwrap_err(), ContractError::NotInitialized);
}

#[test]
fn redeem_is_an_empty_response() {
    let store = store_with(b"token", vec![component(b"a1", b"p1", 1)]);
    let resp = try_redeem(&store, &deposit(5)).unwrap();
    assert!(resp.messages.is_empty());
}

#[test]
fn handle_routes_each_message() {
    let mut store = store_with(b"", vec![component(b"a1", b"p1", 1)]);
    let quotes = vec![quote(10, 0, 0)];
    let sender = "alice".to_string();
    let refused = handle(&mut store, &sender, &b"alice".to_vec(), &HandleMsg::Mint { asset: deposit(20) }, &quotes);
    assert_eq!(refused.unwrap_err(), ContractError::Unauthorized);
    let bound = handle(&mut store, &"tok".to_string(), &b"tok".to_vec(), &HandleMsg::PostInitialize {}, &vec![]);
    assert!(bound.unwrap().messages.is_empty());
    let minted = handle(&mut store, &sender, &b"alice".to_vec(), &HandleMsg::Mint { asset: deposit(20) }, &quotes)
        .unwrap();
    assert_eq!(minted.messages.len(), 2);
    let redeemed = handle(&mut store, &sender, &b"alice".to_vec(), &HandleMsg::Redeem { asset: deposit(1) }, &vec![]);
    assert!(redeemed.unwrap().messages.is_empty());
}
