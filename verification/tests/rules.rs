use agent_spend_policy::agent_spend_policy::{
    extract_from_operations, extract_transfer, AgentSpendPolicy,
};
use agent_spend_policy::agent_spend_policy_v2::{
    sum_gated_usdc_value, sum_operations, AgentSpendPolicyV2, GatedSum,
};
use agent_spend_policy::context::{read_integers, Operation};
use agent_spend_policy::keys::{
    current_day, DataKey, TtlExtension, PRICE_TTL_LEDGERS, SPEND_TTL_LEDGERS,
};
use agent_spend_policy::policy::{AuthStep, Invocation, SmartAccountPolicy};
use agent_spend_policy::spend::SpendLedger;
use agent_spend_policy::store::{PolicyError, Store};
use agent_spend_policy::strkey::Strkey;
use agent_spend_policy::valuation::{
    last_amount, read_amounts, router_quote, to_usdc_value, Valuation,
};
use soroban_sdk::auth::{
    Context, ContractContext, ContractExecutable, CreateContractHostFnContext,
    CreateContractWithConstructorHostFnContext,
};
use soroban_sdk::testutils::Address as _;
use soroban_sdk::{Address, BytesN, Env, IntoVal, Symbol, TryFromVal, Val};

type HostVec<T> = soroban_sdk::Vec<T>;
type HostMap<K, V> = soroban_sdk::Map<K, V>;

fn key(text: &str) -> Strkey {
    Strkey::new(text.to_string())
}

fn strkey(address: &Address) -> Strkey {
    Strkey::new(address.to_string().to_string())
}

fn by(auth: &str) -> Invocation {
    at(0, auth)
}

fn at(sequence: u32, auth: &str) -> Invocation {
    Invocation { contract: key("INSTANCE"), sequence, auth: key(auth) }
}

/// An instance with the limit 500, and the router "ROUTER".
fn instance() -> Store {
    let mut store = Store::new();
    AgentSpendPolicyV2::initialize(
        &mut store,
        &by("ADMIN"),
        key("ADMIN"),
        key("USDC"),
        key("ROUTER"),
        500,
    )
    .unwrap();
    store
}

/// An instance with the limit 500 and no router.
fn instance_without_router() -> Store {
    let mut store = instance();
    AgentSpendPolicyV2::set_router(&mut store, &by("ADMIN"), key("INSTANCE")).unwrap();
    store
}

fn call(token: &str, fn_name: &str, amount: i128) -> Operation {
    Operation::Call {
        contract: key(token),
        fn_name: fn_name.to_string(),
        args: vec![None, None, Some(amount)],
    }
}

fn transfer(token: &str, amount: i128) -> Operation {
    call(token, "transfer", amount)
}

fn approve(token: &str, amount: i128) -> Operation {
    call(token, "approve", amount)
}

fn spend_v1(store: &mut Store, wallet: &str, operation: Operation) -> bool {
    let step = AgentSpendPolicy::authorize(
        store,
        &by(wallet),
        &key(wallet),
        &vec![operation],
        &vec![],
    );
    matches!(step, Ok(AuthStep::Allowed(_)))
}

fn spend_v2(store: &mut Store, wallet: &str, operations: Vec<Operation>) -> bool {
    let step =
        AgentSpendPolicyV2::authorize(store, &by(wallet), &key(wallet), &operations, &vec![]);
    matches!(step, Ok(AuthStep::Allowed(_)))
}

fn total_of(result: Result<GatedSum, PolicyError>) -> (i128, usize) {
    match result {
        Ok(GatedSum::Total { total, used }) => (total, used),
        other => panic!("{:?}", other),
    }
}

// Administration

#[test]
fn initialize_sets_everything_once() {
    let mut store = instance();
    assert_eq!(store.admin, Some(key("ADMIN")));
    assert_eq!(store.usdc_addr, Some(key("USDC")));
    assert_eq!(store.router_addr, Some(key("ROUTER")));
    assert_eq!(AgentSpendPolicy::daily_limit(&store), 500);

    let again = AgentSpendPolicy::initialize(
        &mut store,
        &by("OTHER"),
        key("OTHER"),
        key("OTHER"),
        key("OTHER"),
        7,
    );
    assert_eq!(again, Err(PolicyError::AlreadyInitialized));
    assert_eq!(store.admin, Some(key("ADMIN")));
    assert_eq!(AgentSpendPolicy::daily_limit(&store), 500);
}

#[test]
fn initialize_needs_the_new_administrator() {
    let mut store = Store::new();
    let result = AgentSpendPolicy::initialize(
        &mut store,
        &by("OTHER"),
        key("ADMIN"),
        key("USDC"),
        key("ROUTER"),
        500,
    );
    assert_eq!(result, Err(PolicyError::Unauthorized));
    assert_eq!(store.admin, None);
    assert_eq!(store.daily_limit_usdc, None);
}

#[test]
fn only_the_administrator_changes_settings() {
    let env = Env::default();
    let mut store = instance();
    let other = by("OTHER");
    assert_eq!(AgentSpendPolicy::pause(&mut store, &other), Err(PolicyError::Unauthorized));
    assert_eq!(AgentSpendPolicy::unpause(&mut store, &other), Err(PolicyError::Unauthorized));
    assert_eq!(AgentSpendPolicy::set_limit(&mut store, &other, 1), Err(PolicyError::Unauthorized));
    assert_eq!(
        AgentSpendPolicy::set_router(&mut store, &other, key("X")),
        Err(PolicyError::Unauthorized)
    );
    assert_eq!(
        AgentSpendPolicy::set_price(&env, &mut store, &other, &key("XLM"), 1),
        Err(PolicyError::Unauthorized)
    );
    let tokens = HostVec::new(&env);
    let prices = HostVec::from_array(&env, [1i128]);
    assert_eq!(
        AgentSpendPolicy::set_prices(&env, &mut store, &other, &tokens, &prices),
        Err(PolicyError::Unauthorized)
    );
    assert!(!AgentSpendPolicy::is_paused(&store));
    assert_eq!(AgentSpendPolicy::daily_limit(&store), 500);
    assert_eq!(store.router_addr, Some(key("ROUTER")));
    assert_eq!(AgentSpendPolicy::get_price(&store, &key("XLM")), 0);
}

#[test]
fn a_new_instance_has_no_administrator() {
    let env = Env::default();
    let mut store = Store::new();
    assert_eq!(
        AgentSpendPolicyV2::set_limit(&mut store, &by("ADMIN"), 1),
        Err(PolicyError::NotInitialized)
    );
    assert_eq!(
        AgentSpendPolicyV2::set_price(&env, &mut store, &by("ADMIN"), &key("XLM"), 1),
        Err(PolicyError::NotInitialized)
    );
    assert_eq!(AgentSpendPolicyV2::daily_limit(&store), 0);
    assert!(!AgentSpendPolicyV2::is_paused(&store));
}

#[test]
fn settings_read_back() {
    let mut store = instance();
    AgentSpendPolicy::set_limit(&mut store, &by("ADMIN"), -3).unwrap();
    assert_eq!(AgentSpendPolicy::daily_limit(&store), -3);
    assert_eq!(AgentSpendPolicy::remaining(&store, 0, &key("WALLET")), 0);
    AgentSpendPolicy::set_router(&mut store, &by("ADMIN"), key("NEW")).unwrap();
    assert_eq!(store.router_addr, Some(key("NEW")));
    AgentSpendPolicy::pause(&mut store, &by("ADMIN")).unwrap();
    assert!(AgentSpendPolicy::is_paused(&store));
    AgentSpendPolicy::unpause(&mut store, &by("ADMIN")).unwrap();
    assert!(!AgentSpendPolicy::is_paused(&store));
}

#[test]
fn prices_read_back_and_extend_the_map() {
    let env = Env::default();
    let mut store = instance();
    let ttl =
        AgentSpendPolicy::set_price(&env, &mut store, &by("ADMIN"), &key("XLM"), 1_500_000)
            .unwrap();
    assert_eq!(
        ttl,
        TtlExtension {
            key: DataKey::PriceMap,
            threshold: PRICE_TTL_LEDGERS,
            extend_to: PRICE_TTL_LEDGERS,
        }
    );
    assert_eq!(PRICE_TTL_LEDGERS, 518_400);
    AgentSpendPolicy::set_price(&env, &mut store, &by("ADMIN"), &key("AQUA"), 50_000).unwrap();
    AgentSpendPolicy::set_price(&env, &mut store, &by("ADMIN"), &key("XLM"), 2_000_000).unwrap();
    assert_eq!(AgentSpendPolicy::get_price(&store, &key("XLM")), 2_000_000);
    assert_eq!(AgentSpendPolicy::get_price(&store, &key("AQUA")), 50_000);
    assert_eq!(store.cached_price(&key("AQUA")), Some(50_000));
    assert_eq!(store.cached_price(&key("BTC")), None);
    assert_eq!(AgentSpendPolicy::get_price(&store, &key("BTC")), 0);
}

#[test]
fn the_last_price_of_a_list_stays() {
    let env = Env::default();
    let mut store = instance();
    let xlm = Address::generate(&env);
    let aqua = Address::generate(&env);
    let tokens = HostVec::from_array(&env, [xlm.clone(), aqua.clone(), xlm.clone()]);
    let prices = HostVec::from_array(&env, [1i128, 2, 3]);
    let ttl =
        AgentSpendPolicyV2::set_prices(&env, &mut store, &by("ADMIN"), &tokens, &prices).unwrap();
    assert_eq!(ttl.key, DataKey::PriceMap);
    assert_eq!(AgentSpendPolicyV2::get_price(&store, &strkey(&xlm)), 3);
    assert_eq!(AgentSpendPolicyV2::get_price(&store, &strkey(&aqua)), 2);

    store
        .put_prices(&env, &key("ADMIN"), &vec![key("A"), key("B"), key("A")], &vec![7, 8, 9])
        .unwrap();
    assert_eq!(store.get_price(&key("A")), 9);
    assert_eq!(store.get_price(&key("B")), 8);
    assert_eq!(store.get_price(&strkey(&xlm)), 3);
}

#[test]
fn lists_of_prices_must_match() {
    let env = Env::default();
    let mut store = instance();
    let xlm = Address::generate(&env);
    let tokens = HostVec::from_array(&env, [xlm.clone()]);
    let prices = HostVec::from_array(&env, [1i128, 2]);
    assert_eq!(
        AgentSpendPolicyV2::set_prices(&env, &mut store, &by("ADMIN"), &tokens, &prices),
        Err(PolicyError::LengthMismatch)
    );
    assert_eq!(
        store.put_prices(&env, &key("ADMIN"), &vec![key("A")], &vec![]),
        Err(PolicyError::LengthMismatch)
    );
    assert_eq!(AgentSpendPolicyV2::get_price(&store, &strkey(&xlm)), 0);
}

#[test]
fn lists_of_prices_must_hold_addresses_and_amounts() {
    let env = Env::default();
    let mut store = instance();
    let xlm = Address::generate(&env);
    let tokens = HostVec::from_array(&env, [xlm.clone()]);
    let text: Val = 5u32.into_val(&env);
    let vals: HostVec<Val> = HostVec::from_array(&env, [text]);
    let no_prices: HostVec<i128> = HostVec::try_from_val(&env, &vals.to_val()).unwrap();
    let no_tokens: HostVec<Address> = HostVec::try_from_val(&env, &vals.to_val()).unwrap();
    let prices = HostVec::from_array(&env, [1i128]);
    assert_eq!(
        AgentSpendPolicyV2::set_prices(&env, &mut store, &by("ADMIN"), &tokens, &no_prices),
        Err(PolicyError::InvalidItem)
    );
    assert_eq!(
        AgentSpendPolicyV2::set_prices(&env, &mut store, &by("ADMIN"), &no_tokens, &prices),
        Err(PolicyError::InvalidItem)
    );
    assert!(store.price_map.is_none());
}

// Days and spend entries

#[test]
fn days_are_counted_in_ledgers() {
    assert_eq!(current_day(0), 0);
    assert_eq!(current_day(17_279), 0);
    assert_eq!(current_day(17_280), 1);
    assert_eq!(current_day(34_560), 2);
    assert_eq!(current_day(u32::MAX), 248_551);
}

#[test]
fn spend_entries_have_a_wallet_and_a_day() {
    let mut ledger = SpendLedger::new();
    assert_eq!(ledger.get(&key("A"), 0), None);
    ledger.set(&key("A"), 0, 5);
    ledger.set(&key("A"), 1, 6);
    ledger.set(&key("B"), 0, 7);
    ledger.set(&key("A"), 0, 8);
    assert_eq!(ledger.get(&key("A"), 0), Some(8));
    assert_eq!(ledger.get(&key("A"), 1), Some(6));
    assert_eq!(ledger.get(&key("B"), 0), Some(7));
    assert_eq!(ledger.get(&key("B"), 1), None);
}

#[test]
fn a_spend_is_committed_with_its_lifetime() {
    let mut store = instance();
    let step = AgentSpendPolicyV2::authorize(
        &mut store,
        &at(17_281, "WALLET"),
        &key("WALLET"),
        &vec![transfer("USDC", 120)],
        &vec![],
    );
    let commit = match step {
        Ok(AuthStep::Allowed(Some(commit))) => commit,
        other => panic!("{:?}", other),
    };
    assert_eq!(commit.key, DataKey::DailySpend(key("WALLET"), 1));
    assert_eq!(commit.spent, 120);
    assert_eq!(
        commit.ttl,
        TtlExtension {
            key: DataKey::DailySpend(key("WALLET"), 1),
            threshold: SPEND_TTL_LEDGERS,
            extend_to: SPEND_TTL_LEDGERS,
        }
    );
    assert_eq!(SPEND_TTL_LEDGERS, 34_560);
    assert_eq!(AgentSpendPolicyV2::spent_today(&store, 17_280, &key("WALLET")), 120);
    assert_eq!(AgentSpendPolicyV2::spent_today(&store, 17_279, &key("WALLET")), 0);
    assert_eq!(AgentSpendPolicyV2::spent_today(&store, 34_560, &key("WALLET")), 0);
    assert_eq!(AgentSpendPolicyV2::remaining(&store, 34_559, &key("WALLET")), 380);
    assert_eq!(AgentSpendPolicyV2::remaining(&store, 17_281, &key("OTHER")), 500);
}

#[test]
fn a_lowered_limit_stops_all_spending() {
    let mut store = instance();
    assert!(spend_v1(&mut store, "WALLET", transfer("USDC", 300)));
    AgentSpendPolicy::set_limit(&mut store, &by("ADMIN"), 200).unwrap();
    assert!(!spend_v1(&mut store, "WALLET", transfer("USDC", 1)));
    assert_eq!(AgentSpendPolicy::spent_today(&store, 0, &key("WALLET")), 300);
    assert_eq!(AgentSpendPolicy::remaining(&store, 0, &key("WALLET")), 0);
}

#[test]
fn only_the_own_entry_counts() {
    let mut alone = instance();
    let mut shared = instance();
    assert!(spend_v2(&mut shared, "OTHER", vec![transfer("USDC", 500)]));
    for (amount, allowed) in [(300, true), (201, false), (200, true), (1, false)] {
        assert_eq!(spend_v2(&mut alone, "WALLET", vec![transfer("USDC", amount)]), allowed);
        assert_eq!(spend_v2(&mut shared, "WALLET", vec![transfer("USDC", amount)]), allowed);
    }
    assert_eq!(AgentSpendPolicyV2::spent_today(&shared, 0, &key("OTHER")), 500);
}

#[test]
fn the_spend_is_what_was_authorized() {
    let mut first = instance();
    let mut second = instance();
    let mut worth = (0, 0);
    for i in 1..60 {
        if spend_v1(&mut first, "WALLET", transfer("USDC", i)) {
            worth.0 += i;
        }
        if spend_v2(&mut second, "WALLET", vec![transfer("USDC", i), approve("USDC", 3)]) {
            worth.1 += i + 3;
        }
        spend_v1(&mut first, "OTHER", transfer("USDC", 7));
        spend_v2(&mut second, "OTHER", vec![approve("USDC", 7)]);
    }
    assert_eq!(AgentSpendPolicy::spent_today(&first, 0, &key("WALLET")), worth.0);
    assert_eq!(AgentSpendPolicyV2::spent_today(&second, 0, &key("WALLET")), worth.1);
    assert_eq!(worth.0, 496);
}

#[test]
fn the_budget_returns_with_the_day() {
    let mut store = instance();
    let wallet = key("WALLET");
    for sequence in [0, 17_279] {
        let step = AgentSpendPolicyV2::authorize(
            &mut store,
            &at(sequence, "WALLET"),
            &wallet,
            &vec![transfer("USDC", 200)],
            &vec![],
        );
        assert!(matches!(step, Ok(AuthStep::Allowed(Some(_)))));
    }
    assert_eq!(AgentSpendPolicyV2::remaining(&store, 17_279, &wallet), 100);
    assert_eq!(AgentSpendPolicyV2::spent_today(&store, 17_280, &wallet), 0);
    assert_eq!(AgentSpendPolicyV2::remaining(&store, 17_280, &wallet), 500);
    assert_eq!(AgentSpendPolicyV2::remaining(&store, u32::MAX, &wallet), 500);
}

#[test]
fn a_run_of_requests_stays_within_the_limit() {
    let mut store = instance();
    for i in 1..200 {
        spend_v2(&mut store, "WALLET", vec![transfer("USDC", i % 17), approve("USDC", i % 5)]);
        assert!(AgentSpendPolicyV2::spent_today(&store, 0, &key("WALLET")) <= 500);
    }
    assert!(AgentSpendPolicyV2::spent_today(&store, 0, &key("WALLET")) > 480);
}

// Valuation

#[test]
fn usdc_is_worth_itself() {
    let store = instance();
    let value = to_usdc_value(&store, &key("INSTANCE"), &key("USDC"), 42, Some(7));
    assert!(matches!(value, Ok(Valuation::Known(42))));
}

#[test]
fn a_cached_price_comes_before_the_router() {
    let env = Env::default();
    let mut store = instance();
    AgentSpendPolicy::set_price(&env, &mut store, &by("ADMIN"), &key("XLM"), 1_500_000).unwrap();
    for (amount, expected) in [
        (1_000_000_000, 150_000_000),
        (10_000_000, 1_500_000),
        (7, 1),
        (6, 0),
        (-7, -1),
        (-6, 0),
        (0, 0),
    ] {
        let value = to_usdc_value(&store, &key("INSTANCE"), &key("XLM"), amount, Some(7));
        match value {
            Ok(Valuation::Known(value)) => assert_eq!(value, expected),
            other => panic!("{:?}", other),
        }
    }
}

#[test]
fn the_router_is_asked_last() {
    let store = instance();
    let request = match to_usdc_value(&store, &key("INSTANCE"), &key("BTC"), 9, None) {
        Ok(Valuation::Pending(request)) => request,
        other => panic!("{:?}", other),
    };
    assert_eq!(request.router, key("ROUTER"));
    assert_eq!(request.function, "router_get_amounts_out");
    assert_eq!(request.amount, 9);
    assert_eq!(request.path, vec![key("BTC"), key("USDC")]);
    let value = to_usdc_value(&store, &key("INSTANCE"), &key("BTC"), 9, Some(33));
    assert!(matches!(value, Ok(Valuation::Quoted(33))));
}

#[test]
fn without_a_router_an_unknown_token_has_no_value() {
    let mut store = instance_without_router();
    let value = to_usdc_value(&store, &key("INSTANCE"), &key("BTC"), 9, None);
    assert!(matches!(value, Ok(Valuation::Known(-1))));
    store.router_addr = None;
    let value = to_usdc_value(&store, &key("INSTANCE"), &key("BTC"), 9, Some(5));
    assert!(matches!(value, Ok(Valuation::Known(-1))));
}

#[test]
fn a_valuation_needs_usdc() {
    let value = to_usdc_value(&Store::new(), &key("INSTANCE"), &key("BTC"), 9, None);
    assert!(matches!(value, Err(PolicyError::NotInitialized)));
}

#[test]
fn a_valuation_that_does_not_fit_is_an_error() {
    let env = Env::default();
    let mut store = instance();
    AgentSpendPolicy::set_price(&env, &mut store, &by("ADMIN"), &key("XLM"), i128::MAX).unwrap();
    let value = to_usdc_value(&store, &key("INSTANCE"), &key("XLM"), 2, None);
    assert!(matches!(value, Err(PolicyError::Overflow)));
    let value = to_usdc_value(&store, &key("INSTANCE"), &key("XLM"), 1, None);
    match value {
        Ok(Valuation::Known(value)) => assert_eq!(value, i128::MAX / 10_000_000),
        other => panic!("{:?}", other),
    }
}

#[test]
fn a_price_concerns_its_token_alone() {
    let env = Env::default();
    let mut store = instance();
    AgentSpendPolicy::set_price(&env, &mut store, &by("ADMIN"), &key("XLM"), 1_500_000).unwrap();
    let value = to_usdc_value(&store, &key("INSTANCE"), &key("BTC"), 9, None);
    assert!(matches!(value, Ok(Valuation::Pending(_))));
}

#[test]
fn an_answer_of_the_router_ends_in_the_value() {
    let env = Env::default();
    assert_eq!(router_quote(&None), Ok(-1));
    assert_eq!(router_quote(&Some(HostVec::new(&env))), Ok(-1));
    let amounts = HostVec::from_array(&env, [9i128, 20, 33]);
    assert_eq!(read_amounts(&amounts), vec![Some(9), Some(20), Some(33)]);
    assert_eq!(router_quote(&Some(amounts)), Ok(33));
    let items: HostVec<Val> =
        HostVec::from_array(&env, [9i128.into_val(&env), 5u32.into_val(&env)]);
    let amounts: HostVec<i128> = HostVec::try_from_val(&env, &items.to_val()).unwrap();
    assert_eq!(read_amounts(&amounts), vec![Some(9), None]);
    assert_eq!(router_quote(&Some(amounts)), Err(PolicyError::InvalidQuote));
    assert_eq!(last_amount(&vec![None, Some(4)]), Ok(4));
    assert_eq!(last_amount(&vec![Some(4), None]), Err(PolicyError::InvalidQuote));
    assert_eq!(last_amount(&vec![]), Ok(-1));
}

// Reading contexts

fn transfer_context(env: &Env, token: &Address, amount: i128) -> Context {
    Context::Contract(ContractContext {
        contract: token.clone(),
        fn_name: Symbol::new(env, "transfer"),
        args: (Address::generate(env), Address::generate(env), amount).into_val(env),
    })
}

#[test]
fn contexts_are_read_in_order() {
    let env = Env::default();
    let token = Address::generate(&env);
    let salt = BytesN::from_array(&env, &[1; 32]);
    let executable = ContractExecutable::Wasm(BytesN::from_array(&env, &[2; 32]));
    let mut contexts: HostVec<Context> = HostVec::new(&env);
    contexts.push_back(Context::CreateContractHostFn(CreateContractHostFnContext {
        executable: executable.clone(),
        salt: salt.clone(),
    }));
    contexts.push_back(Context::Contract(ContractContext {
        contract: token.clone(),
        fn_name: Symbol::new(&env, "transfer_everything"),
        args: (Address::generate(&env), 5u32, i128::MIN, true).into_val(&env),
    }));
    contexts.push_back(Context::CreateContractWithCtorHostFn(
        CreateContractWithConstructorHostFnContext {
            executable,
            salt,
            constructor_args: HostVec::new(&env),
        },
    ));
    contexts.push_back(transfer_context(&env, &token, 7));

    // Neither the creations nor the other call is a transfer.
    assert_eq!(extract_transfer(&key("INSTANCE"), &contexts), Ok((strkey(&token), 7)));
    contexts.pop_back();
    assert_eq!(extract_transfer(&key("INSTANCE"), &contexts), Ok((key("INSTANCE"), 0)));

    let mut store = instance();
    store.usdc_addr = Some(strkey(&token));
    let sum = sum_gated_usdc_value(&store, &key("INSTANCE"), &contexts, &vec![]);
    assert_eq!(total_of(sum), (0, 0));
    contexts.push_back(transfer_context(&env, &token, 7));
    contexts.push_back(transfer_context(&env, &Address::generate(&env), 3));
    contexts.push_back(transfer_context(&env, &token, 11));
    let sum = sum_gated_usdc_value(&store, &key("INSTANCE"), &contexts, &vec![100]);
    assert_eq!(total_of(sum), (118, 1));
    let sum = sum_gated_usdc_value(&store, &key("INSTANCE"), &contexts, &vec![]);
    assert!(matches!(sum, Ok(GatedSum::Pending(_))));
}

#[test]
fn arguments_are_read_as_amounts() {
    let env = Env::default();
    let args: HostVec<Val> =
        (1i128, 1u32, i128::MAX, -1i128, Symbol::new(&env, "x")).into_val(&env);
    assert_eq!(read_integers(&args), vec![Some(1), None, Some(i128::MAX), Some(-1), None]);
    assert_eq!(read_integers(&HostVec::new(&env)), vec![]);
}

/// A vector of one transfer and an item that is no context.
fn contexts_with_stranger(env: &Env, usdc: &Address, stranger_first: bool) -> HostVec<Context> {
    let context: Val = transfer_context(env, usdc, 5).into_val(env);
    let stranger: Val = 5u32.into_val(env);
    let items: HostVec<Val> = if stranger_first {
        HostVec::from_array(env, [stranger, context])
    } else {
        HostVec::from_array(env, [context, stranger])
    };
    HostVec::try_from_val(env, &items.to_val()).unwrap()
}

#[test]
fn an_item_that_is_no_context_is_an_error_once_reached() {
    let env = Env::default();
    let usdc = Address::generate(&env);
    let mut store = instance();
    store.usdc_addr = Some(strkey(&usdc));
    let wallet = key("WALLET");
    let late = contexts_with_stranger(&env, &usdc, false);
    let early = contexts_with_stranger(&env, &usdc, true);

    let step =
        AgentSpendPolicyV2::is_authorized(&mut store, &by("WALLET"), &wallet, &late, &vec![]);
    assert!(matches!(step, Err(PolicyError::InvalidContext)));
    let step = AgentSpendPolicy::is_authorized(&mut store, &by("WALLET"), &wallet, &early, &vec![]);
    assert!(matches!(step, Err(PolicyError::InvalidContext)));
    assert_eq!(AgentSpendPolicy::spent_today(&store, 0, &wallet), 0);

    // The policy on transfers stops at the first transfer.
    let step = AgentSpendPolicy::is_authorized(&mut store, &by("WALLET"), &wallet, &late, &vec![]);
    assert!(matches!(step, Ok(AuthStep::Allowed(Some(_)))));
    assert_eq!(AgentSpendPolicy::spent_today(&store, 0, &wallet), 5);

    // A paused policy does not read the contexts.
    AgentSpendPolicy::pause(&mut store, &by("ADMIN")).unwrap();
    let step = AgentSpendPolicy::is_authorized(&mut store, &by("WALLET"), &wallet, &early, &vec![]);
    assert!(matches!(step, Ok(AuthStep::Denied)));
}

/// One context of the name and the structure given.
fn case(env: &Env, name: &str, fields: Val) -> Val {
    let parts: HostVec<Val> = (Symbol::new(env, name), fields).into_val(env);
    parts.to_val()
}

fn structure(env: &Env, fields: &[(&str, Val)]) -> Val {
    let mut map: HostMap<Val, Val> = HostMap::new(env);
    for (name, value) in fields {
        map.set(Symbol::new(env, name).to_val(), *value);
    }
    map.to_val()
}

fn contexts_of(env: &Env, items: &[Val]) -> HostVec<Context> {
    let vals: HostVec<Val> = HostVec::from_slice(env, items);
    HostVec::try_from_val(env, &vals.to_val()).unwrap()
}

/// A call, field by field, and one field that no call has.
fn call_fields(env: &Env, token: &Address, amount: i128) -> Vec<(&'static str, Val)> {
    let args: HostVec<Val> = (1u32, 2u32, amount).into_val(env);
    vec![
        ("args", args.to_val()),
        ("contract", token.to_val()),
        ("fn_name", Symbol::new(env, "transfer").to_val()),
        ("note", 1u32.into_val(env)),
    ]
}

#[test]
fn a_context_is_read_by_the_names_of_its_fields() {
    let env = Env::default();
    let token = Address::generate(&env);
    let fields = call_fields(&env, &token, 5);
    let item = case(&env, "Contract", structure(&env, &fields));
    let transfer = extract_transfer(&key("INSTANCE"), &contexts_of(&env, &[item]));
    assert_eq!(transfer, Ok((strkey(&token), 5)));

    for missing in 0..3 {
        let mut fields = call_fields(&env, &token, 5);
        fields.remove(missing);
        let item = case(&env, "Contract", structure(&env, &fields));
        let transfer = extract_transfer(&key("INSTANCE"), &contexts_of(&env, &[item]));
        assert_eq!(transfer, Err(PolicyError::InvalidContext));
    }
    for wrong in 0..3 {
        let mut fields = call_fields(&env, &token, 5);
        fields[wrong].1 = 1u32.into_val(&env);
        let item = case(&env, "Contract", structure(&env, &fields));
        let transfer = extract_transfer(&key("INSTANCE"), &contexts_of(&env, &[item]));
        assert_eq!(transfer, Err(PolicyError::InvalidContext));
    }
}

/// Items that are no contexts, some of which the host would not let a contract convert.
fn strangers(env: &Env) -> Vec<Val> {
    let token = Address::generate(env);
    let call = structure(env, &call_fields(env, &token, 5));
    let mut with_number: HostMap<Val, Val> = HostMap::new(env);
    for (name, value) in call_fields(env, &token, 5) {
        with_number.set(Symbol::new(env, name).to_val(), value);
    }
    with_number.set(1u32.into_val(env), 1u32.into_val(env));
    let three: HostVec<Val> = (Symbol::new(env, "Contract"), call, 1u32).into_val(env);
    let one: HostVec<Val> = (Symbol::new(env, "Contract"),).into_val(env);
    let unnamed: HostVec<Val> = (1u32, call).into_val(env);
    let empty: HostVec<Val> = HostVec::new(env);
    let salt = BytesN::from_array(env, &[1; 32]).to_val();
    let short = BytesN::from_array(env, &[1; 31]).to_val();
    let wasm = case(env, "Wasm", salt);
    vec![
        5u32.into_val(env),
        empty.to_val(),
        one.to_val(),
        three.to_val(),
        unnamed.to_val(),
        case(env, "Unknown", call),
        case(env, "Contract", 5u32.into_val(env)),
        case(env, "Contract", with_number.to_val()),
        case(env, "CreateContractHostFn", call),
        case(env, "CreateContractHostFn", structure(env, &[("salt", salt)])),
        case(env, "CreateContractHostFn", structure(env, &[("executable", wasm)])),
        case(
            env,
            "CreateContractHostFn",
            structure(env, &[("executable", wasm), ("salt", short)]),
        ),
        case(
            env,
            "CreateContractHostFn",
            structure(env, &[("executable", case(env, "Unknown", salt)), ("salt", salt)]),
        ),
        case(
            env,
            "CreateContractHostFn",
            structure(env, &[("executable", case(env, "Wasm", short)), ("salt", salt)]),
        ),
        case(
            env,
            "CreateContractHostFn",
            structure(env, &[("executable", case(env, "ExternalRef", salt)), ("salt", salt)]),
        ),
        case(
            env,
            "CreateContractWithCtorHostFn",
            structure(env, &[("executable", wasm), ("salt", salt)]),
        ),
    ]
}

#[test]
fn an_item_that_is_no_context_is_invalid_whatever_its_form() {
    let env = Env::default();
    let mut store = instance();
    let wallet = key("WALLET");
    let transfer: Val =
        transfer_context(&env, &Address::generate(&env), 5).into_val(&env);
    for stranger in strangers(&env) {
        let contexts = contexts_of(&env, &[stranger, transfer]);
        let step =
            AgentSpendPolicy::is_authorized(&mut store, &by("WALLET"), &wallet, &contexts, &vec![]);
        assert!(matches!(step, Err(PolicyError::InvalidContext)));
        let step = AgentSpendPolicyV2::is_authorized(
            &mut store,
            &by("WALLET"),
            &wallet,
            &contexts,
            &vec![],
        );
        assert!(matches!(step, Err(PolicyError::InvalidContext)));
    }
}

#[test]
fn a_creation_is_read_with_either_kind_of_code() {
    let env = Env::default();
    let owner = Address::generate(&env).to_val();
    let tag = soroban_sdk::String::from_str(&env, "tag").to_val();
    let salt = BytesN::from_array(&env, &[1; 32]).to_val();
    let no_args: HostVec<Val> = HostVec::new(&env);
    let code = structure(&env, &[("owner", owner), ("tag", tag)]);
    for executable in [case(&env, "Wasm", salt), case(&env, "ExternalRef", code)] {
        let plain = structure(&env, &[("executable", executable), ("salt", salt)]);
        let with_args = structure(
            &env,
            &[
                ("constructor_args", no_args.to_val()),
                ("executable", executable),
                ("salt", salt),
            ],
        );
        let contexts = contexts_of(
            &env,
            &[
                case(&env, "CreateContractHostFn", plain),
                case(&env, "CreateContractWithCtorHostFn", with_args),
            ],
        );
        let transfer = extract_transfer(&key("INSTANCE"), &contexts);
        assert_eq!(transfer, Ok((key("INSTANCE"), 0)));
        // The host's own reading agrees.
        assert_eq!(contexts.iter().count(), 2);
    }
    for code in [
        structure(&env, &[("owner", owner)]),
        structure(&env, &[("tag", tag)]),
        structure(&env, &[("owner", tag), ("tag", tag)]),
        structure(&env, &[("owner", owner), ("tag", salt)]),
    ] {
        let executable = case(&env, "ExternalRef", code);
        let plain = structure(&env, &[("executable", executable), ("salt", salt)]);
        let contexts = contexts_of(&env, &[case(&env, "CreateContractHostFn", plain)]);
        let transfer = extract_transfer(&key("INSTANCE"), &contexts);
        assert_eq!(transfer, Err(PolicyError::InvalidContext));
    }
}

#[test]
fn contexts_behind_the_deciding_one_are_not_read() {
    let env = Env::default();
    let usdc = Address::generate(&env);
    let mut store = instance_without_router();
    store.usdc_addr = Some(strkey(&usdc));
    let transfer: Val = transfer_context(&env, &usdc, 5).into_val(&env);
    let unpriced: Val = transfer_context(&env, &Address::generate(&env), 5).into_val(&env);
    let unknown = case(&env, "Unknown", 5u32.into_val(&env));

    let contexts = contexts_of(&env, &[transfer, unknown]);
    assert_eq!(extract_transfer(&key("INSTANCE"), &contexts), Ok((strkey(&usdc), 5)));

    let contexts = contexts_of(&env, &[unpriced, unknown]);
    let sum = sum_gated_usdc_value(&store, &key("INSTANCE"), &contexts, &vec![]);
    assert!(matches!(sum, Ok(GatedSum::Rejected)));
}

// Requests

#[test]
fn decisions_follow_from_what_was_read() {
    let mut store = instance();
    let wallet = key("WALLET");
    let by_wallet = by("WALLET");
    let transfer = Ok((key("USDC"), 30));
    let step =
        AgentSpendPolicy::authorize_transfer(&mut store, &by_wallet, &wallet, transfer, &vec![]);
    assert!(matches!(step, Ok(AuthStep::Allowed(Some(_)))));
    let transfer = Err(PolicyError::InvalidContext);
    let step =
        AgentSpendPolicy::authorize_transfer(&mut store, &by_wallet, &wallet, transfer, &vec![]);
    assert!(matches!(step, Err(PolicyError::InvalidContext)));
    for (total, allowed) in [(470, true), (1, false), (0, true), (-1, false)] {
        let sum = Ok(GatedSum::Total { total, used: 0 });
        let step = AgentSpendPolicyV2::authorize_sum(&mut store, &by_wallet, &wallet, sum);
        assert_eq!(matches!(step, Ok(AuthStep::Allowed(_))), allowed);
    }
    assert_eq!(AgentSpendPolicyV2::spent_today(&store, 0, &wallet), 500);
    let sum = Ok(GatedSum::Rejected);
    let step = AgentSpendPolicyV2::authorize_sum(&mut store, &by_wallet, &wallet, sum);
    assert!(matches!(step, Ok(AuthStep::Denied)));
}

#[test]
fn a_request_needs_its_source() {
    let env = Env::default();
    let mut store = instance();
    let contexts: HostVec<Context> = HostVec::new(&env);
    let source = key("WALLET");
    let step =
        AgentSpendPolicy::is_authorized(&mut store, &by("OTHER"), &source, &contexts, &vec![]);
    assert!(matches!(step, Err(PolicyError::Unauthorized)));
    let step =
        AgentSpendPolicyV2::is_authorized(&mut store, &by("OTHER"), &source, &contexts, &vec![]);
    assert!(matches!(step, Err(PolicyError::Unauthorized)));
    assert_eq!(AgentSpendPolicy::on_add(&by("OTHER"), &source), Err(PolicyError::Unauthorized));
    assert_eq!(AgentSpendPolicy::on_add(&by("WALLET"), &source), Ok(()));
    assert_eq!(AgentSpendPolicy::on_revoke(&by("OTHER"), &source), Err(PolicyError::Unauthorized));
    assert_eq!(AgentSpendPolicy::on_revoke(&by("WALLET"), &source), Ok(()));
    assert_eq!(AgentSpendPolicyV2::on_add(&by("OTHER"), &source), Err(PolicyError::Unauthorized));
    assert_eq!(AgentSpendPolicyV2::on_add(&by("WALLET"), &source), Ok(()));
    assert_eq!(AgentSpendPolicyV2::on_revoke(&by("WALLET"), &source), Ok(()));
}

#[test]
fn the_first_transfer_is_extracted() {
    let instance = key("INSTANCE");
    let short = Operation::Call {
        contract: key("SHORT"),
        fn_name: "transfer".to_string(),
        args: vec![None, Some(4)],
    };
    let no_amount = Operation::Call {
        contract: key("OTHER"),
        fn_name: "transfer".to_string(),
        args: vec![Some(1), Some(2), None],
    };
    let operations = vec![
        Operation::CreateContract,
        approve("A", 1),
        short,
        no_amount,
        transfer("B", 2),
        transfer("C", 3),
    ];
    assert_eq!(extract_from_operations(&instance, &operations), Ok((key("B"), 2)));
    let none = vec![approve("A", 1)];
    assert_eq!(extract_from_operations(&instance, &none), Ok((key("INSTANCE"), 0)));
    assert_eq!(extract_from_operations(&instance, &vec![]), Ok((key("INSTANCE"), 0)));
    assert_eq!(
        extract_from_operations(&instance, &vec![Operation::Invalid, transfer("B", 2)]),
        Err(PolicyError::InvalidContext)
    );
}

#[test]
fn only_the_first_transfer_counts_in_the_first_policy() {
    let mut store = instance();
    let operations = vec![transfer("USDC", 100), transfer("USDC", 450), approve("USDC", 450)];
    let step = AgentSpendPolicy::authorize(
        &mut store,
        &by("WALLET"),
        &key("WALLET"),
        &operations,
        &vec![],
    );
    assert!(matches!(step, Ok(AuthStep::Allowed(Some(_)))));
    assert_eq!(AgentSpendPolicy::spent_today(&store, 0, &key("WALLET")), 100);
}

#[test]
fn every_gated_call_counts_in_the_second_policy() {
    let env = Env::default();
    let mut store = instance();
    AgentSpendPolicyV2::set_price(&env, &mut store, &by("ADMIN"), &key("XLM"), 5_000_000).unwrap();
    let operations = vec![
        transfer("USDC", 100),
        Operation::CreateContractWithConstructor,
        approve("XLM", 90),
        call("XLM", "swap", 1_000),
        transfer("BTC", 3),
        approve("USDC", 0),
        approve("ETH", 4),
    ];
    let instance = key("INSTANCE");
    let request = match sum_operations(&store, &instance, &operations, &vec![]) {
        Ok(GatedSum::Pending(request)) => request,
        other => panic!("{:?}", other),
    };
    assert_eq!(request.path, vec![key("BTC"), key("USDC")]);
    let request = match sum_operations(&store, &instance, &operations, &vec![30]) {
        Ok(GatedSum::Pending(request)) => request,
        other => panic!("{:?}", other),
    };
    assert_eq!(request.path, vec![key("ETH"), key("USDC")]);
    assert_eq!(request.amount, 4);
    let sum = sum_operations(&store, &instance, &operations, &vec![30, 7]);
    assert_eq!(total_of(sum), (100 + 45 + 30 + 7, 2));
    let sum = sum_operations(&store, &instance, &operations, &vec![30, 7, 1_000]);
    assert_eq!(total_of(sum), (182, 2));
    let sum = sum_operations(&store, &instance, &operations, &vec![30, -1]);
    assert!(matches!(sum, Ok(GatedSum::Rejected)));
    let sum = sum_operations(&store, &instance, &operations, &vec![0]);
    assert!(matches!(sum, Ok(GatedSum::Rejected)));
}

#[test]
fn batches_add_up() {
    let store = instance();
    let instance = key("INSTANCE");
    let first = sum_operations(
        &store,
        &instance,
        &vec![transfer("USDC", 10), transfer("BTC", 1)],
        &vec![20],
    );
    let second = sum_operations(
        &store,
        &instance,
        &vec![approve("ETH", 1), approve("USDC", 3)],
        &vec![40],
    );
    let both = sum_operations(
        &store,
        &instance,
        &vec![transfer("USDC", 10), transfer("BTC", 1), approve("ETH", 1), approve("USDC", 3)],
        &vec![20, 40],
    );
    assert_eq!(total_of(first), (30, 1));
    assert_eq!(total_of(second), (43, 1));
    assert_eq!(total_of(both), (73, 2));
}

#[test]
fn quoted_requests_are_decided_with_the_answers() {
    let mut store = instance();
    let wallet = key("WALLET");
    for (quote, allowed, spent) in [(200, true, 200), (301, false, 200), (300, true, 500)] {
        let operations = vec![transfer("BTC", 2)];
        let step =
            AgentSpendPolicy::authorize(&mut store, &by("WALLET"), &wallet, &operations, &vec![]);
        assert!(matches!(step, Ok(AuthStep::Pending(_))));
        let quotes = vec![quote];
        let step =
            AgentSpendPolicy::authorize(&mut store, &by("WALLET"), &wallet, &operations, &quotes);
        assert_eq!(matches!(step, Ok(AuthStep::Allowed(Some(_)))), allowed);
        assert_eq!(AgentSpendPolicy::spent_today(&store, 0, &wallet), spent);
    }
    let step = AgentSpendPolicyV2::authorize(
        &mut store,
        &by("OTHER"),
        &key("OTHER"),
        &vec![transfer("BTC", 2), approve("ETH", 2)],
        &vec![30, 40],
    );
    assert!(matches!(step, Ok(AuthStep::Allowed(Some(_)))));
    assert_eq!(AgentSpendPolicyV2::spent_today(&store, 0, &key("OTHER")), 70);
}

#[test]
fn negative_amounts_are_denied() {
    let mut store = instance();
    assert!(!spend_v1(&mut store, "WALLET", transfer("USDC", -5)));
    assert!(!spend_v2(&mut store, "WALLET", vec![transfer("USDC", 9), transfer("USDC", -5)]));
    assert_eq!(AgentSpendPolicy::spent_today(&store, 0, &key("WALLET")), 0);
}

#[test]
fn one_unpriced_call_refuses_the_request() {
    let mut store = instance_without_router();
    assert!(!spend_v2(&mut store, "WALLET", vec![transfer("USDC", 9), approve("BTC", 1)]));
    assert!(!spend_v1(&mut store, "WALLET", transfer("BTC", 1)));
    assert!(spend_v2(&mut store, "WALLET", vec![transfer("USDC", 9), approve("BTC", 0)]));
    assert_eq!(AgentSpendPolicy::spent_today(&store, 0, &key("WALLET")), 9);
}

#[test]
fn an_approval_counts_as_a_transfer() {
    let mut a = instance();
    let mut b = instance();
    assert!(spend_v2(&mut a, "WALLET", vec![transfer("USDC", 9), approve("USDC", 4)]));
    assert!(spend_v2(&mut b, "WALLET", vec![approve("USDC", 9), transfer("USDC", 4)]));
    assert_eq!(AgentSpendPolicyV2::spent_today(&a, 0, &key("WALLET")), 13);
    assert_eq!(AgentSpendPolicyV2::spent_today(&b, 0, &key("WALLET")), 13);
}

#[test]
fn both_policies_agree_on_a_single_transfer() {
    for amount in [-1, 0, 1, 499, 500, 501] {
        let mut a = instance();
        let mut b = instance();
        let first = spend_v1(&mut a, "WALLET", transfer("USDC", amount));
        let second = spend_v2(&mut b, "WALLET", vec![transfer("USDC", amount)]);
        assert_eq!(first, second);
        assert_eq!(first, 0 <= amount && amount <= 500);
        assert_eq!(
            AgentSpendPolicy::spent_today(&a, 0, &key("WALLET")),
            AgentSpendPolicyV2::spent_today(&b, 0, &key("WALLET"))
        );
    }
}

#[test]
fn amounts_that_do_not_fit_are_errors() {
    let mut store = instance();
    AgentSpendPolicyV2::set_limit(&mut store, &by("ADMIN"), i128::MAX).unwrap();
    let wallet = key("WALLET");
    let step = AgentSpendPolicyV2::authorize(
        &mut store,
        &by("WALLET"),
        &wallet,
        &vec![transfer("USDC", i128::MAX), transfer("USDC", 1)],
        &vec![],
    );
    assert!(matches!(step, Err(PolicyError::Overflow)));
    assert!(spend_v2(&mut store, "WALLET", vec![transfer("USDC", i128::MAX)]));
    let step = AgentSpendPolicy::authorize(
        &mut store,
        &by("WALLET"),
        &wallet,
        &vec![transfer("USDC", 1)],
        &vec![],
    );
    assert!(matches!(step, Err(PolicyError::Overflow)));
    assert_eq!(AgentSpendPolicyV2::spent_today(&store, 0, &wallet), i128::MAX);
}

#[test]
fn an_instance_without_usdc_decides_nothing_gated() {
    let mut store = Store::new();
    let wallet = key("WALLET");
    let step = AgentSpendPolicyV2::authorize(
        &mut store,
        &by("WALLET"),
        &wallet,
        &vec![transfer("USDC", 1)],
        &vec![],
    );
    assert!(matches!(step, Err(PolicyError::NotInitialized)));
    assert!(spend_v2(&mut store, "WALLET", vec![call("USDC", "swap", 1)]));
}

#[test]
fn a_pause_leaves_no_trace() {
    let mut paused = instance();
    let mut never = instance();
    assert!(spend_v2(&mut paused, "WALLET", vec![transfer("USDC", 100)]));
    assert!(spend_v2(&mut never, "WALLET", vec![transfer("USDC", 100)]));
    AgentSpendPolicyV2::pause(&mut paused, &by("ADMIN")).unwrap();
    assert!(!spend_v2(&mut paused, "WALLET", vec![transfer("USDC", 1)]));
    assert!(!spend_v2(&mut paused, "WALLET", vec![]));
    AgentSpendPolicyV2::unpause(&mut paused, &by("ADMIN")).unwrap();
    assert!(spend_v2(&mut paused, "WALLET", vec![transfer("USDC", 400)]));
    assert!(spend_v2(&mut never, "WALLET", vec![transfer("USDC", 400)]));
    assert_eq!(AgentSpendPolicyV2::spent_today(&paused, 0, &key("WALLET")), 500);
    assert_eq!(AgentSpendPolicyV2::spent_today(&never, 0, &key("WALLET")), 500);
}
