use agent_spend_policy::agent_spend_policy_v2::AgentSpendPolicyV2;
use agent_spend_policy::policy::{AuthStep, Invocation, SmartAccountPolicy};
use agent_spend_policy::store::{PolicyError, Store};
use agent_spend_policy::strkey::Strkey;
use soroban_sdk::auth::{Context, ContractContext};
use soroban_sdk::testutils::{Address as _, Ledger as _};
use soroban_sdk::{Address, Env, IntoVal, Symbol, Vec};
use std::cell::RefCell;

/// A policy instance and the storage that its calls work on.
struct Client {
    env: Env,
    contract: Address,
    admin: RefCell<Option<Address>>,
    store: RefCell<Store>,
}

fn strkey(address: &Address) -> Strkey {
    Strkey::new(address.to_string().to_string())
}

impl Client {
    fn new(env: &Env, contract: &Address) -> Client {
        Client {
            env: env.clone(),
            contract: contract.clone(),
            admin: RefCell::new(None),
            store: RefCell::new(Store::new()),
        }
    }

    fn invocation(&self, auth: &Address) -> Invocation {
        Invocation {
            contract: strkey(&self.contract),
            sequence: self.env.ledger().sequence(),
            auth: strkey(auth),
        }
    }

    fn as_admin(&self) -> Invocation {
        let admin = self.admin.borrow().clone().unwrap();
        self.invocation(&admin)
    }

    fn initialize(&self, admin: &Address, usdc: &Address, router: &Address, limit: &i128) {
        let result = AgentSpendPolicyV2::initialize(
            &mut self.store.borrow_mut(),
            &self.invocation(admin),
            strkey(admin),
            strkey(usdc),
            strkey(router),
            *limit,
        );
        match result {
            Ok(()) => *self.admin.borrow_mut() = Some(admin.clone()),
            Err(PolicyError::AlreadyInitialized) => panic!("already initialized"),
            Err(error) => panic!("{:?}", error),
        }
    }

    fn set_price(&self, token: &Address, usdc_per_unit: &i128) {
        let invocation = self.as_admin();
        let store = &mut self.store.borrow_mut();
        AgentSpendPolicyV2::set_price(&self.env, store, &invocation, &strkey(token), *usdc_per_unit)
            .unwrap();
    }

    fn set_prices(&self, tokens: &Vec<Address>, prices: &Vec<i128>) {
        let invocation = self.as_admin();
        let store = &mut self.store.borrow_mut();
        AgentSpendPolicyV2::set_prices(&self.env, store, &invocation, tokens, prices).unwrap();
    }

    fn pause(&self) {
        AgentSpendPolicyV2::pause(&mut self.store.borrow_mut(), &self.as_admin()).unwrap();
    }

    fn unpause(&self) {
        AgentSpendPolicyV2::unpause(&mut self.store.borrow_mut(), &self.as_admin()).unwrap();
    }

    fn is_paused(&self) -> bool {
        AgentSpendPolicyV2::is_paused(&self.store.borrow())
    }

    fn set_limit(&self, new_limit: &i128) {
        AgentSpendPolicyV2::set_limit(&mut self.store.borrow_mut(), &self.as_admin(), *new_limit)
            .unwrap();
    }

    fn spent_today(&self, signer: &Address) -> i128 {
        let sequence = self.env.ledger().sequence();
        AgentSpendPolicyV2::spent_today(&self.store.borrow(), sequence, &strkey(signer))
    }

    fn remaining(&self, signer: &Address) -> i128 {
        let sequence = self.env.ledger().sequence();
        AgentSpendPolicyV2::remaining(&self.store.borrow(), sequence, &strkey(signer))
    }

    fn daily_limit(&self) -> i128 {
        AgentSpendPolicyV2::daily_limit(&self.store.borrow())
    }

    fn get_price(&self, token: &Address) -> i128 {
        AgentSpendPolicyV2::get_price(&self.store.borrow(), &strkey(token))
    }

    fn is_authorized(&self, source: &Address, contexts: &Vec<Context>) -> bool {
        let step = AgentSpendPolicyV2::is_authorized(
            &mut self.store.borrow_mut(),
            &self.invocation(source),
            &strkey(source),
            contexts,
            &std::vec::Vec::new(),
        );
        match step.unwrap() {
            AuthStep::Allowed(_) => true,
            AuthStep::Denied => false,
            AuthStep::Pending(_) => panic!("there is no router to ask"),
        }
    }
}

fn setup_policy(env: &Env, daily_limit: i128) -> (Address, Client, Address) {
    let contract_id = Address::generate(env);
    let client = Client::new(env, &contract_id);

    let admin = Address::generate(env);
    let usdc = Address::generate(env);

    // The instance's own address stands for no router.
    client.initialize(&admin, &usdc, &contract_id, &daily_limit);

    (usdc, client, admin)
}

fn make_transfer_ctx(env: &Env, token: &Address, amount: i128) -> Context {
    Context::Contract(ContractContext {
        contract: token.clone(),
        fn_name: Symbol::new(env, "transfer"),
        args: (
            Address::generate(env), // from
            Address::generate(env), // to
            amount,
        )
            .into_val(env),
    })
}

fn make_approve_ctx(env: &Env, token: &Address, amount: i128) -> Context {
    Context::Contract(ContractContext {
        contract: token.clone(),
        fn_name: Symbol::new(env, "approve"),
        args: (
            Address::generate(env), // from
            Address::generate(env), // spender
            amount,
            1000u32,                // expiration_ledger
        )
            .into_val(env),
    })
}

fn make_contexts(env: &Env, ctx: Context) -> Vec<Context> {
    let mut v = Vec::new(env);
    v.push_back(ctx);
    v
}

#[test]
fn test_approve_counted_against_limit() {
    let env = Env::default();
    let (usdc, client, _admin) = setup_policy(&env, 500_0000000); // $500

    let signer = Address::generate(&env);

    // Approve $200 USDC -> should count against limit
    let ctx = make_approve_ctx(&env, &usdc, 200_0000000);
    assert!(client.is_authorized(&signer, &make_contexts(&env, ctx)));
    assert_eq!(client.spent_today(&signer), 200_0000000);
    assert_eq!(client.remaining(&signer), 300_0000000);
}

#[test]
fn test_approve_over_limit_rejected() {
    let env = Env::default();
    let (usdc, client, _admin) = setup_policy(&env, 500_0000000);

    let signer = Address::generate(&env);

    // Approve $600 USDC -> over limit -> rejected
    let ctx = make_approve_ctx(&env, &usdc, 600_0000000);
    assert!(!client.is_authorized(&signer, &make_contexts(&env, ctx)));
    assert_eq!(client.spent_today(&signer), 0); // nothing recorded
}

#[test]
fn test_approve_cumulative_with_transfer() {
    let env = Env::default();
    let (usdc, client, _admin) = setup_policy(&env, 500_0000000);

    let signer = Address::generate(&env);

    // Transfer $200
    let ctx1 = make_transfer_ctx(&env, &usdc, 200_0000000);
    assert!(client.is_authorized(&signer, &make_contexts(&env, ctx1)));
    assert_eq!(client.spent_today(&signer), 200_0000000);

    // Approve $200 -> cumulative $400, within limit
    let ctx2 = make_approve_ctx(&env, &usdc, 200_0000000);
    assert!(client.is_authorized(&signer, &make_contexts(&env, ctx2)));
    assert_eq!(client.spent_today(&signer), 400_0000000);

    // Approve $200 more -> $600 > $500 -> rejected
    let ctx3 = make_approve_ctx(&env, &usdc, 200_0000000);
    assert!(!client.is_authorized(&signer, &make_contexts(&env, ctx3)));
    assert_eq!(client.spent_today(&signer), 400_0000000); // unchanged
}

#[test]
fn test_approve_with_cached_price() {
    let env = Env::default();
    let (_usdc, client, _admin) = setup_policy(&env, 500_0000000);

    let xlm = Address::generate(&env);
    // XLM at $0.15
    client.set_price(&xlm, &1_500_000);

    let signer = Address::generate(&env);

    // Approve 100 XLM ($15) -> should pass and count
    let ctx = make_approve_ctx(&env, &xlm, 100_0000000);
    assert!(client.is_authorized(&signer, &make_contexts(&env, ctx)));
    assert_eq!(client.spent_today(&signer), 15_0000000); // $15
}

#[test]
fn test_approve_unknown_token_rejected() {
    let env = Env::default();
    let (_usdc, client, _admin) = setup_policy(&env, 500_0000000);

    let unknown = Address::generate(&env);
    let signer = Address::generate(&env);

    // Approve unknown token -> rejected (no price, no router)
    let ctx = make_approve_ctx(&env, &unknown, 1_0000000);
    assert!(!client.is_authorized(&signer, &make_contexts(&env, ctx)));
}

#[test]
fn test_approve_zero_amount_allowed() {
    let env = Env::default();
    let (usdc, client, _admin) = setup_policy(&env, 500_0000000);

    let signer = Address::generate(&env);

    // Approve 0 -> treated as no-op, allowed
    let ctx = make_approve_ctx(&env, &usdc, 0);
    assert!(client.is_authorized(&signer, &make_contexts(&env, ctx)));
    assert_eq!(client.spent_today(&signer), 0);
}

#[test]
fn test_mixed_transfer_and_approve_in_batch() {
    let env = Env::default();
    let (usdc, client, _admin) = setup_policy(&env, 500_0000000);

    let signer = Address::generate(&env);

    // Batch: transfer $100 + approve $200 = $300 total
    let mut v = Vec::new(&env);
    v.push_back(make_transfer_ctx(&env, &usdc, 100_0000000));
    v.push_back(make_approve_ctx(&env, &usdc, 200_0000000));

    assert!(client.is_authorized(&signer, &v));
    assert_eq!(client.spent_today(&signer), 300_0000000);
}

#[test]
fn test_batch_approve_exceeds_limit() {
    let env = Env::default();
    let (usdc, client, _admin) = setup_policy(&env, 500_0000000);

    let signer = Address::generate(&env);

    // Batch: transfer $300 + approve $300 = $600 > $500 -> reject
    let mut v = Vec::new(&env);
    v.push_back(make_transfer_ctx(&env, &usdc, 300_0000000));
    v.push_back(make_approve_ctx(&env, &usdc, 300_0000000));

    assert!(!client.is_authorized(&signer, &v));
    assert_eq!(client.spent_today(&signer), 0); // nothing recorded
}

#[test]
fn test_approve_paused_rejected() {
    let env = Env::default();
    let (usdc, client, _admin) = setup_policy(&env, 500_0000000);

    client.pause();

    let signer = Address::generate(&env);
    let ctx = make_approve_ctx(&env, &usdc, 100_0000000);
    assert!(!client.is_authorized(&signer, &make_contexts(&env, ctx)));
}

#[test]
fn test_approve_day_rollover_resets() {
    let env = Env::default();
    let (usdc, client, _admin) = setup_policy(&env, 500_0000000);

    let signer = Address::generate(&env);

    // Day 0: approve $400
    let ctx1 = make_approve_ctx(&env, &usdc, 400_0000000);
    assert!(client.is_authorized(&signer, &make_contexts(&env, ctx1)));
    assert_eq!(client.spent_today(&signer), 400_0000000);

    // Day 1: reset
    env.ledger().set_sequence_number(17_280);
    assert_eq!(client.spent_today(&signer), 0);

    // Approve $400 again -> should work
    let ctx2 = make_approve_ctx(&env, &usdc, 400_0000000);
    assert!(client.is_authorized(&signer, &make_contexts(&env, ctx2)));
}

#[test]
fn lib_test_usdc_transfer_within_limit() {
    let env = Env::default();
    let (usdc, client, _admin) = setup_policy(&env, 500_0000000);

    let signer = Address::generate(&env);
    let ctx = make_transfer_ctx(&env, &usdc, 100_0000000);
    let contexts = make_contexts(&env, ctx);

    assert!(client.is_authorized(&signer, &contexts));
    assert_eq!(client.spent_today(&signer), 100_0000000);
    assert_eq!(client.remaining(&signer), 400_0000000);
}

#[test]
fn lib_test_usdc_transfer_over_limit() {
    let env = Env::default();
    let (usdc, client, _admin) = setup_policy(&env, 500_0000000);

    let signer = Address::generate(&env);
    let ctx = make_transfer_ctx(&env, &usdc, 600_0000000);
    let contexts = make_contexts(&env, ctx);

    assert!(!client.is_authorized(&signer, &contexts));
    assert_eq!(client.spent_today(&signer), 0);
}

#[test]
fn lib_test_usdc_cumulative_spend() {
    let env = Env::default();
    let (usdc, client, _admin) = setup_policy(&env, 500_0000000);

    let signer = Address::generate(&env);

    let ctx1 = make_transfer_ctx(&env, &usdc, 300_0000000);
    assert!(client.is_authorized(&signer, &make_contexts(&env, ctx1)));
    assert_eq!(client.spent_today(&signer), 300_0000000);

    let ctx2 = make_transfer_ctx(&env, &usdc, 250_0000000);
    assert!(!client.is_authorized(&signer, &make_contexts(&env, ctx2)));
    assert_eq!(client.spent_today(&signer), 300_0000000);

    let ctx3 = make_transfer_ctx(&env, &usdc, 200_0000000);
    assert!(client.is_authorized(&signer, &make_contexts(&env, ctx3)));
    assert_eq!(client.spent_today(&signer), 500_0000000);

    let ctx4 = make_transfer_ctx(&env, &usdc, 1);
    assert!(!client.is_authorized(&signer, &make_contexts(&env, ctx4)));
}

#[test]
fn lib_test_xlm_with_cached_price() {
    let env = Env::default();
    let (_usdc, client, _admin) = setup_policy(&env, 500_0000000);

    let xlm = Address::generate(&env);
    client.set_price(&xlm, &1_500_000);

    let signer = Address::generate(&env);
    let ctx = make_transfer_ctx(&env, &xlm, 100_0000000);
    assert!(client.is_authorized(&signer, &make_contexts(&env, ctx)));
    assert_eq!(client.spent_today(&signer), 15_0000000);
}

#[test]
fn lib_test_xlm_large_transfer_hits_limit() {
    let env = Env::default();
    let (_usdc, client, _admin) = setup_policy(&env, 500_0000000);

    let xlm = Address::generate(&env);
    client.set_price(&xlm, &1_500_000);

    let signer = Address::generate(&env);
    let ctx = make_transfer_ctx(&env, &xlm, 5000_0000000);
    assert!(!client.is_authorized(&signer, &make_contexts(&env, ctx)));
}

#[test]
fn lib_test_batch_set_prices() {
    let env = Env::default();
    let (_usdc, client, _admin) = setup_policy(&env, 500_0000000);

    let xlm = Address::generate(&env);
    let aqua = Address::generate(&env);

    let mut tokens = Vec::new(&env);
    tokens.push_back(xlm.clone());
    tokens.push_back(aqua.clone());

    let mut prices = Vec::new(&env);
    prices.push_back(1_500_000i128);
    prices.push_back(50_000i128);

    client.set_prices(&tokens, &prices);

    assert_eq!(client.get_price(&xlm), 1_500_000);
    assert_eq!(client.get_price(&aqua), 50_000);
}

#[test]
fn test_non_gated_op_always_allowed() {
    let env = Env::default();
    let (_usdc, client, _admin) = setup_policy(&env, 500_0000000);

    let signer = Address::generate(&env);

    // "swap" operation - neither transfer nor approve
    let ctx = Context::Contract(ContractContext {
        contract: Address::generate(&env),
        fn_name: Symbol::new(&env, "swap"),
        args: (Address::generate(&env), 1_000_000_000i128).into_val(&env),
    });
    let contexts = make_contexts(&env, ctx);

    assert!(client.is_authorized(&signer, &contexts));
    assert_eq!(client.spent_today(&signer), 0);
}

#[test]
fn lib_test_unknown_token_rejected() {
    let env = Env::default();
    let (_usdc, client, _admin) = setup_policy(&env, 500_0000000);

    let unknown_token = Address::generate(&env);
    let signer = Address::generate(&env);

    let ctx = make_transfer_ctx(&env, &unknown_token, 1_0000000);
    assert!(!client.is_authorized(&signer, &make_contexts(&env, ctx)));
}

#[test]
fn lib_test_per_wallet_independent_limits() {
    let env = Env::default();
    let (usdc, client, _admin) = setup_policy(&env, 500_0000000);

    let wallet_a = Address::generate(&env);
    let wallet_b = Address::generate(&env);

    let ctx_a = make_transfer_ctx(&env, &usdc, 400_0000000);
    assert!(client.is_authorized(&wallet_a, &make_contexts(&env, ctx_a)));

    let ctx_b = make_transfer_ctx(&env, &usdc, 450_0000000);
    assert!(client.is_authorized(&wallet_b, &make_contexts(&env, ctx_b)));

    let ctx_a2 = make_transfer_ctx(&env, &usdc, 200_0000000);
    assert!(!client.is_authorized(&wallet_a, &make_contexts(&env, ctx_a2)));

    let ctx_b2 = make_transfer_ctx(&env, &usdc, 50_0000000);
    assert!(client.is_authorized(&wallet_b, &make_contexts(&env, ctx_b2)));
}

#[test]
fn lib_test_day_rollover_resets_spend() {
    let env = Env::default();
    let (usdc, client, _admin) = setup_policy(&env, 500_0000000);

    let signer = Address::generate(&env);

    let ctx1 = make_transfer_ctx(&env, &usdc, 400_0000000);
    assert!(client.is_authorized(&signer, &make_contexts(&env, ctx1)));

    env.ledger().set_sequence_number(17_280);

    assert_eq!(client.spent_today(&signer), 0);
    let ctx2 = make_transfer_ctx(&env, &usdc, 400_0000000);
    assert!(client.is_authorized(&signer, &make_contexts(&env, ctx2)));
}

#[test]
fn lib_test_same_day_different_ledgers() {
    let env = Env::default();
    let (usdc, client, _admin) = setup_policy(&env, 500_0000000);

    let signer = Address::generate(&env);

    env.ledger().set_sequence_number(100);
    let ctx1 = make_transfer_ctx(&env, &usdc, 200_0000000);
    assert!(client.is_authorized(&signer, &make_contexts(&env, ctx1)));

    env.ledger().set_sequence_number(5000);
    let ctx2 = make_transfer_ctx(&env, &usdc, 200_0000000);
    assert!(client.is_authorized(&signer, &make_contexts(&env, ctx2)));
    assert_eq!(client.spent_today(&signer), 400_0000000);

    env.ledger().set_sequence_number(17000);
    let ctx3 = make_transfer_ctx(&env, &usdc, 200_0000000);
    assert!(!client.is_authorized(&signer, &make_contexts(&env, ctx3)));
}

#[test]
fn lib_test_set_limit() {
    let env = Env::default();
    let (usdc, client, _admin) = setup_policy(&env, 500_0000000);

    assert_eq!(client.daily_limit(), 500_0000000);

    client.set_limit(&100_0000000);
    assert_eq!(client.daily_limit(), 100_0000000);

    let signer = Address::generate(&env);

    let ctx = make_transfer_ctx(&env, &usdc, 150_0000000);
    assert!(!client.is_authorized(&signer, &make_contexts(&env, ctx)));

    let ctx2 = make_transfer_ctx(&env, &usdc, 50_0000000);
    assert!(client.is_authorized(&signer, &make_contexts(&env, ctx2)));
}

#[test]
fn lib_test_price_update_affects_valuation() {
    let env = Env::default();
    let (_usdc, client, _admin) = setup_policy(&env, 100_0000000);

    let xlm = Address::generate(&env);
    let signer = Address::generate(&env);

    client.set_price(&xlm, &1_000_000);
    let ctx1 = make_transfer_ctx(&env, &xlm, 100_0000000);
    assert!(client.is_authorized(&signer, &make_contexts(&env, ctx1)));
    assert_eq!(client.spent_today(&signer), 10_0000000);

    client.set_price(&xlm, &10_000_000);
    let ctx2 = make_transfer_ctx(&env, &xlm, 100_0000000);
    assert!(!client.is_authorized(&signer, &make_contexts(&env, ctx2)));

    let ctx3 = make_transfer_ctx(&env, &xlm, 50_0000000);
    assert!(client.is_authorized(&signer, &make_contexts(&env, ctx3)));
    assert_eq!(client.spent_today(&signer), 60_0000000);
}

#[test]
fn lib_test_view_functions() {
    let env = Env::default();
    let (usdc, client, _admin) = setup_policy(&env, 500_0000000);

    let signer = Address::generate(&env);
    let xlm = Address::generate(&env);

    assert_eq!(client.daily_limit(), 500_0000000);
    assert_eq!(client.spent_today(&signer), 0);
    assert_eq!(client.remaining(&signer), 500_0000000);
    assert_eq!(client.get_price(&xlm), 0);

    client.set_price(&xlm, &1_500_000);
    assert_eq!(client.get_price(&xlm), 1_500_000);

    let ctx = make_transfer_ctx(&env, &usdc, 123_0000000);
    client.is_authorized(&signer, &make_contexts(&env, ctx));
    assert_eq!(client.spent_today(&signer), 123_0000000);
    assert_eq!(client.remaining(&signer), 377_0000000);
}

#[test]
fn lib_test_exact_limit_amount() {
    let env = Env::default();
    let (usdc, client, _admin) = setup_policy(&env, 500_0000000);

    let signer = Address::generate(&env);

    let ctx = make_transfer_ctx(&env, &usdc, 500_0000000);
    assert!(client.is_authorized(&signer, &make_contexts(&env, ctx)));
    assert_eq!(client.remaining(&signer), 0);

    let ctx2 = make_transfer_ctx(&env, &usdc, 1);
    assert!(!client.is_authorized(&signer, &make_contexts(&env, ctx2)));
}

#[test]
fn lib_test_zero_amount_transfer() {
    let env = Env::default();
    let (usdc, client, _admin) = setup_policy(&env, 500_0000000);

    let signer = Address::generate(&env);

    let ctx = make_transfer_ctx(&env, &usdc, 0);
    assert!(client.is_authorized(&signer, &make_contexts(&env, ctx)));
}

#[test]
#[should_panic(expected = "already initialized")]
fn lib_test_double_init_panics() {
    let env = Env::default();
    let contract_id = Address::generate(&env);
    let client = Client::new(&env, &contract_id);

    let admin = Address::generate(&env);
    let usdc = Address::generate(&env);

    client.initialize(&admin, &usdc, &contract_id, &500_0000000);
    client.initialize(&admin, &usdc, &contract_id, &500_0000000);
}

#[test]
fn lib_test_multi_day_spend_tracking() {
    let env = Env::default();
    let (usdc, client, _admin) = setup_policy(&env, 200_0000000);

    let signer = Address::generate(&env);

    let ctx = make_transfer_ctx(&env, &usdc, 150_0000000);
    assert!(client.is_authorized(&signer, &make_contexts(&env, ctx)));

    env.ledger().set_sequence_number(17_280);
    let ctx2 = make_transfer_ctx(&env, &usdc, 200_0000000);
    assert!(client.is_authorized(&signer, &make_contexts(&env, ctx2)));

    env.ledger().set_sequence_number(34_560);
    assert_eq!(client.remaining(&signer), 200_0000000);
}

#[test]
fn lib_test_pause_blocks_all_transfers() {
    let env = Env::default();
    let (usdc, client, _admin) = setup_policy(&env, 500_0000000);

    let signer = Address::generate(&env);

    let ctx1 = make_transfer_ctx(&env, &usdc, 100_0000000);
    assert!(client.is_authorized(&signer, &make_contexts(&env, ctx1)));

    client.pause();
    assert!(client.is_paused());

    let ctx2 = make_transfer_ctx(&env, &usdc, 50_0000000);
    assert!(!client.is_authorized(&signer, &make_contexts(&env, ctx2)));

    client.unpause();
    assert!(!client.is_paused());

    let ctx3 = make_transfer_ctx(&env, &usdc, 50_0000000);
    assert!(client.is_authorized(&signer, &make_contexts(&env, ctx3)));

    assert_eq!(client.spent_today(&signer), 150_0000000);
}

#[test]
fn test_pause_blocks_approve_too() {
    let env = Env::default();
    let (usdc, client, _admin) = setup_policy(&env, 500_0000000);

    client.pause();

    let signer = Address::generate(&env);
    let ctx = make_approve_ctx(&env, &usdc, 100_0000000);
    assert!(!client.is_authorized(&signer, &make_contexts(&env, ctx)));
}

fn make_router_contexts(
    env: &Env,
    router: &Address,
    transfers: &[(Address, i128)],
) -> Vec<Context> {
    let mut v = Vec::new(env);

    v.push_back(Context::Contract(ContractContext {
        contract: router.clone(),
        fn_name: Symbol::new(env, "exec"),
        args: (Address::generate(env),).into_val(env),
    }));

    for (token, amount) in transfers {
        v.push_back(Context::Contract(ContractContext {
            contract: token.clone(),
            fn_name: Symbol::new(env, "transfer"),
            args: (
                Address::generate(env),
                Address::generate(env),
                *amount,
            )
                .into_val(env),
        }));
    }
    v
}

#[test]
fn test_v4_router_transfer_plus_fee_both_counted() {
    let env = Env::default();
    let (_usdc, client, _admin) = setup_policy(&env, 500_0000000);

    let xlm = Address::generate(&env);
    let router = Address::generate(&env);

    client.set_price(&xlm, &1_500_000);

    let wallet = Address::generate(&env);

    let contexts = make_router_contexts(&env, &router, &[
        (xlm.clone(), 100_0000000),
        (xlm.clone(), 3000000),
    ]);

    assert!(client.is_authorized(&wallet, &contexts));
    assert_eq!(client.spent_today(&wallet), 150_450000);
}

#[test]
fn test_v4_router_multi_transfer_hits_limit() {
    let env = Env::default();
    let (_usdc, client, _admin) = setup_policy(&env, 100_0000000);

    let xlm = Address::generate(&env);
    let router = Address::generate(&env);

    client.set_price(&xlm, &1_500_000);

    let wallet = Address::generate(&env);

    let contexts = make_router_contexts(&env, &router, &[
        (xlm.clone(), 500_0000000),
        (xlm.clone(), 500_0000000),
    ]);

    assert!(!client.is_authorized(&wallet, &contexts));
    assert_eq!(client.spent_today(&wallet), 0);
}

#[test]
fn test_v4_router_mixed_tokens_summed() {
    let env = Env::default();
    let (usdc, client, _admin) = setup_policy(&env, 500_0000000);

    let xlm = Address::generate(&env);
    let router = Address::generate(&env);

    client.set_price(&xlm, &1_500_000);

    let wallet = Address::generate(&env);

    let contexts = make_router_contexts(&env, &router, &[
        (xlm.clone(), 100_0000000),
        (usdc.clone(), 2_0000000),
    ]);

    assert!(client.is_authorized(&wallet, &contexts));
    assert_eq!(client.spent_today(&wallet), 17_0000000);
}

#[test]
fn test_v4_router_unknown_token_in_batch_rejects_all() {
    let env = Env::default();
    let (_usdc, client, _admin) = setup_policy(&env, 500_0000000);

    let xlm = Address::generate(&env);
    let unknown = Address::generate(&env);
    let router = Address::generate(&env);

    client.set_price(&xlm, &1_500_000);

    let wallet = Address::generate(&env);

    let contexts = make_router_contexts(&env, &router, &[
        (xlm.clone(), 10_0000000),
        (unknown.clone(), 10_0000000),
    ]);

    assert!(!client.is_authorized(&wallet, &contexts));
    assert_eq!(client.spent_today(&wallet), 0);
}

#[test]
fn test_router_exec_with_approve_counted() {
    let env = Env::default();
    let (usdc, client, _admin) = setup_policy(&env, 500_0000000);

    let router = Address::generate(&env);
    let wallet = Address::generate(&env);

    // Router exec with approve - this counts against limit
    let mut v = Vec::new(&env);
    v.push_back(Context::Contract(ContractContext {
        contract: router.clone(),
        fn_name: Symbol::new(&env, "exec"),
        args: (Address::generate(&env),).into_val(&env),
    }));
    v.push_back(Context::Contract(ContractContext {
        contract: usdc.clone(),
        fn_name: Symbol::new(&env, "approve"),
        args: (
            Address::generate(&env), // from
            Address::generate(&env), // spender
            100_0000000i128,          // amount
            1000u32,                  // expiration_ledger
        )
            .into_val(&env),
    }));

    assert!(client.is_authorized(&wallet, &v));
    assert_eq!(client.spent_today(&wallet), 100_0000000); // $100 counted
}

#[test]
fn test_non_gated_ops_still_pass() {
    let env = Env::default();
    let (_usdc, client, _admin) = setup_policy(&env, 500_0000000);

    let router = Address::generate(&env);
    let wallet = Address::generate(&env);

    // Router exec with only swap - no transfer or approve
    let mut v = Vec::new(&env);
    v.push_back(Context::Contract(ContractContext {
        contract: router.clone(),
        fn_name: Symbol::new(&env, "exec"),
        args: (Address::generate(&env),).into_val(&env),
    }));
    v.push_back(Context::Contract(ContractContext {
        contract: Address::generate(&env),
        fn_name: Symbol::new(&env, "swap"),
        args: (Address::generate(&env), 1_000_000_000i128).into_val(&env),
    }));

    assert!(client.is_authorized(&wallet, &v));
    assert_eq!(client.spent_today(&wallet), 0);
}
