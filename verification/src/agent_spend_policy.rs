//! A daily limit on what a wallet transfers.
use vstd::prelude::*;

use crate::context::{operation_views, operations, read_operation, Operation, OperationView};
use crate::host::{
    amount_items, context_vals, token_items, val_count, vals_of_contexts, vectors, Amounts,
    Contexts, Tokens,
};
use crate::keys::{day_of, TtlExtension};
use crate::policy::{
    charge, charged, check_source, source_check, step_view, AuthStep, AuthStepView, Invocation,
    InvocationView, Outcome, SmartAccountPolicy,
};
use crate::store::{ttl_view, PolicyError, Store, StoreView};
use crate::strkey::Strkey;
use crate::valuation::{to_usdc_value, usdc_value, Valuation, ValuationView};

verus! {

/// The amount of a `transfer(from, to, amount)`; `None` for any other operation.
pub open spec fn transfer_amount(operation: OperationView) -> Option<i128> {
    match operation {
        OperationView::Call { contract, fn_name, args } => if fn_name == "transfer"@
            && args.len() >= 3 {
            args[2]
        } else {
            None
        },
        _ => None,
    }
}

/// The token and the amount of the first transfer; the address of the instance and 0 where
/// there is none.
pub open spec fn first_transfer(contract: Seq<char>, operations: Seq<OperationView>) -> Result<
    (Seq<char>, i128),
    PolicyError,
>
    decreases operations.len(),
{
    if operations.len() == 0 {
        Ok((contract, 0))
    } else if operations[0] is Invalid {
        Err(PolicyError::InvalidContext)
    } else {
        match transfer_amount(operations[0]) {
            Some(amount) => Ok((operations[0]->contract, amount)),
            None => first_transfer(contract, operations.drop_first()),
        }
    }
}

pub open spec fn transfer_view(result: Result<(Strkey, i128), PolicyError>) -> Result<
    (Seq<char>, i128),
    PolicyError,
> {
    match result {
        Ok((token, amount)) => Ok((token@, amount)),
        Err(error) => Err(error),
    }
}

/// The amount of a `transfer(from, to, amount)`; `None` for any other function.
fn call_amount(fn_name: &String, args: &Vec<Option<i128>>) -> (amount: Option<i128>)
    ensures
        amount == (if fn_name@ == "transfer"@ && args@.len() >= 3 {
            args@[2]
        } else {
            None
        }),
{
    if *fn_name == "transfer".to_owned() && args.len() >= 3 {
        args[2]
    } else {
        None
    }
}

/// The token and the amount of an operation, if it is a transfer.
fn transfer_of(operation: &Operation) -> (result: Result<Option<(Strkey, i128)>, PolicyError>)
    ensures
        (match result {
            Err(error) => operation@ is Invalid && error == PolicyError::InvalidContext,
            Ok(Some((token, amount))) => {
                &&& transfer_amount(operation@) == Some(amount)
                &&& token@ == operation@->contract
            },
            Ok(None) => !(operation@ is Invalid) && transfer_amount(operation@) is None,
        }),
{
    match operation {
        Operation::Call { contract: token, fn_name, args } => match call_amount(fn_name, args) {
            Some(amount) => Ok(Some((token.clone(), amount))),
            None => Ok(None),
        },
        Operation::Invalid => Err(PolicyError::InvalidContext),
        _ => Ok(None),
    }
}

/// The token and the amount of the first transfer among the contexts. Those behind it are not
/// read.
///
/// The contract that a transfer is called on is the token itself. Where there is no transfer,
/// the amount is 0.
pub fn extract_transfer(contract: &Strkey, contexts: &Contexts) -> (result: Result<
    (Strkey, i128),
    PolicyError,
>)
    ensures
        transfer_view(result) == first_transfer(contract@, operations(*contexts)),
{
    let ghost views = operations(*contexts);
    let items = vals_of_contexts(contexts);
    let count: u32 = val_count(&items);
    let mut i: u32 = 0;
    assert(views.skip(0) =~= views);
    while i < count
        invariant
            views == operations(*contexts),
            items == context_vals(*contexts),
            count == vectors(items).len(),
            i <= count,
            first_transfer(contract@, views) == first_transfer(contract@, views.skip(i as int)),
        decreases count - i,
    {
        assert(views.skip(i as int).drop_first() =~= views.skip(i + 1));
        match transfer_of(&read_operation(&items, i)) {
            Ok(Some(transfer)) => {
                return Ok(transfer);
            },
            Ok(None) => {},
            Err(error) => {
                return Err(error);
            },
        }
        i = i + 1;
    }
    Ok((contract.clone(), 0))
}

/// As [`extract_transfer`], on operations that have been read.
pub fn extract_from_operations(contract: &Strkey, operations: &Vec<Operation>) -> (result: Result<
    (Strkey, i128),
    PolicyError,
>)
    ensures
        transfer_view(result) == first_transfer(contract@, operation_views(operations@)),
{
    let ghost views = operation_views(operations@);
    let mut i: usize = 0;
    assert(views.skip(0) =~= views);
    while i < operations.len()
        invariant
            views == operation_views(operations@),
            i <= operations@.len(),
            first_transfer(contract@, views) == first_transfer(contract@, views.skip(i as int)),
        decreases operations@.len() - i,
    {
        assert(views.skip(i as int)[0] == operations@[i as int]@);
        assert(views.skip(i as int).drop_first() =~= views.skip(i + 1));
        match transfer_of(&operations[i]) {
            Ok(Some(transfer)) => {
                return Ok(transfer);
            },
            Ok(None) => {},
            Err(error) => {
                return Err(error);
            },
        }
        i = i + 1;
    }
    Ok((contract.clone(), 0))
}

/// A policy that values the first transfer of a request and holds the wallet to its daily
/// limit. A request without a transfer passes.
pub struct AgentSpendPolicy;

/// What [`AgentSpendPolicy`] answers where the first transfer of a request is known.
pub open spec fn transfer_answer(
    store: StoreView,
    invocation: InvocationView,
    source: Seq<char>,
    transfer: Result<(Seq<char>, i128), PolicyError>,
    quotes: Seq<i128>,
) -> Outcome {
    match transfer {
        Err(error) => (store, Err(error)),
        Ok((token, amount)) => if amount == 0 {
            (store, Ok(AuthStepView::Allowed(None)))
        } else {
            let quote = if quotes.len() > 0 {
                Some(quotes[0])
            } else {
                None
            };
            match usdc_value(store, invocation.contract, token, amount, quote) {
                Err(error) => (store, Err(error)),
                Ok(ValuationView::Pending(request)) => (store, Ok(AuthStepView::Pending(request))),
                Ok(ValuationView::Known(value)) | Ok(ValuationView::Quoted(value)) => if value
                    <= 0 {
                    (store, Ok(AuthStepView::Denied))
                } else {
                    charged(store, invocation.sequence, source, value)
                },
            }
        },
    }
}

/// What [`AgentSpendPolicy`] answers to a request whose source has authorised it.
pub open spec fn transfer_decision(
    store: StoreView,
    invocation: InvocationView,
    source: Seq<char>,
    operations: Seq<OperationView>,
    quotes: Seq<i128>,
) -> Outcome {
    if store.is_paused() {
        (store, Ok(AuthStepView::Denied))
    } else {
        transfer_answer(
            store,
            invocation,
            source,
            first_transfer(invocation.contract, operations),
            quotes,
        )
    }
}

impl SmartAccountPolicy for AgentSpendPolicy {
    open spec fn decision(
        store: StoreView,
        invocation: InvocationView,
        source: Seq<char>,
        contexts: Seq<OperationView>,
        quotes: Seq<i128>,
    ) -> Outcome {
        match source_check(invocation.auth, source) {
            Err(error) => (store, Err(error)),
            Ok(()) => transfer_decision(store, invocation, source, contexts, quotes),
        }
    }

    fn on_add(invocation: &Invocation, source: &Strkey) -> (result: Result<(), PolicyError>) {
        check_source(&invocation.auth, source)
    }

    fn on_revoke(invocation: &Invocation, source: &Strkey) -> (result: Result<(), PolicyError>) {
        check_source(&invocation.auth, source)
    }

    fn is_authorized(
        store: &mut Store,
        invocation: &Invocation,
        source: &Strkey,
        contexts: &Contexts,
        quotes: &Vec<i128>,
    ) -> (result: Result<AuthStep, PolicyError>) {
        if let Err(error) = check_source(&invocation.auth, source) {
            return Err(error);
        }
        if store.is_paused() {
            return Ok(AuthStep::Denied);
        }
        let transfer = extract_transfer(&invocation.contract, contexts);
        Self::authorize_transfer(store, invocation, source, transfer, quotes)
    }
}

impl AgentSpendPolicy {
    /// The decision on a request that `source` has authorised.
    pub fn authorize(
        store: &mut Store,
        invocation: &Invocation,
        source: &Strkey,
        operations: &Vec<Operation>,
        quotes: &Vec<i128>,
    ) -> (result: Result<AuthStep, PolicyError>)
        requires
            old(store).wf(),
        ensures
            final(store).wf(),
            (final(store)@, step_view(result)) == transfer_decision(
                old(store)@,
                invocation@,
                source@,
                operation_views(operations@),
                quotes@,
            ),
    {
        if store.is_paused() {
            return Ok(AuthStep::Denied);
        }
        let transfer = extract_from_operations(&invocation.contract, operations);
        Self::authorize_transfer(store, invocation, source, transfer, quotes)
    }

    /// The decision on a request whose first transfer is known.
    pub fn authorize_transfer(
        store: &mut Store,
        invocation: &Invocation,
        source: &Strkey,
        transfer: Result<(Strkey, i128), PolicyError>,
        quotes: &Vec<i128>,
    ) -> (result: Result<AuthStep, PolicyError>)
        requires
            old(store).wf(),
        ensures
            final(store).wf(),
            (final(store)@, step_view(result)) == transfer_answer(
                old(store)@,
                invocation@,
                source@,
                transfer_view(transfer),
                quotes@,
            ),
    {
        let (token, amount) = match transfer {
            Ok(transfer) => transfer,
            Err(error) => {
                return Err(error);
            },
        };
        if amount == 0 {
            return Ok(AuthStep::Allowed(None));
        }
        let quote: Option<i128> = if quotes.len() > 0 {
            Some(quotes[0])
        } else {
            None
        };
        let value: i128 = match to_usdc_value(
            store,
            &invocation.contract,
            &token,
            amount,
            quote,
        ) {
            Ok(Valuation::Known(value)) => value,
            Ok(Valuation::Quoted(value)) => value,
            Ok(Valuation::Pending(request)) => {
                return Ok(AuthStep::Pending(request));
            },
            Err(error) => {
                return Err(error);
            },
        };
        if value <= 0 {
            return Ok(AuthStep::Denied);
        }
        charge(store, invocation.sequence, source, value)
    }
}

/// Administration and views. `invocation.auth` is the address that has authorised the call;
/// an administrative call needs the administrator's.
impl AgentSpendPolicy {
    /// Sets up the instance, once.
    ///
    /// `daily_limit_usdc` is in USDC stroops. An instance that is given its own address for a
    /// router has no router.
    pub fn initialize(
        store: &mut Store,
        invocation: &Invocation,
        admin: Strkey,
        usdc: Strkey,
        router: Strkey,
        daily_limit_usdc: i128,
    ) -> (result: Result<(), PolicyError>)
        requires
            old(store).wf(),
        ensures
            final(store).wf(),
            (final(store)@, result) == old(store)@.initialize(
                invocation@.auth,
                admin@,
                usdc@,
                router@,
                daily_limit_usdc,
            ),
    {
        store.initialize(&invocation.auth, admin, usdc, router, daily_limit_usdc)
    }

    /// Caches the price of a token: the USDC stroops that 1.0 of it brings. The host is asked
    /// to keep the price map alive.
    pub fn set_price(
        env: &soroban_sdk::Env,
        store: &mut Store,
        invocation: &Invocation,
        token: &Strkey,
        usdc_per_unit: i128,
    ) -> (result: Result<TtlExtension, PolicyError>)
        requires
            old(store).wf(),
        ensures
            final(store).wf(),
            (final(store)@, ttl_view(result)) == old(store)@.set_price(
                invocation@.auth,
                token@,
                usdc_per_unit,
            ),
    {
        store.set_price(env, &invocation.auth, token, usdc_per_unit)
    }

    /// Caches the prices of several tokens at once.
    pub fn set_prices(
        env: &soroban_sdk::Env,
        store: &mut Store,
        invocation: &Invocation,
        tokens: &Tokens,
        prices_vec: &Amounts,
    ) -> (result: Result<TtlExtension, PolicyError>)
        requires
            old(store).wf(),
        ensures
            final(store).wf(),
            (final(store)@, ttl_view(result)) == old(store)@.set_prices(
                invocation@.auth,
                token_items(*tokens),
                amount_items(*prices_vec),
            ),
    {
        store.set_prices(env, &invocation.auth, tokens, prices_vec)
    }

    /// The kill switch: from now on no request is authorised.
    pub fn pause(store: &mut Store, invocation: &Invocation) -> (result: Result<(), PolicyError>)
        requires
            old(store).wf(),
        ensures
            final(store).wf(),
            (final(store)@, result) == old(store)@.set_paused(invocation@.auth, true),
    {
        store.set_paused(&invocation.auth, true)
    }

    /// Ends a pause.
    pub fn unpause(store: &mut Store, invocation: &Invocation) -> (result: Result<
        (),
        PolicyError,
    >)
        requires
            old(store).wf(),
        ensures
            final(store).wf(),
            (final(store)@, result) == old(store)@.set_paused(invocation@.auth, false),
    {
        store.set_paused(&invocation.auth, false)
    }

    /// Whether the policy is paused.
    pub fn is_paused(store: &Store) -> (paused: bool)
        ensures
            paused == store@.is_paused(),
    {
        store.is_paused()
    }

    /// Changes the daily limit, in USDC stroops.
    pub fn set_limit(store: &mut Store, invocation: &Invocation, new_limit: i128) -> (result:
        Result<(), PolicyError>)
        requires
            old(store).wf(),
        ensures
            final(store).wf(),
            (final(store)@, result) == old(store)@.set_limit(invocation@.auth, new_limit),
    {
        store.set_limit(&invocation.auth, new_limit)
    }

    /// Changes the router.
    pub fn set_router(store: &mut Store, invocation: &Invocation, router: Strkey) -> (result:
        Result<(), PolicyError>)
        requires
            old(store).wf(),
        ensures
            final(store).wf(),
            (final(store)@, result) == old(store)@.set_router(invocation@.auth, router@),
    {
        store.set_router(&invocation.auth, router)
    }

    /// What a wallet has spent on the day of ledger `sequence`, in USDC stroops.
    pub fn spent_today(store: &Store, sequence: u32, signer: &Strkey) -> (spent: i128)
        requires
            store.wf(),
        ensures
            spent == store@.spent(signer@, day_of(sequence)),
            0 <= spent,
    {
        store.spent_today(sequence, signer)
    }

    /// What is left of a wallet's budget for the day of ledger `sequence`, in USDC stroops.
    pub fn remaining(store: &Store, sequence: u32, signer: &Strkey) -> (remaining: i128)
        requires
            store.wf(),
        ensures
            remaining == store@.remaining(signer@, day_of(sequence)),
    {
        store.remaining(sequence, signer)
    }

    /// The daily limit, in USDC stroops.
    pub fn daily_limit(store: &Store) -> (limit: i128)
        ensures
            limit == store@.daily_limit(),
    {
        store.daily_limit()
    }

    /// The cached price of a token, 0 where it has none.
    pub fn get_price(store: &Store, token: &Strkey) -> (price: i128)
        ensures
            price == store@.price(token@),
    {
        store.get_price(token)
    }
}

} // verus!
