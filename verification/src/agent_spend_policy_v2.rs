//! A daily limit on what a wallet transfers or approves.
//!
//! An approval lets its spender draw on the wallet later, past any limit on transfers. So
//! `approve` amounts count against the daily limit as `transfer` amounts do, and every such
//! call of a request counts, not the first alone.
use vstd::prelude::*;

use crate::context::{operation_views, operations, read_operation, Operation, OperationView};
use crate::host::{
    amount_items, context_vals, token_items, val_count, vals_of_contexts, vectors, Amounts,
    Contexts, Tokens,
};
use crate::keys::{day_of, TtlExtension};
use crate::policy::{
    charge, charged, check_source, source_check, step_view, AuthStep, AuthStepView, Invocation,
    InvocationView, Outcome, SmartAccountPolicy,
};
use crate::store::{ttl_view, PolicyError, Store, StoreView};
use crate::strkey::Strkey;
use crate::valuation::{
    to_usdc_value, usdc_value, QuoteRequest, QuoteRequestView, Valuation, ValuationView,
};

verus! {

/// Whether calls of this function count against the limit.
pub open spec fn is_gated(fn_name: Seq<char>) -> bool {
    fn_name == "transfer"@ || fn_name == "approve"@
}

/// The amount of a `transfer(from, to, amount)` or an
/// `approve(from, spender, amount, expiration_ledger)`; `None` for any other operation.
pub open spec fn gated_amount(operation: OperationView) -> Option<i128> {
    match operation {
        OperationView::Call { contract, fn_name, args } => if is_gated(fn_name) && args.len()
            >= 3 {
            args[2]
        } else {
            None
        },
        _ => None,
    }
}

/// How far the valuation of a request has come.
#[derive(Debug)]
pub enum GatedSum {
    /// Every gated call has a value. `used` quotes went into the total.
    Total { total: i128, used: usize },
    /// A gated call has no value, or none above 0.
    Rejected,
    /// A gated call waits for a quote.
    Pending(QuoteRequest),
}

pub enum GatedSumView {
    Total { total: i128, used: nat },
    Rejected,
    Pending(QuoteRequestView),
}

impl View for GatedSum {
    type V = GatedSumView;

    open spec fn view(&self) -> GatedSumView {
        match *self {
            GatedSum::Total { total, used } => GatedSumView::Total { total, used: used as nat },
            GatedSum::Rejected => GatedSumView::Rejected,
            GatedSum::Pending(request) => GatedSumView::Pending(request@),
        }
    }
}

pub open spec fn sum_view(result: Result<GatedSum, PolicyError>) -> Result<
    GatedSumView,
    PolicyError,
> {
    match result {
        Ok(sum) => Ok(sum@),
        Err(error) => Err(error),
    }
}

/// Counts one more operation towards a total, to which `used` of the quotes have gone.
pub open spec fn counted(
    store: StoreView,
    contract: Seq<char>,
    operation: OperationView,
    quotes: Seq<i128>,
    total: i128,
    used: nat,
) -> Result<GatedSumView, PolicyError> {
    if operation is Invalid {
        Err(PolicyError::InvalidContext)
    } else {
        match gated_amount(operation) {
            None => Ok(GatedSumView::Total { total, used }),
            Some(amount) => if amount == 0 {
                Ok(GatedSumView::Total { total, used })
            } else {
                let quote = if used < quotes.len() {
                    Some(quotes[used as int])
                } else {
                    None
                };
                match usdc_value(store, contract, operation->contract, amount, quote) {
                    Err(error) => Err(error),
                    Ok(ValuationView::Pending(request)) => Ok(GatedSumView::Pending(request)),
                    Ok(ValuationView::Known(value)) => added(total, value, used),
                    Ok(ValuationView::Quoted(value)) => added(total, value, used + 1),
                }
            },
        }
    }
}

/// Adds the value of one call to a total. A value of 0 or less rejects the request.
pub open spec fn added(total: i128, value: i128, used: nat) -> Result<GatedSumView, PolicyError> {
    if value <= 0 {
        Ok(GatedSumView::Rejected)
    } else if total + value > i128::MAX {
        Err(PolicyError::Overflow)
    } else {
        Ok(GatedSumView::Total { total: (total + value) as i128, used })
    }
}

/// The total value of the gated calls of a request, each counted after those before it. The
/// first call that has no value, or hangs on a quote, ends the count.
pub open spec fn gated_sum(
    store: StoreView,
    contract: Seq<char>,
    operations: Seq<OperationView>,
    quotes: Seq<i128>,
) -> Result<GatedSumView, PolicyError>
    decreases operations.len(),
{
    if operations.len() == 0 {
        Ok(GatedSumView::Total { total: 0, used: 0 })
    } else {
        match gated_sum(store, contract, operations.drop_last(), quotes) {
            Ok(GatedSumView::Total { total, used }) => counted(
                store,
                contract,
                operations.last(),
                quotes,
                total,
                used,
            ),
            ended => ended,
        }
    }
}

/// A count that has ended does not go on.
proof fn lemma_ended(
    store: StoreView,
    contract: Seq<char>,
    operations: Seq<OperationView>,
    quotes: Seq<i128>,
    i: int,
)
    requires
        0 <= i <= operations.len(),
        !(gated_sum(store, contract, operations.take(i), quotes) matches Ok(
            GatedSumView::Total { .. },
        )),
    ensures
        gated_sum(store, contract, operations, quotes) == gated_sum(
            store,
            contract,
            operations.take(i),
            quotes,
        ),
    decreases operations.len() - i,
{
    if i < operations.len() {
        assert(operations.take(i + 1).drop_last() =~= operations.take(i));
        lemma_ended(store, contract, operations, quotes, i + 1);
    } else {
        assert(operations.take(i) =~= operations);
    }
}

/// A total is never negative.
pub(crate) proof fn lemma_total_not_negative(
    store: StoreView,
    contract: Seq<char>,
    operations: Seq<OperationView>,
    quotes: Seq<i128>,
)
    ensures
        gated_sum(store, contract, operations, quotes) matches Ok(
            GatedSumView::Total { total, .. },
        ) ==> 0 <= total,
    decreases operations.len(),
{
    if operations.len() > 0 {
        lemma_total_not_negative(store, contract, operations.drop_last(), quotes);
    }
}

/// One more operation carries a count on, or ends it for good.
proof fn lemma_next(
    store: StoreView,
    contract: Seq<char>,
    operations: Seq<OperationView>,
    quotes: Seq<i128>,
    i: int,
)
    requires
        0 <= i < operations.len(),
        gated_sum(store, contract, operations.take(i), quotes) matches Ok(
            GatedSumView::Total { .. },
        ),
    ensures
        ({
            let before = gated_sum(store, contract, operations.take(i), quotes)->Ok_0;
            let next = counted(
                store,
                contract,
                operations[i],
                quotes,
                before->total,
                before->used,
            );
            &&& gated_sum(store, contract, operations.take(i + 1), quotes) == next
            &&& !(next matches Ok(GatedSumView::Total { .. })) ==> gated_sum(
                store,
                contract,
                operations,
                quotes,
            ) == next
        }),
{
    let next = operations.take(i + 1);
    assert(next.drop_last() =~= operations.take(i));
    assert(next.last() == operations[i]);
    if !(gated_sum(store, contract, next, quotes) matches Ok(GatedSumView::Total { .. })) {
        lemma_ended(store, contract, operations, quotes, i + 1);
    }
}

/// The amount of a gated call; `None` for any other.
fn call_amount(fn_name: &String, args: &Vec<Option<i128>>) -> (amount: Option<i128>)
    ensures
        amount == (if is_gated(fn_name@) && args@.len() >= 3 {
            args@[2]
        } else {
            None
        }),
{
    let is_transfer = *fn_name == "transfer".to_owned() && args.len() >= 3;
    let is_approve = *fn_name == "approve".to_owned() && args.len() >= 3;
    if is_transfer || is_approve {
        args[2]
    } else {
        None
    }
}

/// Counts one more operation towards a total, to which `used` of the quotes have gone.
fn count_operation(
    store: &Store,
    contract: &Strkey,
    operation: &Operation,
    quotes: &Vec<i128>,
    total: i128,
    used: usize,
) -> (result: Result<GatedSum, PolicyError>)
    requires
        0 <= total,
        used <= quotes@.len(),
    ensures
        sum_view(result) == counted(
            store@,
            contract@,
            operation@,
            quotes@,
            total,
            used as nat,
        ),
        result matches Ok(GatedSum::Total { total, used }) ==> 0 <= total && used
            <= quotes@.len(),
{
    let (token, amount) = match operation {
        Operation::Call { contract: token, fn_name, args } => match call_amount(fn_name, args) {
            Some(amount) => (token, amount),
            None => {
                return Ok(GatedSum::Total { total, used });
            },
        },
        Operation::Invalid => {
            return Err(PolicyError::InvalidContext);
        },
        _ => {
            return Ok(GatedSum::Total { total, used });
        },
    };
    if amount == 0 {
        return Ok(GatedSum::Total { total, used });
    }
    let quote: Option<i128> = if used < quotes.len() {
        Some(quotes[used])
    } else {
        None
    };
    let (value, used): (i128, usize) = match to_usdc_value(store, contract, token, amount, quote) {
        Ok(Valuation::Known(value)) => (value, used),
        Ok(Valuation::Quoted(value)) => (value, used + 1),
        Ok(Valuation::Pending(request)) => {
            return Ok(GatedSum::Pending(request));
        },
        Err(error) => {
            return Err(error);
        },
    };
    if value <= 0 {
        return Ok(GatedSum::Rejected);
    }
    match total.checked_add(value) {
        Some(total) => Ok(GatedSum::Total { total, used }),
        None => Err(PolicyError::Overflow),
    }
}

/// The total value of the gated calls among the contexts, in USDC stroops. Once a call ends the
/// count, those behind it are not read.
///
/// A total of 0 means that there was no gated call, or none of an amount other than 0.
pub fn sum_gated_usdc_value(
    store: &Store,
    contract: &Strkey,
    contexts: &Contexts,
    quotes: &Vec<i128>,
) -> (result: Result<GatedSum, PolicyError>)
    ensures
        sum_view(result) == gated_sum(store@, contract@, operations(*contexts), quotes@),
{
    let ghost views = operations(*contexts);
    let items = vals_of_contexts(contexts);
    let count: u32 = val_count(&items);
    let mut total: i128 = 0;
    let mut used: usize = 0;
    let mut i: u32 = 0;
    while i < count
        invariant
            views == operations(*contexts),
            items == context_vals(*contexts),
            count == vectors(items).len(),
            i <= count,
            0 <= total,
            used <= quotes@.len(),
            gated_sum(store@, contract@, views.take(i as int), quotes@) == (Ok::<
                GatedSumView,
                PolicyError,
            >(GatedSumView::Total { total, used: used as nat })),
        decreases count - i,
    {
        let operation = read_operation(&items, i);
        proof {
            lemma_next(store@, contract@, views, quotes@, i as int);
        }
        match count_operation(store, contract, &operation, quotes, total, used) {
            Ok(GatedSum::Total { total: total1, used: used1 }) => {
                total = total1;
                used = used1;
            },
            ended => {
                return ended;
            },
        }
        i = i + 1;
    }
    assert(views.take(i as int) =~= views);
    Ok(GatedSum::Total { total, used })
}

/// As [`sum_gated_usdc_value`], on operations that have been read.
pub fn sum_operations(
    store: &Store,
    contract: &Strkey,
    operations: &Vec<Operation>,
    quotes: &Vec<i128>,
) -> (result: Result<GatedSum, PolicyError>)
    ensures
        sum_view(result) == gated_sum(
            store@,
            contract@,
            operation_views(operations@),
            quotes@,
        ),
{
    let ghost views = operation_views(operations@);
    let mut total: i128 = 0;
    let mut used: usize = 0;
    let mut i: usize = 0;
    while i < operations.len()
        invariant
            views == operation_views(operations@),
            i <= operations@.len(),
            0 <= total,
            used <= quotes@.len(),
            gated_sum(store@, contract@, views.take(i as int), quotes@) == (Ok::<
                GatedSumView,
                PolicyError,
            >(GatedSumView::Total { total, used: used as nat })),
        decreases operations@.len() - i,
    {
        proof {
            assert(views[i as int] == operations@[i as int]@);
            lemma_next(store@, contract@, views, quotes@, i as int);
        }
        match count_operation(store, contract, &operations[i], quotes, total, used) {
            Ok(GatedSum::Total { total: total1, used: used1 }) => {
                total = total1;
                used = used1;
            },
            ended => {
                return ended;
            },
        }
        i = i + 1;
    }
    assert(views.take(i as int) =~= views);
    Ok(GatedSum::Total { total, used })
}

/// A policy that values every transfer and approval of a request and holds the wallet to its
/// daily limit. A request without either passes.
pub struct AgentSpendPolicyV2;

/// What [`AgentSpendPolicyV2`] answers where the total of a request is known.
pub open spec fn sum_answer(
    store: StoreView,
    invocation: InvocationView,
    source: Seq<char>,
    sum: Result<GatedSumView, PolicyError>,
) -> Outcome {
    match sum {
        Err(error) => (store, Err(error)),
        Ok(GatedSumView::Pending(request)) => (store, Ok(AuthStepView::Pending(request))),
        Ok(GatedSumView::Rejected) => (store, Ok(AuthStepView::Denied)),
        Ok(GatedSumView::Total { total, used }) => if total == 0 {
            (store, Ok(AuthStepView::Allowed(None)))
        } else if total < 0 {
            (store, Ok(AuthStepView::Denied))
        } else {
            charged(store, invocation.sequence, source, total)
        },
    }
}

/// What [`AgentSpendPolicyV2`] answers to a request whose source has authorised it.
pub open spec fn gated_decision(
    store: StoreView,
    invocation: InvocationView,
    source: Seq<char>,
    operations: Seq<OperationView>,
    quotes: Seq<i128>,
) -> Outcome {
    if store.is_paused() {
        (store, Ok(AuthStepView::Denied))
    } else {
        sum_answer(
            store,
            invocation,
            source,
            gated_sum(store, invocation.contract, operations, quotes),
        )
    }
}

impl SmartAccountPolicy for AgentSpendPolicyV2 {
    open spec fn decision(
        store: StoreView,
        invocation: InvocationView,
        source: Seq<char>,
        contexts: Seq<OperationView>,
        quotes: Seq<i128>,
    ) -> Outcome {
        match source_check(invocation.auth, source) {
            Err(error) => (store, Err(error)),
            Ok(()) => gated_decision(store, invocation, source, contexts, quotes),
        }
    }

    fn on_add(invocation: &Invocation, source: &Strkey) -> (result: Result<(), PolicyError>) {
        check_source(&invocation.auth, source)
    }

    fn on_revoke(invocation: &Invocation, source: &Strkey) -> (result: Result<(), PolicyError>) {
        check_source(&invocation.auth, source)
    }

    fn is_authorized(
        store: &mut Store,
        invocation: &Invocation,
        source: &Strkey,
        contexts: &Contexts,
        quotes: &Vec<i128>,
    ) -> (result: Result<AuthStep, PolicyError>) {
        if let Err(error) = check_source(&invocation.auth, source) {
            return Err(error);
        }
        if store.is_paused() {
            return Ok(AuthStep::Denied);
        }
        let sum = sum_gated_usdc_value(store, &invocation.contract, contexts, quotes);
        Self::authorize_sum(store, invocation, source, sum)
    }
}

impl AgentSpendPolicyV2 {
    /// The decision on a request that `source` has authorised.
    pub fn authorize(
        store: &mut Store,
        invocation: &Invocation,
        source: &Strkey,
        operations: &Vec<Operation>,
        quotes: &Vec<i128>,
    ) -> (result: Result<AuthStep, PolicyError>)
        requires
            old(store).wf(),
        ensures
            final(store).wf(),
            (final(store)@, step_view(result)) == gated_decision(
                old(store)@,
                invocation@,
                source@,
                operation_views(operations@),
                quotes@,
            ),
    {
        if store.is_paused() {
            return Ok(AuthStep::Denied);
        }
        let sum = sum_operations(store, &invocation.contract, operations, quotes);
        Self::authorize_sum(store, invocation, source, sum)
    }

    /// The decision on a request whose total is known.
    pub fn authorize_sum(
        store: &mut Store,
        invocation: &Invocation,
        source: &Strkey,
        sum: Result<GatedSum, PolicyError>,
    ) -> (result: Result<AuthStep, PolicyError>)
        requires
            old(store).wf(),
        ensures
            final(store).wf(),
            (final(store)@, step_view(result)) == sum_answer(
                old(store)@,
                invocation@,
                source@,
                sum_view(sum),
            ),
    {
        match sum {
            Ok(GatedSum::Total { total, .. }) => {
                if total == 0 {
                    return Ok(AuthStep::Allowed(None));
                }
                if total < 0 {
                    return Ok(AuthStep::Denied);
                }
                charge(store, invocation.sequence, source, total)
            },
            Ok(GatedSum::Rejected) => Ok(AuthStep::Denied),
            Ok(GatedSum::Pending(request)) => Ok(AuthStep::Pending(request)),
            Err(error) => Err(error),
        }
    }
}

/// Administration and views. `invocation.auth` is the address that has authorised the call;
/// an administrative call needs the administrator's.
impl AgentSpendPolicyV2 {
    /// Sets up the instance, once.
    ///
    /// `daily_limit_usdc` is in USDC stroops. An instance that is given its own address for a
    /// router has no router.
    pub fn initialize(
        store: &mut Store,
        invocation: &Invocation,
        admin: Strkey,
        usdc: Strkey,
        router: Strkey,
        daily_limit_usdc: i128,
    ) -> (result: Result<(), PolicyError>)
        requires
            old(store).wf(),
        ensures
            final(store).wf(),
            (final(store)@, result) == old(store)@.initialize(
                invocation@.auth,
                admin@,
                usdc@,
                router@,
                daily_limit_usdc,
            ),
    {
        store.initialize(&invocation.auth, admin, usdc, router, daily_limit_usdc)
    }

    /// Caches the price of a token: the USDC stroops that 1.0 of it brings. The host is asked
    /// to keep the price map alive.
    pub fn set_price(
        env: &soroban_sdk::Env,
        store: &mut Store,
        invocation: &Invocation,
        token: &Strkey,
        usdc_per_unit: i128,
    ) -> (result: Result<TtlExtension, PolicyError>)
        requires
            old(store).wf(),
        ensures
            final(store).wf(),
            (final(store)@, ttl_view(result)) == old(store)@.set_price(
                invocation@.auth,
                token@,
                usdc_per_unit,
            ),
    {
        store.set_price(env, &invocation.auth, token, usdc_per_unit)
    }

    /// Caches the prices of several tokens at once.
    pub fn set_prices(
        env: &soroban_sdk::Env,
        store: &mut Store,
        invocation: &Invocation,
        tokens: &Tokens,
        prices_vec: &Amounts,
    ) -> (result: Result<TtlExtension, PolicyError>)
        requires
            old(store).wf(),
        ensures
            final(store).wf(),
            (final(store)@, ttl_view(result)) == old(store)@.set_prices(
                invocation@.auth,
                token_items(*tokens),
                amount_items(*prices_vec),
            ),
    {
        store.set_prices(env, &invocation.auth, tokens, prices_vec)
    }

    /// The kill switch: from now on no request is authorised.
    pub fn pause(store: &mut Store, invocation: &Invocation) -> (result: Result<(), PolicyError>)
        requires
            old(store).wf(),
        ensures
            final(store).wf(),
            (final(store)@, result) == old(store)@.set_paused(invocation@.auth, true),
    {
        store.set_paused(&invocation.auth, true)
    }

    /// Ends a pause.
    pub fn unpause(store: &mut Store, invocation: &Invocation) -> (result: Result<
        (),
        PolicyError,
    >)
        requires
            old(store).wf(),
        ensures
            final(store).wf(),
            (final(store)@, result) == old(store)@.set_paused(invocation@.auth, false),
    {
        store.set_paused(&invocation.auth, false)
    }

    /// Whether the policy is paused.
    pub fn is_paused(store: &Store) -> (paused: bool)
        ensures
            paused == store@.is_paused(),
    {
        store.is_paused()
    }

    /// Changes the daily limit, in USDC stroops.
    pub fn set_limit(store: &mut Store, invocation: &Invocation, new_limit: i128) -> (result:
        Result<(), PolicyError>)
        requires
            old(store).wf(),
        ensures
            final(store).wf(),
            (final(store)@, result) == old(store)@.set_limit(invocation@.auth, new_limit),
    {
        store.set_limit(&invocation.auth, new_limit)
    }

    /// Changes the router.
    pub fn set_router(store: &mut Store, invocation: &Invocation, router: Strkey) -> (result:
        Result<(), PolicyError>)
        requires
            old(store).wf(),
        ensures
            final(store).wf(),
            (final(store)@, result) == old(store)@.set_router(invocation@.auth, router@),
    {
        store.set_router(&invocation.auth, router)
    }

    /// What a wallet has spent on the day of ledger `sequence`, in USDC stroops.
    pub fn spent_today(store: &Store, sequence: u32, signer: &Strkey) -> (spent: i128)
        requires
            store.wf(),
        ensures
            spent == store@.spent(signer@, day_of(sequence)),
            0 <= spent,
    {
        store.spent_today(sequence, signer)
    }

    /// What is left of a wallet's budget for the day of ledger `sequence`, in USDC stroops.
    pub fn remaining(store: &Store, sequence: u32, signer: &Strkey) -> (remaining: i128)
        requires
            store.wf(),
        ensures
            remaining == store@.remaining(signer@, day_of(sequence)),
    {
        store.remaining(sequence, signer)
    }

    /// The daily limit, in USDC stroops.
    pub fn daily_limit(store: &Store) -> (limit: i128)
        ensures
            limit == store@.daily_limit(),
    {
        store.daily_limit()
    }

    /// The cached price of a token, 0 where it has none.
    pub fn get_price(store: &Store, token: &Strkey) -> (price: i128)
        ensures
            price == store@.price(token@),
    {
        store.get_price(token)
    }
}

} // verus!
