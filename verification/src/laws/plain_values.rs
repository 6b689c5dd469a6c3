//! What the views of plain values show: everything that the values hold.
use vstd::prelude::*;

use crate::agent_spend_policy::transfer_view;
use crate::agent_spend_policy_v2::{sum_view, GatedSum, GatedSumView};
use crate::context::{operation_views, Operation, OperationView};
use crate::host::price_entries;
use crate::keys::{DataKey, DataKeyView, TtlExtension};
use crate::policy::{step_view, AuthStep, AuthStepView, Commit, Invocation};
use crate::store::{strkey_views, ttl_view, PolicyError, Store};
use crate::strkey::Strkey;
use crate::valuation::{valuation_view, QuoteRequest, Valuation, ValuationView};

verus! {

/// An address is its characters, and a list of addresses is shown in order.
pub proof fn law_addresses_are_shown(address: Strkey, addresses: Seq<Strkey>, i: int)
    ensures
        address@ == address.text@,
        strkey_views(addresses).len() == addresses.len(),
        0 <= i < addresses.len() ==> strkey_views(addresses)[i] == addresses[i].text@,
{
}

/// An operation is shown as what it is, and a list of operations in order.
pub proof fn law_operations_are_shown(
    contract: Strkey,
    fn_name: String,
    args: Vec<Option<i128>>,
    operations: Seq<Operation>,
    i: int,
)
    ensures
        (Operation::Call { contract, fn_name, args })@ == (OperationView::Call {
            contract: contract.text@,
            fn_name: fn_name@,
            args: args@,
        }),
        Operation::CreateContract@ == OperationView::CreateContract,
        Operation::CreateContractWithConstructor@ == OperationView::CreateContractWithConstructor,
        Operation::Invalid@ == OperationView::Invalid,
        operation_views(operations).len() == operations.len(),
        0 <= i < operations.len() ==> operation_views(operations)[i] == operations[i]@,
{
}

/// A storage is shown entry by entry.
pub proof fn law_storage_is_shown(store: Store)
    ensures
        store.admin is Some ==> store@.admin == Some(store.admin->0.text@),
        store.admin is None ==> store@.admin is None,
        store@.paused == store.paused,
        store.usdc_addr is Some ==> store@.usdc_addr == Some(store.usdc_addr->0.text@),
        store.usdc_addr is None ==> store@.usdc_addr is None,
        store.router_addr is Some ==> store@.router_addr == Some(store.router_addr->0.text@),
        store.router_addr is None ==> store@.router_addr is None,
        store@.daily_limit_usdc == store.daily_limit_usdc,
        store.price_map is Some ==> store@.price_map == Some(price_entries(store.price_map->0)),
        store.price_map is None ==> store@.price_map is None,
        store@.daily_spend == store.daily_spend@,
{
}

/// An invocation is shown field by field.
pub proof fn law_invocations_are_shown(invocation: Invocation)
    ensures
        invocation@.contract == invocation.contract.text@,
        invocation@.sequence == invocation.sequence,
        invocation@.auth == invocation.auth.text@,
{
}

/// A storage key is shown as what it is.
pub proof fn law_keys_are_shown(wallet: Strkey, day: u64)
    ensures
        DataKey::Admin@ == DataKeyView::Admin,
        DataKey::Paused@ == DataKeyView::Paused,
        DataKey::UsdcAddr@ == DataKeyView::UsdcAddr,
        DataKey::RouterAddr@ == DataKeyView::RouterAddr,
        DataKey::DailyLimitUsdc@ == DataKeyView::DailyLimitUsdc,
        DataKey::PriceMap@ == DataKeyView::PriceMap,
        DataKey::DailySpend(wallet, day)@ == DataKeyView::DailySpend(wallet.text@, day),
{
}

/// A request for a longer life is shown field by field, and an error as it is.
pub proof fn law_lifetimes_are_shown(ttl: TtlExtension, error: PolicyError)
    ensures
        ttl_view(Ok(ttl)) matches Ok(view) && {
            &&& view.key == ttl.key@
            &&& view.threshold == ttl.threshold
            &&& view.extend_to == ttl.extend_to
        },
        ttl_view(Err(error)) matches Err(shown) && shown == error,
{
}

/// A question to the router is shown field by field, its way in order.
pub proof fn law_questions_are_shown(request: QuoteRequest, i: int)
    ensures
        request@.router == request.router.text@,
        request@.function == request.function@,
        request@.amount == request.amount,
        request@.path.len() == request.path@.len(),
        0 <= i < request.path@.len() ==> request@.path[i] == request.path@[i].text@,
{
}

/// A valuation is shown as what it is, and an error as it is.
pub proof fn law_valuations_are_shown(value: i128, request: QuoteRequest, error: PolicyError)
    ensures
        valuation_view(Ok(Valuation::Known(value))) == Ok::<ValuationView, PolicyError>(
            ValuationView::Known(value),
        ),
        valuation_view(Ok(Valuation::Quoted(value))) == Ok::<ValuationView, PolicyError>(
            ValuationView::Quoted(value),
        ),
        valuation_view(Ok(Valuation::Pending(request))) == Ok::<ValuationView, PolicyError>(
            ValuationView::Pending(request@),
        ),
        valuation_view(Err(error)) == Err::<ValuationView, PolicyError>(error),
{
}

/// A transfer that was found is shown as it is.
pub proof fn law_transfers_are_shown(token: Strkey, amount: i128, error: PolicyError)
    ensures
        transfer_view(Ok((token, amount))) == Ok::<(Seq<char>, i128), PolicyError>(
            (token.text@, amount),
        ),
        transfer_view(Err(error)) == Err::<(Seq<char>, i128), PolicyError>(error),
{
}

/// A total is shown as it is, and so is what stands in its way.
pub proof fn law_totals_are_shown(
    total: i128,
    used: usize,
    request: QuoteRequest,
    error: PolicyError,
)
    ensures
        sum_view(Ok(GatedSum::Total { total, used })) == Ok::<GatedSumView, PolicyError>(
            GatedSumView::Total { total, used: used as nat },
        ),
        sum_view(Ok(GatedSum::Rejected)) == Ok::<GatedSumView, PolicyError>(
            GatedSumView::Rejected,
        ),
        sum_view(Ok(GatedSum::Pending(request))) == Ok::<GatedSumView, PolicyError>(
            GatedSumView::Pending(request@),
        ),
        sum_view(Err(error)) == Err::<GatedSumView, PolicyError>(error),
{
}

/// An answer is shown as what it is, with what is to be recorded.
pub proof fn law_answers_are_shown(commit: Commit, request: QuoteRequest, error: PolicyError)
    ensures
        step_view(Ok(AuthStep::Allowed(Some(commit)))) matches Ok(
            AuthStepView::Allowed(Some(view)),
        ) && {
            &&& view.key == commit.key@
            &&& view.spent == commit.spent
            &&& view.ttl == commit.ttl@
        },
        step_view(Ok(AuthStep::Allowed(None))) == Ok::<AuthStepView, PolicyError>(
            AuthStepView::Allowed(None),
        ),
        step_view(Ok(AuthStep::Denied)) == Ok::<AuthStepView, PolicyError>(AuthStepView::Denied),
        step_view(Ok(AuthStep::Pending(request))) == Ok::<AuthStepView, PolicyError>(
            AuthStepView::Pending(request@),
        ),
        step_view(Err(error)) == Err::<AuthStepView, PolicyError>(error),
{
}

} // verus!
