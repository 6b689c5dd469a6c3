//! How the policies read a request.
use vstd::prelude::*;

use crate::agent_spend_policy::{
    first_transfer, transfer_answer, transfer_decision, AgentSpendPolicy,
};
use crate::agent_spend_policy_v2::{
    gated_decision, gated_sum, lemma_total_not_negative, sum_answer, AgentSpendPolicyV2,
    GatedSumView,
};
use crate::context::OperationView;
use crate::laws::budget::{answer, entry_of, records, Request};
use crate::policy::{charged, AuthStepView, InvocationView, Outcome};
use crate::store::{PolicyError, StoreView};
use crate::valuation::{
    pricing, usdc_value, value_at, Pricing, QuoteRequestView, ValuationView,
};

verus! {

/// Whether an operation is a call of `fn_name` on `token` whose third argument is the integer
/// `amount`.
pub open spec fn is_call_of(
    operation: OperationView,
    fn_name: Seq<char>,
    token: Seq<char>,
    amount: i128,
) -> bool {
    match operation {
        OperationView::Call { contract, fn_name: name, args } => {
            &&& contract == token
            &&& name == fn_name
            &&& args.len() >= 3
            &&& args[2] == Some(amount)
        },
        _ => false,
    }
}

/// Whether an operation transfers or approves `amount` of `token`.
pub open spec fn moves(operation: OperationView, token: Seq<char>, amount: i128) -> bool {
    ||| is_call_of(operation, "transfer"@, token, amount)
    ||| is_call_of(operation, "approve"@, token, amount)
}

/// The amount that an operation transfers, if it is a transfer.
pub open spec fn transferred(operation: OperationView) -> Option<i128> {
    match operation {
        OperationView::Call { fn_name, args, .. } => if fn_name == "transfer"@ && args.len() >= 3 {
            args[2]
        } else {
            None
        },
        _ => None,
    }
}

/// The amount that an operation transfers or approves, if it does either.
pub open spec fn moved(operation: OperationView) -> Option<i128> {
    match operation {
        OperationView::Call { fn_name, args, .. } => if (fn_name == "transfer"@ || fn_name
            == "approve"@) && args.len() >= 3 {
            args[2]
        } else {
            None
        },
        _ => None,
    }
}

/// Whether an operation is one that the policy on transfers passes over.
pub open spec fn passed_over(operation: OperationView) -> bool {
    !(operation is Invalid) && transferred(operation) is None
}

/// Whether an operation counts for nothing: it is no gated call, or one of the amount 0.
pub open spec fn counts_for_nothing(operation: OperationView) -> bool {
    !(operation is Invalid) && (moved(operation) is None || moved(operation) == Some(
        0i128,
    ))
}

/// A request without a transfer or an approval passes, and nothing is recorded; so does one
/// whose transfers and approvals are all of the amount 0. The policy on transfers lets pass,
/// too, what has no transfer in it.
pub proof fn law_ungated_requests_pass(store: StoreView, request: Request)
    requires
        !store.is_paused(),
        request.invocation.auth == request.source,
    ensures
        (forall|i: int|
            0 <= i < request.contexts.len() ==> counts_for_nothing(#[trigger] request.contexts[i]))
            ==> answer::<AgentSpendPolicyV2>(store, request) == (
            store,
            Ok::<AuthStepView, PolicyError>(AuthStepView::Allowed(None)),
        ),
        (forall|i: int|
            0 <= i < request.contexts.len() ==> !(request.contexts[i] is Invalid)
                && transferred(#[trigger] request.contexts[i]) is None) ==> answer::<
            AgentSpendPolicy,
        >(store, request) == (
            store,
            Ok::<AuthStepView, PolicyError>(AuthStepView::Allowed(None)),
        ),
{
    let contract = request.invocation.contract;
    let contexts = request.contexts;
    if forall|i: int| 0 <= i < contexts.len() ==> counts_for_nothing(#[trigger] contexts[i]) {
        lemma_nothing_counts(store, contract, contexts, request.quotes);
    }
    if forall|i: int|
        0 <= i < contexts.len() ==> !(contexts[i] is Invalid) && transferred(
            #[trigger] contexts[i],
        ) is None {
        lemma_no_transfer(contract, contexts);
    }
}

proof fn lemma_nothing_counts(
    store: StoreView,
    contract: Seq<char>,
    operations: Seq<OperationView>,
    quotes: Seq<i128>,
)
    requires
        forall|i: int| 0 <= i < operations.len() ==> counts_for_nothing(#[trigger] operations[i]),
    ensures
        gated_sum(store, contract, operations, quotes) == Ok::<GatedSumView, PolicyError>(
            GatedSumView::Total { total: 0, used: 0 },
        ),
    decreases operations.len(),
{
    if operations.len() > 0 {
        assert(counts_for_nothing(operations[operations.len() - 1]));
        assert forall|i: int| 0 <= i < operations.len() - 1 implies counts_for_nothing(
            #[trigger] operations.drop_last()[i],
        ) by {
            assert(counts_for_nothing(operations[i]));
        }
        lemma_nothing_counts(store, contract, operations.drop_last(), quotes);
    }
}

proof fn lemma_no_transfer(contract: Seq<char>, operations: Seq<OperationView>)
    requires
        forall|i: int|
            0 <= i < operations.len() ==> !(operations[i] is Invalid) && transferred(
                #[trigger] operations[i],
            ) is None,
    ensures
        first_transfer(contract, operations) == Ok::<(Seq<char>, i128), PolicyError>(
            (contract, 0),
        ),
    decreases operations.len(),
{
    if operations.len() > 0 {
        assert(transferred(operations[0]) is None);
        assert forall|i: int| 0 <= i < operations.len() - 1 implies !(operations.drop_first()[i]
            is Invalid) && transferred(#[trigger] operations.drop_first()[i]) is None by {
            assert(transferred(operations[i + 1]) is None);
        }
        lemma_no_transfer(contract, operations.drop_first());
    }
}

/// Whether a gated call has a value of its own above 0, or is left to the router; true of an
/// operation that counts for nothing.
pub open spec fn has_value(
    store: StoreView,
    contract: Seq<char>,
    operation: OperationView,
) -> bool {
    if counts_for_nothing(operation) {
        true
    } else {
        match moved(operation) {
            None => false,
            Some(amount) => match pricing(store, contract, operation->contract) {
                Pricing::Identity => 0 < amount,
                Pricing::Rate(price) => 0 < value_at(amount, price),
                Pricing::Router(_) => true,
                Pricing::Unpriced => false,
                Pricing::NoUsdc => false,
            },
        }
    }
}

/// What the store alone says that an operation is worth; 0 for what counts for nothing or is
/// left to the router.
pub open spec fn own_value(store: StoreView, contract: Seq<char>, operation: OperationView) -> int {
    match moved(operation) {
        None => 0,
        Some(amount) => match pricing(store, contract, operation->contract) {
            Pricing::Identity => amount as int,
            Pricing::Rate(price) => value_at(amount, price),
            _ => 0,
        },
    }
}

pub open spec fn own_values(
    store: StoreView,
    contract: Seq<char>,
    operations: Seq<OperationView>,
) -> int
    decreases operations.len(),
{
    if operations.len() == 0 {
        0
    } else {
        own_values(store, contract, operations.drop_last()) + own_value(
            store,
            contract,
            operations.last(),
        )
    }
}

/// Whether the value of an operation is left to the router.
pub open spec fn asks_router(
    store: StoreView,
    contract: Seq<char>,
    operation: OperationView,
) -> bool {
    !counts_for_nothing(operation) && moved(operation) is Some && pricing(
        store,
        contract,
        operation->contract,
    ) is Router
}

/// How many operations have their value from the router.
pub open spec fn questions(
    store: StoreView,
    contract: Seq<char>,
    operations: Seq<OperationView>,
) -> nat
    decreases operations.len(),
{
    if operations.len() == 0 {
        0
    } else {
        questions(store, contract, operations.drop_last()) + if asks_router(
            store,
            contract,
            operations.last(),
        ) {
            1nat
        } else {
            0nat
        }
    }
}

pub open spec fn sum_of(values: Seq<i128>) -> int
    decreases values.len(),
{
    if values.len() == 0 {
        0
    } else {
        sum_of(values.drop_last()) + values.last()
    }
}

/// What counts for nothing is worth nothing.
proof fn lemma_worth_nothing(store: StoreView, contract: Seq<char>, operation: OperationView)
    requires
        counts_for_nothing(operation),
    ensures
        own_value(store, contract, operation) == 0,
{
    if let Pricing::Rate(price) = pricing(store, contract, operation->contract) {
        assert(0 * price == 0) by (nonlinear_arith);
    }
}

/// Every gated call of a request counts, not the first alone: the total is the sum of what the
/// store says that each is worth and of the router's answers for the others. Every one of
/// these values is above 0.
pub proof fn law_every_gated_call_counts(
    store: StoreView,
    contract: Seq<char>,
    operations: Seq<OperationView>,
    quotes: Seq<i128>,
    total: i128,
    used: nat,
)
    requires
        gated_sum(store, contract, operations, quotes) == Ok::<GatedSumView, PolicyError>(
            GatedSumView::Total { total, used },
        ),
    ensures
        used == questions(store, contract, operations),
        used <= quotes.len(),
        total == own_values(store, contract, operations) + sum_of(quotes.take(used as int)),
        forall|i: int|
            0 <= i < operations.len() ==> has_value(store, contract, #[trigger] operations[i]),
        forall|i: int| 0 <= i < used ==> 0 < #[trigger] quotes[i],
    decreases operations.len(),
{
    if operations.len() == 0 {
        assert(quotes.take(0) =~= Seq::<i128>::empty());
    } else {
        let before = operations.drop_last();
        match gated_sum(store, contract, before, quotes) {
            Ok(GatedSumView::Total { total: total1, used: used1 }) => {
                law_every_gated_call_counts(store, contract, before, quotes, total1, used1);
                assert forall|i: int| 0 <= i < operations.len() implies has_value(
                    store,
                    contract,
                    #[trigger] operations[i],
                ) by {
                    if i < before.len() {
                        assert(has_value(store, contract, before[i]));
                    }
                }
                if counts_for_nothing(operations.last()) {
                    lemma_worth_nothing(store, contract, operations.last());
                } else if asks_router(store, contract, operations.last()) {
                    assert(quotes.take(used as int).drop_last() =~= quotes.take(used1 as int));
                    assert(quotes.take(used as int).last() == quotes[used1 as int]);
                }
            },
            _ => {},
        }
    }
}

/// A request with a transfer or an approval that has no value is not authorised, whatever else
/// is in it, and nothing is recorded.
pub proof fn law_one_unpriced_call_refuses_all(store: StoreView, request: Request, i: int)
    requires
        0 <= i < request.contexts.len(),
        !has_value(store, request.invocation.contract, request.contexts[i]),
    ensures
        answer::<AgentSpendPolicyV2>(store, request).0 == store,
        !(answer::<AgentSpendPolicyV2>(store, request).1 matches Ok(AuthStepView::Allowed(_))),
{
    match gated_sum(store, request.invocation.contract, request.contexts, request.quotes) {
        Ok(GatedSumView::Total { total, used }) => {
            law_every_gated_call_counts(
                store,
                request.invocation.contract,
                request.contexts,
                request.quotes,
                total,
                used,
            );
        },
        _ => {},
    }
}

/// A request whose transfers and approvals come to a total is authorised if and only if what is
/// left of the wallet's budget covers the total; the total is then recorded. The bounds of an
/// `i128` aside, nothing else can refuse it.
pub proof fn law_total_within_remaining(
    store: StoreView,
    request: Request,
    total: i128,
    used: nat,
)
    requires
        !store.is_paused(),
        request.invocation.auth == request.source,
        gated_sum(store, request.invocation.contract, request.contexts, request.quotes) == Ok::<
            GatedSumView,
            PolicyError,
        >(GatedSumView::Total { total, used }),
        0 < total,
        ({
            let (wallet, day) = entry_of(request);
            store.spent(wallet, day) + total <= i128::MAX
        }),
    ensures
        ({
            let (wallet, day) = entry_of(request);
            let outcome = answer::<AgentSpendPolicyV2>(store, request);
            &&& records(outcome) <==> total <= store.remaining(wallet, day)
            &&& records(outcome) ==> outcome.0.spent(wallet, day) == store.spent(wallet, day)
                + total
            &&& !records(outcome) ==> outcome == (
                store,
                Ok::<AuthStepView, PolicyError>(AuthStepView::Denied),
            )
        }),
{
}

/// The policy on transfers goes by the first transfer of a request: what comes after it makes
/// no difference.
pub proof fn law_first_transfer_decides(
    store: StoreView,
    request: Request,
    i: int,
    more: Seq<OperationView>,
)
    requires
        0 <= i < request.contexts.len(),
        transferred(request.contexts[i]) is Some,
    ensures
        answer::<AgentSpendPolicy>(
            store,
            Request { contexts: request.contexts + more, ..request },
        ) == answer::<AgentSpendPolicy>(store, request),
{
    lemma_first_transfer(request.invocation.contract, request.contexts, i, more);
}

proof fn lemma_first_transfer(
    contract: Seq<char>,
    operations: Seq<OperationView>,
    i: int,
    more: Seq<OperationView>,
)
    requires
        0 <= i < operations.len(),
        transferred(operations[i]) is Some,
    ensures
        first_transfer(contract, operations + more) == first_transfer(contract, operations),
    decreases operations.len(),
{
    assert((operations + more)[0] == operations[0]);
    if transferred(operations[0]) is None && !(operations[0] is Invalid) {
        assert((operations + more).drop_first() =~= operations.drop_first() + more);
        lemma_first_transfer(contract, operations.drop_first(), i - 1, more);
    }
}

/// A request whose first transfer is of a token without a value is denied by the policy on
/// transfers, and nothing is recorded.
pub proof fn law_unpriced_transfer_denied(
    store: StoreView,
    request: Request,
    token: Seq<char>,
    amount: i128,
)
    requires
        request.invocation.auth == request.source,
        first_transfer(request.invocation.contract, request.contexts) == Ok::<
            (Seq<char>, i128),
            PolicyError,
        >((token, amount)),
        amount != 0,
        pricing(store, request.invocation.contract, token) == Pricing::Unpriced,
    ensures
        answer::<AgentSpendPolicy>(store, request) == (
            store,
            Ok::<AuthStepView, PolicyError>(AuthStepView::Denied),
        ),
{
}

/// Whether two operations are the same but for the name of a gated function.
pub open spec fn same_but_gated_name(a: OperationView, b: OperationView) -> bool {
    ||| a == b
    ||| match (a, b) {
        (
            OperationView::Call { contract: contract1, fn_name: name1, args: args1 },
            OperationView::Call { contract: contract2, fn_name: name2, args: args2 },
        ) => {
            &&& contract1 == contract2
            &&& args1 == args2
            &&& name1 == "transfer"@ || name1 == "approve"@
            &&& name2 == "transfer"@ || name2 == "approve"@
        },
        _ => false,
    }
}

/// An approval counts as a transfer does: the answer is the same for a request in which some
/// of the one are the other.
pub proof fn law_approve_counts_as_transfer(store: StoreView, a: Request, b: Request)
    requires
        a.invocation == b.invocation,
        a.source == b.source,
        a.quotes == b.quotes,
        a.contexts.len() == b.contexts.len(),
        forall|i: int|
            0 <= i < a.contexts.len() ==> same_but_gated_name(
                #[trigger] a.contexts[i],
                b.contexts[i],
            ),
    ensures
        answer::<AgentSpendPolicyV2>(store, a) == answer::<AgentSpendPolicyV2>(store, b),
{
    lemma_same_but_gated_names(store, a.invocation.contract, a.contexts, b.contexts, a.quotes);
}

proof fn lemma_same_but_gated_names(
    store: StoreView,
    contract: Seq<char>,
    a: Seq<OperationView>,
    b: Seq<OperationView>,
    quotes: Seq<i128>,
)
    requires
        a.len() == b.len(),
        forall|i: int| 0 <= i < a.len() ==> same_but_gated_name(#[trigger] a[i], b[i]),
    ensures
        gated_sum(store, contract, a, quotes) == gated_sum(store, contract, b, quotes),
    decreases a.len(),
{
    if a.len() > 0 {
        assert(same_but_gated_name(a[a.len() - 1], b[a.len() - 1]));
        assert forall|i: int| 0 <= i < a.len() - 1 implies same_but_gated_name(
            #[trigger] a.drop_last()[i],
            b.drop_last()[i],
        ) by {
            assert(same_but_gated_name(a[i], b[i]));
        }
        lemma_same_but_gated_names(store, contract, a.drop_last(), b.drop_last(), quotes);
    }
}

/// On a request of one operation that is no approval, both policies agree.
pub proof fn law_policies_agree_on_single_transfer(store: StoreView, request: Request)
    requires
        request.contexts.len() == 1,
        request.contexts[0] matches OperationView::Call { fn_name, .. } ==> fn_name != "approve"@,
    ensures
        answer::<AgentSpendPolicy>(store, request) == answer::<AgentSpendPolicyV2>(store, request),
{
    let contract = request.invocation.contract;
    let contexts = request.contexts;
    reveal_with_fuel(gated_sum, 2);
    reveal_with_fuel(first_transfer, 2);
    assert(contexts.drop_last() =~= Seq::<OperationView>::empty());
    assert(contexts.drop_first() =~= Seq::<OperationView>::empty());
}

/// Answers of the router that come after the last one needed change nothing.
pub proof fn law_more_quotes_change_nothing(
    store: StoreView,
    request: Request,
    more: Seq<i128>,
)
    ensures
        ({
            let longer = Request { quotes: request.quotes + more, ..request };
            &&& !(answer::<AgentSpendPolicy>(store, request).1 matches Ok(AuthStepView::Pending(_)))
                ==> answer::<AgentSpendPolicy>(store, longer) == answer::<AgentSpendPolicy>(
                store,
                request,
            )
            &&& !(answer::<AgentSpendPolicyV2>(store, request).1 matches Ok(
                AuthStepView::Pending(_),
            )) ==> answer::<AgentSpendPolicyV2>(store, longer) == answer::<AgentSpendPolicyV2>(
                store,
                request,
            )
        }),
{
    let contract = request.invocation.contract;
    if !(gated_sum(store, contract, request.contexts, request.quotes) matches Ok(
        GatedSumView::Pending(_),
    )) {
        lemma_more_quotes(store, contract, request.contexts, request.quotes, more);
    }
}

proof fn lemma_more_quotes(
    store: StoreView,
    contract: Seq<char>,
    operations: Seq<OperationView>,
    quotes: Seq<i128>,
    more: Seq<i128>,
)
    requires
        !(gated_sum(store, contract, operations, quotes) matches Ok(GatedSumView::Pending(_))),
    ensures
        gated_sum(store, contract, operations, quotes + more) == gated_sum(
            store,
            contract,
            operations,
            quotes,
        ),
    decreases operations.len(),
{
    if operations.len() > 0 {
        lemma_more_quotes(store, contract, operations.drop_last(), quotes, more);
    }
}

/// The router is asked at most once for each operation of a request: with as many answers as
/// operations, there is no further question. The policy on transfers asks once.
pub proof fn law_questions_are_bounded(store: StoreView, request: Request)
    ensures
        answer::<AgentSpendPolicy>(store, request).1 matches Ok(AuthStepView::Pending(_))
            ==> request.quotes.len() == 0,
        answer::<AgentSpendPolicyV2>(store, request).1 matches Ok(AuthStepView::Pending(_))
            ==> request.quotes.len() < request.contexts.len(),
{
    lemma_pending(store, request.invocation.contract, request.contexts, request.quotes);
}

proof fn lemma_pending(
    store: StoreView,
    contract: Seq<char>,
    operations: Seq<OperationView>,
    quotes: Seq<i128>,
)
    ensures
        gated_sum(store, contract, operations, quotes) matches Ok(GatedSumView::Pending(_))
            ==> quotes.len() < operations.len(),
        gated_sum(store, contract, operations, quotes) matches Ok(
            GatedSumView::Total { used, .. },
        ) ==> used <= operations.len(),
    decreases operations.len(),
{
    if operations.len() > 0 {
        lemma_pending(store, contract, operations.drop_last(), quotes);
    }
}

/// What two batches of operations come to is what they come to together, each with its own
/// answers of the router.
pub proof fn law_batches_add_up(
    store: StoreView,
    contract: Seq<char>,
    a: Seq<OperationView>,
    quotes_a: Seq<i128>,
    total_a: i128,
    b: Seq<OperationView>,
    quotes_b: Seq<i128>,
    total_b: i128,
)
    requires
        gated_sum(store, contract, a, quotes_a) == Ok::<GatedSumView, PolicyError>(
            GatedSumView::Total { total: total_a, used: quotes_a.len() },
        ),
        gated_sum(store, contract, b, quotes_b) == Ok::<GatedSumView, PolicyError>(
            GatedSumView::Total { total: total_b, used: quotes_b.len() },
        ),
        total_a + total_b <= i128::MAX,
    ensures
        gated_sum(store, contract, a + b, quotes_a + quotes_b) == Ok::<GatedSumView, PolicyError>(
            GatedSumView::Total {
                total: (total_a + total_b) as i128,
                used: quotes_a.len() + quotes_b.len(),
            },
        ),
{
    lemma_more_quotes(store, contract, a, quotes_a, quotes_b);
    lemma_batches(store, contract, a, quotes_a, total_a, b, quotes_b, total_b, quotes_b.len());
}

proof fn lemma_batches(
    store: StoreView,
    contract: Seq<char>,
    a: Seq<OperationView>,
    quotes_a: Seq<i128>,
    total_a: i128,
    b: Seq<OperationView>,
    quotes_b: Seq<i128>,
    total_b: i128,
    used_b: nat,
)
    requires
        gated_sum(store, contract, a, quotes_a + quotes_b) == Ok::<GatedSumView, PolicyError>(
            GatedSumView::Total { total: total_a, used: quotes_a.len() },
        ),
        gated_sum(store, contract, b, quotes_b) == Ok::<GatedSumView, PolicyError>(
            GatedSumView::Total { total: total_b, used: used_b },
        ),
        total_a + total_b <= i128::MAX,
    ensures
        gated_sum(store, contract, a + b, quotes_a + quotes_b) == Ok::<GatedSumView, PolicyError>(
            GatedSumView::Total {
                total: (total_a + total_b) as i128,
                used: quotes_a.len() + used_b,
            },
        ),
    decreases b.len(),
{
    if b.len() == 0 {
        assert(a + b =~= a);
    } else {
        assert((a + b).drop_last() =~= a + b.drop_last());
        assert((a + b).last() == b.last());
        lemma_total_not_negative(store, contract, a, quotes_a + quotes_b);
        lemma_total_not_negative(store, contract, b.drop_last(), quotes_b);
        match gated_sum(store, contract, b.drop_last(), quotes_b) {
            Ok(GatedSumView::Total { total: total1, used: used1 }) => {
                law_every_gated_call_counts(store, contract, b, quotes_b, total_b, used_b);
                lemma_batches(
                    store,
                    contract,
                    a,
                    quotes_a,
                    total_a,
                    b.drop_last(),
                    quotes_b,
                    total1,
                    used1,
                );
                if used1 < quotes_b.len() {
                    assert((quotes_a + quotes_b)[(quotes_a.len() + used1) as int]
                        == quotes_b[used1 as int]);
                }
            },
            _ => {},
        }
    }
}

/// The policy on transfers goes by the first call of `transfer` with an amount for its third
/// argument, whatever the operations before it are.
pub proof fn law_first_transfer_is_found(
    contract: Seq<char>,
    operations: Seq<OperationView>,
    i: int,
    token: Seq<char>,
    amount: i128,
)
    requires
        0 <= i < operations.len(),
        is_call_of(operations[i], "transfer"@, token, amount),
        forall|j: int| 0 <= j < i ==> passed_over(#[trigger] operations[j]),
    ensures
        first_transfer(contract, operations) == Ok::<(Seq<char>, i128), PolicyError>(
            (token, amount),
        ),
    decreases operations.len(),
{
    if i > 0 {
        let rest = operations.drop_first();
        assert(passed_over(operations[0]));
        assert forall|j: int| 0 <= j < i - 1 implies passed_over(#[trigger] rest[j]) by {
            assert(passed_over(operations[j + 1]));
        }
        law_first_transfer_is_found(contract, rest, i - 1, token, amount);
    }
}

/// Where no operation is a transfer, the policy on transfers goes by an amount of 0. An item
/// that is no context ends the search before any transfer behind it.
pub proof fn law_search_without_transfer(
    contract: Seq<char>,
    operations: Seq<OperationView>,
    i: int,
)
    requires
        0 <= i <= operations.len(),
        forall|j: int| 0 <= j < i ==> passed_over(#[trigger] operations[j]),
    ensures
        i == operations.len() ==> first_transfer(contract, operations) == Ok::<
            (Seq<char>, i128),
            PolicyError,
        >((contract, 0)),
        i < operations.len() && operations[i] is Invalid ==> first_transfer(contract, operations)
            == Err::<(Seq<char>, i128), PolicyError>(PolicyError::InvalidContext),
    decreases operations.len(),
{
    if i > 0 {
        let rest = operations.drop_first();
        assert(passed_over(operations[0]));
        assert forall|j: int| 0 <= j < i - 1 implies passed_over(#[trigger] rest[j]) by {
            assert(passed_over(operations[j + 1]));
        }
        law_search_without_transfer(contract, rest, i - 1);
    }
}

/// The policy on transfers answers a request as it answers its first transfer alone.
pub proof fn law_first_transfer_alone(
    store: StoreView,
    request: Request,
    i: int,
    token: Seq<char>,
    amount: i128,
)
    requires
        0 <= i < request.contexts.len(),
        is_call_of(request.contexts[i], "transfer"@, token, amount),
        forall|j: int| 0 <= j < i ==> passed_over(#[trigger] request.contexts[j]),
    ensures
        answer::<AgentSpendPolicy>(store, request) == answer::<AgentSpendPolicy>(
            store,
            Request { contexts: seq![request.contexts[i]], ..request },
        ),
{
    let contract = request.invocation.contract;
    let alone = seq![request.contexts[i]];
    law_first_transfer_is_found(contract, request.contexts, i, token, amount);
    law_first_transfer_is_found(contract, alone, 0, token, amount);
}

/// Whether an outcome answers a value: one of 0 or less is denied, any other is charged.
pub open spec fn answered_value(
    store: StoreView,
    invocation: InvocationView,
    source: Seq<char>,
    value: i128,
    outcome: Outcome,
) -> bool {
    if value <= 0 {
        outcome == (store, Ok::<AuthStepView, PolicyError>(AuthStepView::Denied))
    } else {
        outcome == charged(store, invocation.sequence, source, value)
    }
}

/// Once the first transfer is known, an amount of 0 passes without a record. Any other amount
/// is valued, with the router's first answer if there is one: a question to the router is put,
/// an error is passed on, a value of 0 or less is denied, and any other value is charged.
pub proof fn law_transfer_is_valued(
    store: StoreView,
    invocation: InvocationView,
    source: Seq<char>,
    token: Seq<char>,
    amount: i128,
    quotes: Seq<i128>,
    quote: Option<i128>,
    error: PolicyError,
    request: QuoteRequestView,
    value: i128,
)
    requires
        quotes.len() == 0 ==> quote is None,
        quotes.len() > 0 ==> quote == Some(quotes[0]),
    ensures
        transfer_answer(store, invocation, source, Err(error), quotes) == (
            store,
            Err::<AuthStepView, PolicyError>(error),
        ),
        ({
            let outcome = transfer_answer(store, invocation, source, Ok((token, amount)), quotes);
            let worth = usdc_value(store, invocation.contract, token, amount, quote);
            &&& amount == 0 ==> outcome == (
                store,
                Ok::<AuthStepView, PolicyError>(AuthStepView::Allowed(None)),
            )
            &&& amount != 0 && worth == Err::<ValuationView, PolicyError>(error) ==> outcome == (
                store,
                Err::<AuthStepView, PolicyError>(error),
            )
            &&& amount != 0 && worth == Ok::<ValuationView, PolicyError>(
                ValuationView::Pending(request),
            ) ==> outcome == (
                store,
                Ok::<AuthStepView, PolicyError>(AuthStepView::Pending(request)),
            )
            &&& amount != 0 && (worth == Ok::<ValuationView, PolicyError>(
                ValuationView::Known(value),
            ) || worth == Ok::<ValuationView, PolicyError>(ValuationView::Quoted(value)))
                ==> answered_value(store, invocation, source, value, outcome)
        }),
{
}

/// A request that its source has authorised is answered, while the instance is not paused, by
/// its first transfer, and by the policy on transfers and approvals by its total. One that the
/// source has not authorised is refused.
pub proof fn law_requests_are_answered(store: StoreView, request: Request)
    ensures
        request.invocation.auth != request.source ==> {
            &&& answer::<AgentSpendPolicy>(store, request) == (
                store,
                Err::<AuthStepView, PolicyError>(PolicyError::Unauthorized),
            )
            &&& answer::<AgentSpendPolicyV2>(store, request) == (
                store,
                Err::<AuthStepView, PolicyError>(PolicyError::Unauthorized),
            )
        },
        request.invocation.auth == request.source && store.paused == Some(true) ==> {
            &&& answer::<AgentSpendPolicy>(store, request) == (
                store,
                Ok::<AuthStepView, PolicyError>(AuthStepView::Denied),
            )
            &&& answer::<AgentSpendPolicyV2>(store, request) == (
                store,
                Ok::<AuthStepView, PolicyError>(AuthStepView::Denied),
            )
        },
        request.invocation.auth == request.source && store.paused != Some(true) ==> {
            &&& answer::<AgentSpendPolicy>(store, request) == transfer_answer(
                store,
                request.invocation,
                request.source,
                first_transfer(request.invocation.contract, request.contexts),
                request.quotes,
            )
            &&& answer::<AgentSpendPolicyV2>(store, request) == sum_answer(
                store,
                request.invocation,
                request.source,
                gated_sum(
                    store,
                    request.invocation.contract,
                    request.contexts,
                    request.quotes,
                ),
            )
        },
{
}

/// Operations that have been read are answered in the same way, whoever has authorised the
/// invocation.
pub proof fn law_operations_are_answered(
    store: StoreView,
    invocation: InvocationView,
    source: Seq<char>,
    operations: Seq<OperationView>,
    quotes: Seq<i128>,
)
    ensures
        store.paused == Some(true) ==> {
            &&& transfer_decision(store, invocation, source, operations, quotes) == (
                store,
                Ok::<AuthStepView, PolicyError>(AuthStepView::Denied),
            )
            &&& gated_decision(store, invocation, source, operations, quotes) == (
                store,
                Ok::<AuthStepView, PolicyError>(AuthStepView::Denied),
            )
        },
        store.paused != Some(true) ==> {
            &&& transfer_decision(store, invocation, source, operations, quotes)
                == transfer_answer(
                store,
                invocation,
                source,
                first_transfer(invocation.contract, operations),
                quotes,
            )
            &&& gated_decision(store, invocation, source, operations, quotes) == sum_answer(
                store,
                invocation,
                source,
                gated_sum(store, invocation.contract, operations, quotes),
            )
        },
{
}

/// A total of 0 passes without a record, and any other is charged. A request that was rejected
/// is denied; a question to the router is put, and an error passed on.
pub proof fn law_total_is_answered(
    store: StoreView,
    invocation: InvocationView,
    source: Seq<char>,
    total: i128,
    used: nat,
    request: QuoteRequestView,
    error: PolicyError,
)
    ensures
        total == 0 ==> sum_answer(
            store,
            invocation,
            source,
            Ok(GatedSumView::Total { total, used }),
        ) == (store, Ok::<AuthStepView, PolicyError>(AuthStepView::Allowed(None))),
        total != 0 ==> answered_value(
            store,
            invocation,
            source,
            total,
            sum_answer(store, invocation, source, Ok(GatedSumView::Total { total, used })),
        ),
        sum_answer(store, invocation, source, Ok(GatedSumView::Rejected)) == (
            store,
            Ok::<AuthStepView, PolicyError>(AuthStepView::Denied),
        ),
        sum_answer(store, invocation, source, Ok(GatedSumView::Pending(request))) == (
            store,
            Ok::<AuthStepView, PolicyError>(AuthStepView::Pending(request)),
        ),
        sum_answer(store, invocation, source, Err(error)) == (
            store,
            Err::<AuthStepView, PolicyError>(error),
        ),
{
}

/// Whether a count has come to a total that can grow.
pub open spec fn comes_to(
    sum: Result<GatedSumView, PolicyError>,
    total: i128,
    used: nat,
) -> bool {
    sum == Ok::<GatedSumView, PolicyError>(GatedSumView::Total { total, used })
}

/// Whether a count goes on from `total` with a value: one of 0 or less rejects the request, and
/// any other is added.
pub open spec fn goes_on(
    sum: Result<GatedSumView, PolicyError>,
    total: i128,
    value: i128,
    used: nat,
) -> bool {
    if value <= 0 {
        sum == Ok::<GatedSumView, PolicyError>(GatedSumView::Rejected)
    } else if total + value > i128::MAX {
        sum == Err::<GatedSumView, PolicyError>(PolicyError::Overflow)
    } else {
        comes_to(sum, (total + value) as i128, used)
    }
}

/// What one more operation does to the total of the operations before it.
///
/// An item that is no context is an error. A call of `transfer` or `approve` counts with exactly
/// its third argument, whatever its size, at what that amount of the token is worth; the next
/// answer of the router goes to the next call that needs one. Everything else, and the amount 0,
/// leaves the total as it is.
pub proof fn law_one_more_operation(
    store: StoreView,
    contract: Seq<char>,
    operations: Seq<OperationView>,
    operation: OperationView,
    quotes: Seq<i128>,
    total: i128,
    used: nat,
    token: Seq<char>,
    amount: i128,
    quote: Option<i128>,
    error: PolicyError,
    request: QuoteRequestView,
    value: i128,
)
    requires
        comes_to(gated_sum(store, contract, operations, quotes), total, used),
        used < quotes.len() ==> quote == Some(quotes[used as int]),
        used >= quotes.len() ==> quote is None,
    ensures
        ({
            let sum = gated_sum(store, contract, operations.push(operation), quotes);
            let worth = usdc_value(store, contract, token, amount, quote);
            &&& operation is Invalid ==> sum == Err::<GatedSumView, PolicyError>(
                PolicyError::InvalidContext,
            )
            &&& counts_for_nothing(operation) ==> comes_to(sum, total, used)
            &&& moves(operation, token, amount) && amount == 0 ==> comes_to(sum, total, used)
            &&& moves(operation, token, amount) && amount != 0 && worth == Err::<
                ValuationView,
                PolicyError,
            >(error) ==> sum == Err::<GatedSumView, PolicyError>(error)
            &&& moves(operation, token, amount) && amount != 0 && worth == Ok::<
                ValuationView,
                PolicyError,
            >(ValuationView::Pending(request)) ==> sum == Ok::<GatedSumView, PolicyError>(
                GatedSumView::Pending(request),
            )
            &&& moves(operation, token, amount) && amount != 0 && worth == Ok::<
                ValuationView,
                PolicyError,
            >(ValuationView::Known(value)) ==> goes_on(sum, total, value, used)
            &&& moves(operation, token, amount) && amount != 0 && worth == Ok::<
                ValuationView,
                PolicyError,
            >(ValuationView::Quoted(value)) ==> goes_on(sum, total, value, used + 1)
        }),
{
    assert(operations.push(operation).drop_last() =~= operations);
    assert(operations.push(operation).last() == operation);
}

/// A count starts from nothing, and one that has ended stays as it is whatever comes after.
pub proof fn law_a_count_begins_and_ends(
    store: StoreView,
    contract: Seq<char>,
    operations: Seq<OperationView>,
    operation: OperationView,
    quotes: Seq<i128>,
)
    ensures
        comes_to(gated_sum(store, contract, Seq::empty(), quotes), 0, 0),
        !(gated_sum(store, contract, operations, quotes) matches Ok(GatedSumView::Total { .. }))
            ==> gated_sum(store, contract, operations.push(operation), quotes) == gated_sum(
            store,
            contract,
            operations,
            quotes,
        ),
{
    assert(operations.push(operation).drop_last() =~= operations);
}

/// What counts for nothing can stand anywhere in a request: the total is the same without it.
pub proof fn law_what_counts_for_nothing_can_go(
    store: StoreView,
    contract: Seq<char>,
    a: Seq<OperationView>,
    operation: OperationView,
    b: Seq<OperationView>,
    quotes: Seq<i128>,
)
    requires
        counts_for_nothing(operation),
    ensures
        gated_sum(store, contract, a.push(operation) + b, quotes) == gated_sum(
            store,
            contract,
            a + b,
            quotes,
        ),
    decreases b.len(),
{
    if b.len() == 0 {
        assert(a.push(operation) + b =~= a.push(operation));
        assert(a.push(operation).drop_last() =~= a);
        assert(a + b =~= a);
    } else {
        assert((a.push(operation) + b).drop_last() =~= a.push(operation) + b.drop_last());
        assert((a + b).drop_last() =~= a + b.drop_last());
        law_what_counts_for_nothing_can_go(store, contract, a, operation, b.drop_last(), quotes);
    }
}

/// What a wallet has spent on the day of a request, as the storage holds it.
pub open spec fn spent_before(store: StoreView, request: Request) -> int {
    let entry = (request.source, (request.invocation.sequence as u64 / 17_280u64) as u64);
    if store.daily_spend.contains_key(entry) {
        store.daily_spend[entry] as int
    } else {
        0
    }
}

/// The daily limit, as the storage holds it.
pub open spec fn limit_of(store: StoreView) -> int {
    match store.daily_limit_usdc {
        Some(limit) => limit as int,
        None => 0,
    }
}

/// A transfer and an approval of USDC count in full: a request that holds one of more than what
/// is left of the budget is not authorised, whatever else is in it, and leaves no trace.
pub proof fn law_usdc_above_budget_is_refused(
    store: StoreView,
    request: Request,
    i: int,
    usdc: Seq<char>,
    amount: i128,
)
    requires
        0 <= i < request.contexts.len(),
        store.usdc_addr == Some(usdc),
        moves(request.contexts[i], usdc, amount),
        0 < amount,
        spent_before(store, request) + amount > limit_of(store),
    ensures
        answer::<AgentSpendPolicyV2>(store, request).0 == store,
        !(answer::<AgentSpendPolicyV2>(store, request).1 matches Ok(AuthStepView::Allowed(_))),
{
    lemma_usdc_counts_in_full(
        store,
        request.invocation.contract,
        request.contexts,
        request.quotes,
        i,
        usdc,
        amount,
    );
}

proof fn lemma_usdc_counts_in_full(
    store: StoreView,
    contract: Seq<char>,
    operations: Seq<OperationView>,
    quotes: Seq<i128>,
    i: int,
    usdc: Seq<char>,
    amount: i128,
)
    requires
        0 <= i < operations.len(),
        store.usdc_addr == Some(usdc),
        moves(operations[i], usdc, amount),
        0 < amount,
    ensures
        gated_sum(store, contract, operations, quotes) matches Ok(
            GatedSumView::Total { total, .. },
        ) ==> amount <= total,
    decreases operations.len(),
{
    let before = operations.drop_last();
    lemma_total_not_negative(store, contract, before, quotes);
    if i < before.len() {
        lemma_usdc_counts_in_full(store, contract, before, quotes, i, usdc, amount);
    }
}

/// The answer to a request of one transfer or approval of USDC: nothing is recorded of the
/// amount 0, a negative amount is denied, and any other is recorded in full where the limit
/// allows it, and denied where it does not. The policy on transfers answers a transfer so too.
pub proof fn law_one_usdc_call(
    store: StoreView,
    request: Request,
    usdc: Seq<char>,
    amount: i128,
)
    requires
        request.invocation.auth == request.source,
        store.paused != Some(true),
        store.usdc_addr == Some(usdc),
        request.contexts.len() == 1,
        moves(request.contexts[0], usdc, amount),
    ensures
        one_usdc_call(store, request, amount, answer::<AgentSpendPolicyV2>(store, request)),
        is_call_of(request.contexts[0], "transfer"@, usdc, amount) ==> one_usdc_call(
            store,
            request,
            amount,
            answer::<AgentSpendPolicy>(store, request),
        ),
{
    reveal_with_fuel(gated_sum, 2);
    reveal_with_fuel(first_transfer, 2);
    assert(request.contexts.drop_last() =~= Seq::<OperationView>::empty());
}

/// Whether an outcome is the answer to one transfer or approval of USDC.
pub open spec fn one_usdc_call(
    store: StoreView,
    request: Request,
    amount: i128,
    outcome: Outcome,
) -> bool {
    let spent = spent_before(store, request) + amount;
    if amount == 0 {
        outcome == (store, Ok::<AuthStepView, PolicyError>(AuthStepView::Allowed(None)))
    } else if amount < 0 {
        outcome == (store, Ok::<AuthStepView, PolicyError>(AuthStepView::Denied))
    } else if spent > i128::MAX {
        outcome == (store, Err::<AuthStepView, PolicyError>(PolicyError::Overflow))
    } else if spent > limit_of(store) {
        outcome == (store, Ok::<AuthStepView, PolicyError>(AuthStepView::Denied))
    } else {
        &&& outcome.1 matches Ok(AuthStepView::Allowed(Some(commit))) && commit.spent == spent
        &&& outcome.0 == StoreView {
            daily_spend: store.daily_spend.insert(
                (request.source, (request.invocation.sequence as u64 / 17_280u64) as u64),
                spent as i128,
            ),
            ..store
        }
    }
}

} // verus!
