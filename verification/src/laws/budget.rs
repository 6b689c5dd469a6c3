//! What a wallet may spend, and what is recorded of it.
use vstd::prelude::*;

use crate::agent_spend_policy::{first_transfer, AgentSpendPolicy};
use crate::agent_spend_policy_v2::{
    gated_sum, lemma_total_not_negative, AgentSpendPolicyV2, GatedSumView,
};
use crate::context::OperationView;
use crate::keys::{day_of, spend_ttl, DataKeyView, TtlExtensionView};
use crate::policy::{
    charged, source_check, AuthStepView, CommitView, InvocationView, Outcome, SmartAccountPolicy,
};
use crate::store::{PolicyError, StoreView};
use crate::valuation::{usdc_value, ValuationView};

verus! {

/// A request that a wallet makes of a policy.
pub struct Request {
    pub invocation: InvocationView,
    pub source: Seq<char>,
    pub contexts: Seq<OperationView>,
    pub quotes: Seq<i128>,
}

/// What policy `P` answers to a request, and the storage that it leaves.
pub open spec fn answer<P: SmartAccountPolicy>(store: StoreView, request: Request) -> Outcome {
    P::decision(store, request.invocation, request.source, request.contexts, request.quotes)
}

/// The storage that policy `P` leaves after a run of requests.
pub open spec fn run<P: SmartAccountPolicy>(store: StoreView, requests: Seq<Request>) -> StoreView
    decreases requests.len(),
{
    if requests.len() == 0 {
        store
    } else {
        answer::<P>(run::<P>(store, requests.drop_last()), requests.last()).0
    }
}

/// Whether an outcome records a spend.
pub open spec fn records(outcome: Outcome) -> bool {
    outcome.1 matches Ok(AuthStepView::Allowed(Some(_)))
}

/// The spend entry that a request is charged to.
pub open spec fn entry_of(request: Request) -> (Seq<char>, u64) {
    (request.source, day_of(request.invocation.sequence))
}

/// Whether an outcome is what charging some positive value leaves, or leaves everything as it
/// was.
spec fn charges_or_keeps(store: StoreView, request: Request, outcome: Outcome) -> bool {
    ||| outcome.0 == store && !records(outcome)
    ||| exists|value: i128|
        0 < value && outcome == #[trigger] charged(
            store,
            request.invocation.sequence,
            request.source,
            value,
        )
}

proof fn lemma_answers(store: StoreView, request: Request)
    ensures
        charges_or_keeps(store, request, answer::<AgentSpendPolicy>(store, request)),
        charges_or_keeps(store, request, answer::<AgentSpendPolicyV2>(store, request)),
{
    lemma_total_not_negative(
        store,
        request.invocation.contract,
        request.contexts,
        request.quotes,
    );
}

/// Whether an outcome records a spend within the limit, or leaves everything as it was.
pub open spec fn keeps_limit(store: StoreView, request: Request, outcome: Outcome) -> bool {
    let (wallet, day) = entry_of(request);
    match outcome.1 {
        Ok(AuthStepView::Allowed(Some(commit))) => {
            &&& outcome.0 == StoreView {
                daily_spend: store.daily_spend.insert((wallet, day), commit.spent),
                ..store
            }
            &&& commit.key == DataKeyView::DailySpend(wallet, day)
            &&& commit.ttl == spend_ttl(wallet, day)
            &&& store.spent(wallet, day) < commit.spent <= store.daily_limit()
        },
        _ => outcome.0 == store,
    }
}

/// A request is either recorded, in the entry of its wallet and day and nowhere else, or
/// leaves the storage as it was. What is recorded exceeds what the wallet had spent, and does
/// not exceed the daily limit.
pub proof fn law_limit_holds(store: StoreView, request: Request)
    ensures
        keeps_limit(store, request, answer::<AgentSpendPolicy>(store, request)),
        keeps_limit(store, request, answer::<AgentSpendPolicyV2>(store, request)),
{
    lemma_answers(store, request);
}

/// Over any run of requests, what a wallet has spent on a day never falls, and never rises
/// above the daily limit: not at all where it stands above a limit that was lowered.
pub proof fn law_limit_holds_over_runs(
    store: StoreView,
    requests: Seq<Request>,
    wallet: Seq<char>,
    day: u64,
)
    ensures
        within_limit(store, run::<AgentSpendPolicy>(store, requests), wallet, day),
        within_limit(store, run::<AgentSpendPolicyV2>(store, requests), wallet, day),
    decreases requests.len(),
{
    if requests.len() > 0 {
        let before = requests.drop_last();
        law_limit_holds_over_runs(store, before, wallet, day);
        law_limit_holds(run::<AgentSpendPolicy>(store, before), requests.last());
        law_limit_holds(run::<AgentSpendPolicyV2>(store, before), requests.last());
    }
}

/// Whether a wallet's spend on a day has gone from one storage to another as the limit
/// allows, the limit being the same in both.
pub open spec fn within_limit(
    before: StoreView,
    after: StoreView,
    wallet: Seq<char>,
    day: u64,
) -> bool {
    &&& after.daily_limit() == before.daily_limit()
    &&& before.spent(wallet, day) <= after.spent(wallet, day)
    &&& after.spent(wallet, day) <= before.daily_limit() || after.spent(wallet, day)
        == before.spent(wallet, day)
}

/// What the policy on transfers takes a request to be worth: the value of its first transfer,
/// 0 where there is none or it has no value yet.
pub open spec fn transfer_worth(store: StoreView, request: Request) -> int {
    match first_transfer(request.invocation.contract, request.contexts) {
        Ok((token, amount)) if amount != 0 => {
            let quote = if request.quotes.len() > 0 {
                Some(request.quotes[0])
            } else {
                None
            };
            match usdc_value(store, request.invocation.contract, token, amount, quote) {
                Ok(ValuationView::Known(value)) | Ok(ValuationView::Quoted(value)) => value as int,
                _ => 0,
            }
        },
        _ => 0,
    }
}

/// What the policy on transfers and approvals takes a request to be worth: the total of its
/// gated calls, 0 where they come to none.
pub open spec fn gated_worth(store: StoreView, request: Request) -> int {
    match gated_sum(store, request.invocation.contract, request.contexts, request.quotes) {
        Ok(GatedSumView::Total { total, .. }) => total as int,
        _ => 0,
    }
}

/// Whether an outcome authorises the request.
pub open spec fn authorizes(outcome: Outcome) -> bool {
    outcome.1 matches Ok(AuthStepView::Allowed(_))
}

/// The sum of what those requests of a run are worth that policy `P` authorises and that are
/// charged to one wallet and day.
pub open spec fn authorized_worth<P: SmartAccountPolicy>(
    store: StoreView,
    requests: Seq<Request>,
    worth: spec_fn(Request) -> int,
    wallet: Seq<char>,
    day: u64,
) -> int
    decreases requests.len(),
{
    if requests.len() == 0 {
        0
    } else {
        let before = requests.drop_last();
        let last = requests.last();
        authorized_worth::<P>(store, before, worth, wallet, day) + if authorizes(
            answer::<P>(run::<P>(store, before), last),
        ) && entry_of(last) == (wallet, day) {
            worth(last)
        } else {
            0
        }
    }
}

/// Over any run of requests, what a wallet has spent on a day grows by exactly what its
/// authorised requests of that day are worth.
pub proof fn law_spend_is_what_was_authorized(
    store: StoreView,
    requests: Seq<Request>,
    wallet: Seq<char>,
    day: u64,
)
    ensures
        run::<AgentSpendPolicy>(store, requests).spent(wallet, day) == store.spent(wallet, day)
            + authorized_worth::<AgentSpendPolicy>(
            store,
            requests,
            |request: Request| transfer_worth(store, request),
            wallet,
            day,
        ),
        run::<AgentSpendPolicyV2>(store, requests).spent(wallet, day) == store.spent(wallet, day)
            + authorized_worth::<AgentSpendPolicyV2>(
            store,
            requests,
            |request: Request| gated_worth(store, request),
            wallet,
            day,
        ),
    decreases requests.len(),
{
    if requests.len() > 0 {
        let before = requests.drop_last();
        let last = requests.last();
        law_spend_is_what_was_authorized(store, before, wallet, day);
        lemma_settings_stay(store, before);
        let after1 = run::<AgentSpendPolicy>(store, before);
        law_limit_holds(after1, last);
        let after2 = run::<AgentSpendPolicyV2>(store, before);
        law_limit_holds(after2, last);
        lemma_same_sum(after2, store, last.invocation.contract, last.contexts, last.quotes);
    }
}

/// A run of requests changes nothing but the spend entries.
proof fn lemma_settings_stay(store: StoreView, requests: Seq<Request>)
    ensures
        run::<AgentSpendPolicy>(store, requests) == (StoreView {
            daily_spend: run::<AgentSpendPolicy>(store, requests).daily_spend,
            ..store
        }),
        run::<AgentSpendPolicyV2>(store, requests) == (StoreView {
            daily_spend: run::<AgentSpendPolicyV2>(store, requests).daily_spend,
            ..store
        }),
    decreases requests.len(),
{
    if requests.len() > 0 {
        let before = requests.drop_last();
        lemma_settings_stay(store, before);
        law_limit_holds(run::<AgentSpendPolicy>(store, before), requests.last());
        law_limit_holds(run::<AgentSpendPolicyV2>(store, before), requests.last());
    }
}

/// Wallets have budgets of their own, and so have days: a request neither changes what another
/// wallet has spent, nor what its own wallet has spent on another day.
pub proof fn law_other_entries_untouched(
    store: StoreView,
    request: Request,
    wallet: Seq<char>,
    day: u64,
)
    requires
        (wallet, day) != entry_of(request),
    ensures
        answer::<AgentSpendPolicy>(store, request).0.spent(wallet, day) == store.spent(wallet, day),
        answer::<AgentSpendPolicyV2>(store, request).0.spent(wallet, day) == store.spent(
            wallet,
            day,
        ),
{
    law_limit_holds(store, request);
}

/// What counts for the answer to a request, of all that is recorded, is what its wallet has
/// spent on its day: with other records of other wallets and days the answer is the same.
pub proof fn law_only_own_entry_counts(
    store: StoreView,
    daily_spend: Map<(Seq<char>, u64), i128>,
    request: Request,
)
    requires
        ({
            let (wallet, day) = entry_of(request);
            (StoreView { daily_spend, ..store }).spent(wallet, day) == store.spent(wallet, day)
        }),
    ensures
        answer::<AgentSpendPolicy>(StoreView { daily_spend, ..store }, request).1 == answer::<
            AgentSpendPolicy,
        >(store, request).1,
        answer::<AgentSpendPolicyV2>(StoreView { daily_spend, ..store }, request).1 == answer::<
            AgentSpendPolicyV2,
        >(store, request).1,
{
    lemma_same_sum(
        StoreView { daily_spend, ..store },
        store,
        request.invocation.contract,
        request.contexts,
        request.quotes,
    );
}

/// A sum depends on the USDC contract, the router and the prices alone.
proof fn lemma_same_sum(
    store: StoreView,
    other: StoreView,
    contract: Seq<char>,
    operations: Seq<OperationView>,
    quotes: Seq<i128>,
)
    requires
        store.usdc_addr == other.usdc_addr,
        store.router_addr == other.router_addr,
        store.price_map == other.price_map,
    ensures
        gated_sum(store, contract, operations, quotes) == gated_sum(
            other,
            contract,
            operations,
            quotes,
        ),
    decreases operations.len(),
{
    if operations.len() > 0 {
        lemma_same_sum(store, other, contract, operations.drop_last(), quotes);
    }
}

/// A pause leaves no trace once it is over: the answer to a request, and what it records, are
/// what they would have been without it.
pub proof fn law_unpause_restores(store: StoreView, auth: Seq<char>, request: Request)
    requires
        store.admin == Some(auth),
        !store.is_paused(),
    ensures
        ({
            let after = store.set_paused(auth, true).0.set_paused(auth, false).0;
            &&& answer::<AgentSpendPolicy>(after, request).1 == answer::<AgentSpendPolicy>(
                store,
                request,
            ).1
            &&& answer::<AgentSpendPolicy>(after, request).0.daily_spend == answer::<
                AgentSpendPolicy,
            >(store, request).0.daily_spend
            &&& answer::<AgentSpendPolicyV2>(after, request).1 == answer::<AgentSpendPolicyV2>(
                store,
                request,
            ).1
            &&& answer::<AgentSpendPolicyV2>(after, request).0.daily_spend == answer::<
                AgentSpendPolicyV2,
            >(store, request).0.daily_spend
        }),
{
    let after = store.set_paused(auth, true).0.set_paused(auth, false).0;
    lemma_same_sum(
        after,
        store,
        request.invocation.contract,
        request.contexts,
        request.quotes,
    );
}

/// A value is charged if and only if what is left of the budget covers it, and then comes off
/// what is left. The bounds of an `i128` aside, nothing else can refuse it.
pub proof fn law_charged_within_remaining(
    store: StoreView,
    sequence: u32,
    wallet: Seq<char>,
    value: i128,
)
    requires
        0 < value,
        store.spent(wallet, day_of(sequence)) + value <= i128::MAX,
    ensures
        ({
            let day = day_of(sequence);
            let outcome = charged(store, sequence, wallet, value);
            &&& records(outcome) <==> value <= store.remaining(wallet, day)
            &&& records(outcome) ==> outcome.0.remaining(wallet, day) == store.remaining(
                wallet,
                day,
            ) - value
            &&& records(outcome) ==> outcome.0.spent(wallet, day) == store.spent(wallet, day)
                + value
            &&& !records(outcome) ==> outcome == (
                store,
                Ok::<AuthStepView, PolicyError>(AuthStepView::Denied),
            )
        }),
{
}

/// What is spent and what is left make up the limit, as long as no more than the limit is
/// spent; what is left is never negative.
pub proof fn law_spent_and_remaining(store: StoreView, wallet: Seq<char>, day: u64)
    ensures
        0 <= store.remaining(wallet, day),
        store.spent(wallet, day) <= store.daily_limit() ==> store.spent(wallet, day)
            + store.remaining(wallet, day) == store.daily_limit(),
{
}

/// A day is 17,280 ledgers long, and the ledgers of one day share one entry.
pub proof fn law_day_boundaries(sequence: u32)
    ensures
        day_of(sequence) * 17_280 <= sequence < (day_of(sequence) + 1) * 17_280,
        forall|other: u32|
            day_of(sequence) * 17_280 <= other < (day_of(sequence) + 1) * 17_280
                <==> #[trigger] day_of(other) == day_of(sequence),
{
}

/// On a day without an entry nothing is spent, and the whole limit is left.
pub proof fn law_new_day_starts_full(store: StoreView, wallet: Seq<char>, day: u64)
    requires
        !store.daily_spend.contains_key((wallet, day)),
        0 <= store.daily_limit(),
    ensures
        store.spent(wallet, day) == 0,
        store.remaining(wallet, day) == store.daily_limit(),
{
}

/// A call of a policy instance that can change its storage.
pub enum Call {
    Initialize {
        auth: Seq<char>,
        admin: Seq<char>,
        usdc: Seq<char>,
        router: Seq<char>,
        daily_limit_usdc: i128,
    },
    SetPaused { auth: Seq<char>, paused: bool },
    SetLimit { auth: Seq<char>, new_limit: i128 },
    SetRouter { auth: Seq<char>, router: Seq<char> },
    SetPrice { auth: Seq<char>, token: Seq<char>, usdc_per_unit: i128 },
    SetPrices { auth: Seq<char>, tokens: Seq<Option<Seq<char>>>, prices: Seq<Option<i128>> },
    Authorize(Request),
}

/// The storage that a call of policy `P` leaves.
pub open spec fn after_call<P: SmartAccountPolicy>(store: StoreView, call: Call) -> StoreView {
    match call {
        Call::Initialize { auth, admin, usdc, router, daily_limit_usdc } => store.initialize(
            auth,
            admin,
            usdc,
            router,
            daily_limit_usdc,
        ).0,
        Call::SetPaused { auth, paused } => store.set_paused(auth, paused).0,
        Call::SetLimit { auth, new_limit } => store.set_limit(auth, new_limit).0,
        Call::SetRouter { auth, router } => store.set_router(auth, router).0,
        Call::SetPrice { auth, token, usdc_per_unit } => store.set_price(
            auth,
            token,
            usdc_per_unit,
        ).0,
        Call::SetPrices { auth, tokens, prices } => store.set_prices(auth, tokens, prices).0,
        Call::Authorize(request) => answer::<P>(store, request).0,
    }
}

/// The storage that calls of policy `P` leave in a new instance.
pub open spec fn after_calls<P: SmartAccountPolicy>(calls: Seq<Call>) -> StoreView
    decreases calls.len(),
{
    if calls.len() == 0 {
        StoreView::empty()
    } else {
        after_call::<P>(after_calls::<P>(calls.drop_last()), calls.last())
    }
}

/// Whether a call is made no later than at a ledger. Only a request goes by the ledger that it
/// is made at.
pub open spec fn made_by(call: Call, sequence: u32) -> bool {
    call matches Call::Authorize(request) ==> request.invocation.sequence <= sequence
}

/// After calls up to a ledger, no spend entry is for a day after that ledger's.
pub proof fn law_no_entry_ahead(calls: Seq<Call>, sequence: u32, wallet: Seq<char>, day: u64)
    requires
        forall|i: int| 0 <= i < calls.len() ==> made_by(#[trigger] calls[i], sequence),
        day_of(sequence) < day,
    ensures
        !after_calls::<AgentSpendPolicy>(calls).daily_spend.contains_key((wallet, day)),
        !after_calls::<AgentSpendPolicyV2>(calls).daily_spend.contains_key((wallet, day)),
    decreases calls.len(),
{
    if calls.len() > 0 {
        let before = calls.drop_last();
        let last = calls.last();
        assert forall|i: int| 0 <= i < before.len() implies made_by(
            #[trigger] before[i],
            sequence,
        ) by {
            assert(made_by(calls[i], sequence));
        }
        law_no_entry_ahead(before, sequence, wallet, day);
        assert(made_by(calls[calls.len() - 1], sequence));
        if let Call::Authorize(request) = last {
            law_limit_holds(after_calls::<AgentSpendPolicy>(before), request);
            law_limit_holds(after_calls::<AgentSpendPolicyV2>(before), request);
        }
    }
}

/// The budget comes back with the day: after calls up to a ledger, on any later day, nothing is
/// spent and the whole limit is left.
pub proof fn law_budget_returns_with_the_day(
    calls: Seq<Call>,
    sequence: u32,
    later: u32,
    wallet: Seq<char>,
)
    requires
        forall|i: int| 0 <= i < calls.len() ==> made_by(#[trigger] calls[i], sequence),
        day_of(sequence) < day_of(later),
    ensures
        ({
            let store = after_calls::<AgentSpendPolicy>(calls);
            &&& store.spent(wallet, day_of(later)) == 0
            &&& 0 <= store.daily_limit() ==> store.remaining(wallet, day_of(later))
                == store.daily_limit()
        }),
        ({
            let store = after_calls::<AgentSpendPolicyV2>(calls);
            &&& store.spent(wallet, day_of(later)) == 0
            &&& 0 <= store.daily_limit() ==> store.remaining(wallet, day_of(later))
                == store.daily_limit()
        }),
{
    law_no_entry_ahead(calls, sequence, wallet, day_of(later));
}

/// The lifetime that is asked for a spend entry when it is written reaches past the last
/// ledger of its day.
pub proof fn law_entry_outlives_its_day(sequence: u32, other: u32, wallet: Seq<char>)
    requires
        day_of(other) == day_of(sequence),
    ensures
        other < sequence + spend_ttl(wallet, day_of(sequence)).extend_to,
        spend_ttl(wallet, day_of(sequence)).threshold == spend_ttl(
            wallet,
            day_of(sequence),
        ).extend_to,
{
}

/// What charging a value does, over the entries of the storage.
///
/// The day is the number of the ledger by 17,280. The value is added to the entry of the wallet
/// and that day, which is asked to live for about forty-eight hours more, where the sum is
/// within the limit. It is denied where it is not.
pub proof fn law_charge_adds_to_the_entry(
    store: StoreView,
    sequence: u32,
    wallet: Seq<char>,
    value: i128,
    limit: int,
    before: int,
)
    requires
        limit == (match store.daily_limit_usdc {
            Some(limit) => limit as int,
            None => 0,
        }),
        ({
            let entry = (wallet, (sequence as u64 / 17_280u64) as u64);
            &&& store.daily_spend.contains_key(entry) ==> before == store.daily_spend[entry]
            &&& !store.daily_spend.contains_key(entry) ==> before == 0
        }),
    ensures
        ({
            let day = (sequence as u64 / 17_280u64) as u64;
            let outcome = charged(store, sequence, wallet, value);
            &&& before + value > i128::MAX ==> outcome == (
                store,
                Err::<AuthStepView, PolicyError>(PolicyError::Overflow),
            )
            &&& limit < before + value <= i128::MAX ==> outcome == (
                store,
                Ok::<AuthStepView, PolicyError>(AuthStepView::Denied),
            )
            &&& before + value <= limit && before + value <= i128::MAX ==> {
                let spent = (before + value) as i128;
                &&& outcome.0.daily_spend == store.daily_spend.insert((wallet, day), spent)
                &&& outcome.0.admin == store.admin
                &&& outcome.0.paused == store.paused
                &&& outcome.0.usdc_addr == store.usdc_addr
                &&& outcome.0.router_addr == store.router_addr
                &&& outcome.0.daily_limit_usdc == store.daily_limit_usdc
                &&& outcome.0.price_map == store.price_map
                &&& outcome.1 == Ok::<AuthStepView, PolicyError>(
                    AuthStepView::Allowed(
                        Some(
                            CommitView {
                                key: DataKeyView::DailySpend(wallet, day),
                                spent,
                                ttl: TtlExtensionView {
                                    key: DataKeyView::DailySpend(wallet, day),
                                    threshold: 34_560,
                                    extend_to: 34_560,
                                },
                            },
                        ),
                    ),
                )
            }
        }),
{
}

/// Whatever a wallet is asked about, it has to have authorised.
pub proof fn law_source_must_authorize(auth: Seq<char>, source: Seq<char>)
    ensures
        auth == source ==> source_check(auth, source) == Ok::<(), PolicyError>(()),
        auth != source ==> source_check(auth, source) == Err::<(), PolicyError>(
            PolicyError::Unauthorized,
        ),
{
}

} // verus!
