//! Who may change an instance, and what a change does.
use vstd::prelude::*;

use crate::agent_spend_policy::AgentSpendPolicy;
use crate::agent_spend_policy_v2::AgentSpendPolicyV2;
use crate::context::OperationView;
use crate::keys::{price_ttl, DataKeyView, TtlExtensionView};
use crate::policy::{AuthStepView, InvocationView, SmartAccountPolicy};
use crate::store::{all_some, unwrapped, with_prices, PolicyError, StoreView};

verus! {

/// An instance is set up once: after that, setting it up is refused and changes nothing.
pub proof fn law_initialize_once(
    store: StoreView,
    auth: Seq<char>,
    admin: Seq<char>,
    usdc: Seq<char>,
    router: Seq<char>,
    daily_limit_usdc: i128,
    auth2: Seq<char>,
    admin2: Seq<char>,
    usdc2: Seq<char>,
    router2: Seq<char>,
    daily_limit_usdc2: i128,
)
    requires
        store.initialize(auth, admin, usdc, router, daily_limit_usdc).1 is Ok,
    ensures
        ({
            let after = store.initialize(auth, admin, usdc, router, daily_limit_usdc).0;
            &&& after.admin == Some(admin)
            &&& after.daily_limit() == daily_limit_usdc
            &&& after.initialize(auth2, admin2, usdc2, router2, daily_limit_usdc2) == (
                after,
                Err::<(), PolicyError>(PolicyError::AlreadyInitialized),
            )
        }),
{
}

/// Nothing that can be asked of an instance changes its administrator.
pub proof fn law_admin_is_fixed(
    store: StoreView,
    auth: Seq<char>,
    address: Seq<char>,
    usdc: Seq<char>,
    router: Seq<char>,
    amount: i128,
    paused: bool,
    tokens: Seq<Option<Seq<char>>>,
    prices: Seq<Option<i128>>,
    invocation: InvocationView,
    source: Seq<char>,
    contexts: Seq<OperationView>,
    quotes: Seq<i128>,
)
    requires
        store.admin is Some,
    ensures
        store.initialize(auth, address, usdc, router, amount).0.admin == store.admin,
        store.set_paused(auth, paused).0.admin == store.admin,
        store.set_limit(auth, amount).0.admin == store.admin,
        store.set_router(auth, address).0.admin == store.admin,
        store.set_price(auth, address, amount).0.admin == store.admin,
        store.set_prices(auth, tokens, prices).0.admin == store.admin,
        AgentSpendPolicy::decision(store, invocation, source, contexts, quotes).0.admin
            == store.admin,
        AgentSpendPolicyV2::decision(store, invocation, source, contexts, quotes).0.admin
            == store.admin,
{
}

/// A call that the administrator has not authorised is refused and changes nothing.
pub proof fn law_admin_only(
    store: StoreView,
    auth: Seq<char>,
    address: Seq<char>,
    amount: i128,
    paused: bool,
    tokens: Seq<Option<Seq<char>>>,
    prices: Seq<Option<i128>>,
)
    requires
        store.admin != Some(auth),
    ensures
        ({
            let error = if store.admin is None {
                PolicyError::NotInitialized
            } else {
                PolicyError::Unauthorized
            };
            &&& store.set_paused(auth, paused) == (store, Err::<(), PolicyError>(error))
            &&& store.set_limit(auth, amount) == (store, Err::<(), PolicyError>(error))
            &&& store.set_router(auth, address) == (store, Err::<(), PolicyError>(error))
            &&& store.set_price(auth, address, amount).0 == store
            &&& store.set_price(auth, address, amount).1 == Err::<TtlExtensionView, PolicyError>(
                error,
            )
            &&& store.set_prices(auth, tokens, prices).0 == store
            &&& store.set_prices(auth, tokens, prices).1 == Err::<TtlExtensionView, PolicyError>(
                error,
            )
        }),
{
}

/// The administrator's changes are accepted, and the views give back what was set.
pub proof fn law_settings_read_back(
    store: StoreView,
    auth: Seq<char>,
    router: Seq<char>,
    limit: i128,
    paused: bool,
)
    requires
        store.admin == Some(auth),
    ensures
        store.set_paused(auth, paused).1 is Ok,
        store.set_paused(auth, paused).0.is_paused() == paused,
        store.set_limit(auth, limit).1 is Ok,
        store.set_limit(auth, limit).0.daily_limit() == limit,
        store.set_router(auth, router).1 is Ok,
        store.set_router(auth, router).0.router_addr == Some(router),
{
}

/// A price that was set is the price of its token, and of no other.
pub proof fn law_price_read_back(
    store: StoreView,
    auth: Seq<char>,
    token: Seq<char>,
    usdc_per_unit: i128,
    other: Seq<char>,
)
    requires
        store.admin == Some(auth),
    ensures
        ({
            let after = store.set_price(auth, token, usdc_per_unit).0;
            &&& store.set_price(auth, token, usdc_per_unit).1 == Ok::<
                TtlExtensionView,
                PolicyError,
            >(price_ttl())
            &&& after.cached_price(token) == Some(usdc_per_unit)
            &&& after.price(token) == usdc_per_unit
            &&& other != token ==> after.cached_price(other) == store.cached_price(other)
        }),
{
}

/// Whether `i` is the last place of a token in a list.
pub open spec fn last_place(tokens: Seq<Seq<char>>, token: Seq<char>, i: int) -> bool {
    &&& 0 <= i < tokens.len()
    &&& tokens[i] == token
    &&& forall|j: int| i < j < tokens.len() ==> tokens[j] != token
}

/// A list of prices sets the price of each token in it, the last one where the token occurs
/// more than once, and leaves the others.
pub proof fn law_prices_read_back(
    store: StoreView,
    auth: Seq<char>,
    tokens: Seq<Seq<char>>,
    prices: Seq<i128>,
    token: Seq<char>,
    i: int,
)
    requires
        store.admin == Some(auth),
        tokens.len() == prices.len(),
    ensures
        store.put_prices(auth, tokens, prices).1 == Ok::<TtlExtensionView, PolicyError>(
            price_ttl(),
        ),
        last_place(tokens, token, i) ==> store.put_prices(auth, tokens, prices).0.cached_price(
            token,
        ) == Some(prices[i]),
        !tokens.contains(token) ==> store.put_prices(auth, tokens, prices).0.cached_price(token)
            == store.cached_price(token),
{
    lemma_with_prices(store.prices(), tokens, prices, token, i);
}

/// The last price written for a token stays, and a token without one keeps what it had.
proof fn lemma_with_prices(
    cached: Map<Seq<char>, i128>,
    tokens: Seq<Seq<char>>,
    prices: Seq<i128>,
    token: Seq<char>,
    i: int,
)
    requires
        tokens.len() == prices.len(),
    ensures
        last_place(tokens, token, i) ==> with_prices(cached, tokens, prices).contains_pair(
            token,
            prices[i],
        ),
        !tokens.contains(token) ==> {
            &&& with_prices(cached, tokens, prices).contains_key(token) == cached.contains_key(
                token,
            )
            &&& cached.contains_key(token) ==> with_prices(cached, tokens, prices)[token]
                == cached[token]
        },
    decreases tokens.len(),
{
    if tokens.len() > 0 {
        let n = tokens.len() - 1;
        lemma_with_prices(cached, tokens.drop_last(), prices.drop_last(), token, i);
        if last_place(tokens, token, i) && i < n {
            assert(tokens[n] != token);
            assert forall|j: int| i < j < n implies tokens.drop_last()[j] != token by {
                assert(tokens[j] != token);
            }
        }
        if !tokens.contains(token) {
            assert(tokens[n] != token);
            assert forall|j: int| 0 <= j < n implies tokens.drop_last()[j] != token by {
                assert(tokens[j] != token);
            }
        }
    }
}

/// A list of prices does what setting the first ones and then the last does.
pub proof fn law_prices_one_by_one(
    store: StoreView,
    auth: Seq<char>,
    tokens: Seq<Seq<char>>,
    prices: Seq<i128>,
)
    requires
        store.admin == Some(auth),
        tokens.len() == prices.len(),
        0 < tokens.len(),
    ensures
        store.put_prices(auth, tokens, prices) == store.put_prices(
            auth,
            tokens.drop_last(),
            prices.drop_last(),
        ).0.set_price(auth, tokens.last(), prices.last()),
{
}

/// While an instance is paused, every request is denied, and none leaves a trace.
pub proof fn law_pause_denies_all(
    store: StoreView,
    invocation: InvocationView,
    source: Seq<char>,
    contexts: Seq<OperationView>,
    quotes: Seq<i128>,
)
    requires
        store.is_paused(),
        invocation.auth == source,
    ensures
        AgentSpendPolicy::decision(store, invocation, source, contexts, quotes) == (
            store,
            Ok::<AuthStepView, PolicyError>(AuthStepView::Denied),
        ),
        AgentSpendPolicyV2::decision(store, invocation, source, contexts, quotes) == (
            store,
            Ok::<AuthStepView, PolicyError>(AuthStepView::Denied),
        ),
{
}

/// What setting up an instance does: it needs the authorisation of the administrator-to-be, sets
/// the four settings that it is given, and leaves everything else.
pub proof fn law_initialize_sets_up(
    store: StoreView,
    auth: Seq<char>,
    admin: Seq<char>,
    usdc: Seq<char>,
    router: Seq<char>,
    daily_limit_usdc: i128,
)
    ensures
        ({
            let (after, result) = store.initialize(auth, admin, usdc, router, daily_limit_usdc);
            &&& store.admin is Some ==> after == store && result == Err::<(), PolicyError>(
                PolicyError::AlreadyInitialized,
            )
            &&& store.admin is None && auth != admin ==> after == store && result == Err::<
                (),
                PolicyError,
            >(PolicyError::Unauthorized)
            &&& store.admin is None && auth == admin ==> {
                &&& result == Ok::<(), PolicyError>(())
                &&& after.admin == Some(admin)
                &&& after.usdc_addr == Some(usdc)
                &&& after.router_addr == Some(router)
                &&& after.daily_limit_usdc == Some(daily_limit_usdc)
                &&& after.paused == store.paused
                &&& after.price_map == store.price_map
                &&& after.daily_spend == store.daily_spend
            }
        }),
{
}

/// A change of the administrator's changes what it is about, to what was asked for, and nothing
/// else.
pub proof fn law_changes_are_confined(
    store: StoreView,
    auth: Seq<char>,
    router: Seq<char>,
    limit: i128,
    paused: bool,
)
    requires
        store.admin == Some(auth),
    ensures
        store.set_paused(auth, paused) == (
            StoreView { paused: Some(paused), ..store },
            Ok::<(), PolicyError>(()),
        ),
        store.set_limit(auth, limit) == (
            StoreView { daily_limit_usdc: Some(limit), ..store },
            Ok::<(), PolicyError>(()),
        ),
        store.set_router(auth, router) == (
            StoreView { router_addr: Some(router), ..store },
            Ok::<(), PolicyError>(()),
        ),
{
}

/// Whether a price map holds a price for a token.
pub open spec fn holds_price(
    price_map: Option<Map<Seq<char>, i128>>,
    token: Seq<char>,
    price: i128,
) -> bool {
    price_map is Some && price_map->0.contains_key(token) && price_map->0[token] == price
}

/// Whether a price map holds no price for a token.
pub open spec fn holds_no_price(
    price_map: Option<Map<Seq<char>, i128>>,
    token: Seq<char>,
) -> bool {
    price_map is None || !price_map->0.contains_key(token)
}

/// Whether two storages are the same but for their prices.
pub open spec fn same_but_prices(a: StoreView, b: StoreView) -> bool {
    &&& a.admin == b.admin
    &&& a.paused == b.paused
    &&& a.usdc_addr == b.usdc_addr
    &&& a.router_addr == b.router_addr
    &&& a.daily_limit_usdc == b.daily_limit_usdc
    &&& a.daily_spend == b.daily_spend
}

/// Whether a token has the same price, or none, in two storages.
pub open spec fn same_price(a: StoreView, b: StoreView, token: Seq<char>, price: i128) -> bool {
    &&& holds_price(a.price_map, token, price) <==> holds_price(b.price_map, token, price)
    &&& holds_no_price(a.price_map, token) <==> holds_no_price(b.price_map, token)
}

/// Whether a price update has asked the host for a life of about thirty days for the price map.
pub open spec fn keeps_prices_alive(result: Result<TtlExtensionView, PolicyError>) -> bool {
    result == Ok::<TtlExtensionView, PolicyError>(
        TtlExtensionView {
            key: DataKeyView::PriceMap,
            threshold: 518_400,
            extend_to: 518_400,
        },
    )
}

/// A price that the administrator sets is in the price map afterwards. Every other price, and
/// everything that is no price, stays.
pub proof fn law_set_price_writes_one_price(
    store: StoreView,
    auth: Seq<char>,
    token: Seq<char>,
    usdc_per_unit: i128,
    other: Seq<char>,
    price: i128,
)
    requires
        store.admin == Some(auth),
    ensures
        ({
            let (after, result) = store.set_price(auth, token, usdc_per_unit);
            &&& keeps_prices_alive(result)
            &&& holds_price(after.price_map, token, usdc_per_unit)
            &&& other != token ==> same_price(after, store, other, price)
            &&& same_but_prices(after, store)
        }),
{
}

/// Setting several prices sets the price of every token of the list, the last one where a token
/// occurs more than once, whatever the length of the list. Every other price, and everything
/// that is no price, stays.
///
/// Lists of different lengths are refused, and so is a list with an item that is no address or
/// no integer; nothing is changed then.
pub proof fn law_set_prices_writes_every_price(
    store: StoreView,
    auth: Seq<char>,
    tokens: Seq<Option<Seq<char>>>,
    prices: Seq<Option<i128>>,
    i: int,
    token: Seq<char>,
    price: i128,
)
    requires
        store.admin == Some(auth),
    ensures
        ({
            let (after, result) = store.set_prices(auth, tokens, prices);
            let readable = forall|j: int|
                0 <= j < tokens.len() ==> #[trigger] tokens[j] is Some && prices[j] is Some;
            &&& tokens.len() != prices.len() ==> after == store && result == Err::<
                TtlExtensionView,
                PolicyError,
            >(PolicyError::LengthMismatch)
            &&& tokens.len() == prices.len() && !readable ==> after == store && result == Err::<
                TtlExtensionView,
                PolicyError,
            >(PolicyError::InvalidItem)
            &&& tokens.len() == prices.len() && readable ==> {
                &&& keeps_prices_alive(result)
                &&& same_but_prices(after, store)
                &&& after.price_map is Some
                &&& 0 <= i < tokens.len() && tokens[i] == Some(token) && (forall|j: int|
                    i < j < tokens.len() ==> #[trigger] tokens[j] != Some(token)) ==> holds_price(
                    after.price_map,
                    token,
                    prices[i]->0,
                )
                &&& (forall|j: int|
                    0 <= j < tokens.len() ==> #[trigger] tokens[j] != Some(token)) ==> same_price(
                    after,
                    store,
                    token,
                    price,
                )
            }
        }),
{
    let readable = forall|j: int|
        0 <= j < tokens.len() ==> #[trigger] tokens[j] is Some && prices[j] is Some;
    if tokens.len() == prices.len() {
        if readable {
            assert(all_some(tokens));
            assert forall|j: int| 0 <= j < prices.len() implies #[trigger] prices[j] is Some by {
                assert(tokens[j] is Some);
            }
            let keys = unwrapped(tokens);
            let values = unwrapped(prices);
            if forall|j: int| 0 <= j < tokens.len() ==> #[trigger] tokens[j] != Some(token) {
                assert forall|j: int| 0 <= j < keys.len() implies keys[j] != token by {
                    assert(tokens[j] != Some(token));
                }
            }
            if 0 <= i < tokens.len() && tokens[i] == Some(token) && (forall|j: int|
                i < j < tokens.len() ==> #[trigger] tokens[j] != Some(token)) {
                assert(keys[i] == token);
                assert forall|j: int| i < j < keys.len() implies keys[j] != token by {
                    assert(tokens[j] != Some(token));
                }
                assert(last_place(keys, token, i));
            }
            lemma_with_prices(store.prices(), keys, values, token, i);
        } else {
            let j = choose|j: int|
                0 <= j < tokens.len() && !(#[trigger] tokens[j] is Some && prices[j] is Some);
            assert(!(all_some(tokens) && all_some(prices)));
        }
    }
}

/// On plain lists, setting prices does what it does on lists whose items all convert.
pub proof fn law_plain_lists_are_set_alike(
    store: StoreView,
    auth: Seq<char>,
    tokens: Seq<Seq<char>>,
    prices: Seq<i128>,
)
    ensures
        store.put_prices(auth, tokens, prices) == store.set_prices(
            auth,
            tokens.map_values(|token: Seq<char>| Some(token)),
            prices.map_values(|price: i128| Some(price)),
        ),
{
    let some_tokens = tokens.map_values(|token: Seq<char>| Some(token));
    let some_prices = prices.map_values(|price: i128| Some(price));
    assert(unwrapped(some_tokens) =~= tokens);
    assert(unwrapped(some_prices) =~= prices);
}

/// What the views give is what the storage holds: 0, or not paused, where it holds nothing.
pub proof fn law_views_read_the_storage(
    store: StoreView,
    token: Seq<char>,
    price: i128,
    wallet: Seq<char>,
    day: u64,
)
    ensures
        store.is_paused() <==> store.paused == Some(true),
        store.daily_limit_usdc is Some ==> store.daily_limit() == store.daily_limit_usdc->0,
        store.daily_limit_usdc is None ==> store.daily_limit() == 0,
        holds_price(store.price_map, token, price) ==> {
            &&& store.cached_price(token) == Some(price)
            &&& store.price(token) == price
        },
        holds_no_price(store.price_map, token) ==> {
            &&& store.cached_price(token) is None
            &&& store.price(token) == 0
        },
        store.daily_spend.contains_key((wallet, day)) ==> store.spent(wallet, day)
            == store.daily_spend[(wallet, day)],
        !store.daily_spend.contains_key((wallet, day)) ==> store.spent(wallet, day) == 0,
        store.spent(wallet, day) < store.daily_limit() ==> store.remaining(wallet, day)
            == store.daily_limit() - store.spent(wallet, day),
        store.daily_limit() <= store.spent(wallet, day) ==> store.remaining(wallet, day) == 0,
{
}

/// A new instance holds nothing.
pub proof fn law_a_new_instance_is_empty(entry: (Seq<char>, u64))
    ensures
        StoreView::empty().admin is None,
        StoreView::empty().paused is None,
        StoreView::empty().usdc_addr is None,
        StoreView::empty().router_addr is None,
        StoreView::empty().daily_limit_usdc is None,
        StoreView::empty().price_map is None,
        !StoreView::empty().daily_spend.contains_key(entry),
{
}

} // verus!
