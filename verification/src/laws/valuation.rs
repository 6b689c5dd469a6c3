//! What tokens are worth.
use vstd::prelude::*;

use vstd::arithmetic::div_mod::lemma_div_multiples_vanish;

use crate::laws::administration::{holds_no_price, holds_price};
use crate::store::{PolicyError, StoreView};
use crate::valuation::{
    fits, quote_request, quoted_value, usdc_value, value_at, QuoteRequestView, ValuationView,
    NO_VALUE, UNIT,
};

verus! {

/// USDC is valued at face value, whatever the prices and the router.
pub proof fn law_usdc_at_face_value(
    store: StoreView,
    contract: Seq<char>,
    usdc: Seq<char>,
    amount: i128,
    quote: Option<i128>,
)
    requires
        store.usdc_addr == Some(usdc),
    ensures
        usdc_value(store, contract, usdc, amount, quote) == Ok::<ValuationView, PolicyError>(
            ValuationView::Known(amount),
        ),
{
}

/// A cached price decides before the router does: the router is not asked, and an answer of
/// its is not used.
pub proof fn law_cached_price_before_router(
    store: StoreView,
    contract: Seq<char>,
    token: Seq<char>,
    price: i128,
    amount: i128,
    quote: Option<i128>,
)
    requires
        store.usdc_addr is Some,
        store.usdc_addr != Some(token),
        store.cached_price(token) == Some(price),
    ensures
        usdc_value(store, contract, token, amount, quote) == (if fits(amount * price) {
            Ok::<ValuationView, PolicyError>(
                ValuationView::Known(value_at(amount, price) as i128),
            )
        } else {
            Err(PolicyError::Overflow)
        }),
{
}

/// The router is asked only of a token that is not USDC and has no cached price, and only
/// where the router is not the instance itself. It is asked what the amount of the token
/// brings in USDC.
pub proof fn law_router_last(
    store: StoreView,
    contract: Seq<char>,
    token: Seq<char>,
    amount: i128,
    quote: Option<i128>,
    request: QuoteRequestView,
)
    requires
        usdc_value(store, contract, token, amount, quote) == Ok::<ValuationView, PolicyError>(
            ValuationView::Pending(request),
        ),
    ensures
        quote is None,
        store.usdc_addr is Some,
        store.usdc_addr != Some(token),
        store.cached_price(token) is None,
        store.router_addr is Some,
        store.router_addr != Some(contract),
        request == quote_request(store.router_addr->0, token, store.usdc_addr->0, amount),
{
}

/// A token without a price has no value where there is no router, or the router is the
/// instance itself.
pub proof fn law_unpriced_without_router(
    store: StoreView,
    contract: Seq<char>,
    token: Seq<char>,
    amount: i128,
    quote: Option<i128>,
)
    requires
        store.usdc_addr is Some,
        store.usdc_addr != Some(token),
        store.cached_price(token) is None,
        store.router_addr is None || store.router_addr == Some(contract),
    ensures
        usdc_value(store, contract, token, amount, quote) == Ok::<ValuationView, PolicyError>(
            ValuationView::Known(NO_VALUE),
        ),
        NO_VALUE < 0,
{
}

/// A price is what one whole token is worth: `n` tokens are worth `n` times the price.
pub proof fn law_whole_tokens(n: int, amount: i128, price: i128)
    requires
        amount == n * UNIT,
    ensures
        value_at(amount, price) == n * price,
{
    let d = UNIT as int;
    let product = n * price;
    assert(amount * price == product * d) by (nonlinear_arith)
        requires
            amount == n * d,
            product == n * price,
    ;
    if product >= 0 {
        assert(product * d >= 0) by (nonlinear_arith)
            requires
                product >= 0,
                d > 0,
        ;
        lemma_div_multiples_vanish(product, d);
        assert(product * d == d * product) by (nonlinear_arith);
    } else {
        assert(product * d < 0) by (nonlinear_arith)
            requires
                product < 0,
                d > 0,
        ;
        lemma_div_multiples_vanish(-product, d);
        assert(-(product * d) == d * (-product)) by (nonlinear_arith);
    }
}

/// A valuation rounds towards zero and is less than one stroop off. It fits in an `i128` where
/// the product of amount and price does.
pub proof fn law_rounding(amount: i128, price: i128)
    ensures
        0 <= amount * price ==> 0 <= value_at(amount, price) && value_at(amount, price) * UNIT
            <= amount * price < (value_at(amount, price) + 1) * UNIT,
        amount * price <= 0 ==> value_at(amount, price) <= 0 && (value_at(amount, price) - 1)
            * UNIT < amount * price <= value_at(amount, price) * UNIT,
        fits(amount * price) ==> fits(value_at(amount, price)),
{
}

/// Of all tokens, a new price changes what its own is worth alone.
pub proof fn law_price_concerns_its_token(
    store: StoreView,
    auth: Seq<char>,
    token: Seq<char>,
    usdc_per_unit: i128,
    contract: Seq<char>,
    other: Seq<char>,
    amount: i128,
    quote: Option<i128>,
)
    requires
        other != token,
    ensures
        usdc_value(
            store.set_price(auth, token, usdc_per_unit).0,
            contract,
            other,
            amount,
            quote,
        ) == usdc_value(store, contract, other, amount, quote),
{
}

/// A token that is not USDC and has a cached price is worth its amount times the price, by ten
/// million, rounded towards zero. A product that does not fit in an `i128` is an error.
pub proof fn law_priced_token(
    store: StoreView,
    contract: Seq<char>,
    usdc: Seq<char>,
    token: Seq<char>,
    price: i128,
    amount: i128,
    quote: Option<i128>,
)
    requires
        store.usdc_addr == Some(usdc),
        token != usdc,
        holds_price(store.price_map, token, price),
    ensures
        ({
            let worth = usdc_value(store, contract, token, amount, quote);
            let product = amount * price;
            &&& product < i128::MIN || i128::MAX < product ==> worth == Err::<
                ValuationView,
                PolicyError,
            >(PolicyError::Overflow)
            &&& i128::MIN <= product <= i128::MAX ==> {
                &&& worth matches Ok(ValuationView::Known(value))
                &&& 0 <= product ==> value * 10_000_000 <= product < (value + 1) * 10_000_000
                &&& product <= 0 ==> (value - 1) * 10_000_000 < product <= value * 10_000_000
            }
        }),
{
}

/// A token that is not USDC and has no cached price is worth what the router says. The router is
/// asked by `router_get_amounts_out`, with the amount and the way from the token to USDC, and its
/// answer is taken as it is.
pub proof fn law_router_is_asked(
    store: StoreView,
    contract: Seq<char>,
    usdc: Seq<char>,
    router: Seq<char>,
    token: Seq<char>,
    amount: i128,
    quote: i128,
)
    requires
        store.usdc_addr == Some(usdc),
        token != usdc,
        holds_no_price(store.price_map, token),
        store.router_addr == Some(router),
        router != contract,
    ensures
        ({
            &&& usdc_value(store, contract, token, amount, None) matches Ok(
                ValuationView::Pending(request),
            )
            &&& request.router == router
            &&& request.function == "router_get_amounts_out"@
            &&& request.amount == amount
            &&& request.path == seq![token, usdc]
        }),
        usdc_value(store, contract, token, amount, Some(quote)) == Ok::<
            ValuationView,
            PolicyError,
        >(ValuationView::Quoted(quote)),
{
}

/// What nothing gives a value is worth less than 0: a token that is not USDC, has no cached
/// price, and has no router but the instance itself to ask. Without a USDC contract there is no
/// valuation.
pub proof fn law_no_value(
    store: StoreView,
    contract: Seq<char>,
    token: Seq<char>,
    amount: i128,
    quote: Option<i128>,
)
    ensures
        store.usdc_addr is None ==> usdc_value(store, contract, token, amount, quote) == Err::<
            ValuationView,
            PolicyError,
        >(PolicyError::NotInitialized),
        store.usdc_addr is Some && store.usdc_addr != Some(token) && holds_no_price(
            store.price_map,
            token,
        ) && (store.router_addr is None || store.router_addr == Some(contract)) ==> {
            &&& usdc_value(store, contract, token, amount, quote) matches Ok(
                ValuationView::Known(value),
            )
            &&& value == -1
        },
{
}

/// Of what the router answers, the last amount is the value, however many stand before it. A
/// call that failed, and an answer without an amount, stand for no value.
pub proof fn law_last_amount_is_the_quote(amounts: Seq<Option<i128>>, value: i128)
    ensures
        quoted_value(Some(amounts.push(Some(value)))) == Ok::<i128, PolicyError>(value),
        quoted_value(Some(amounts.push(None))) == Err::<i128, PolicyError>(
            PolicyError::InvalidQuote,
        ),
        quoted_value(Some(Seq::empty())) matches Ok(none) && none == -1,
        quoted_value(None) matches Ok(none) && none == -1,
{
}

} // verus!
