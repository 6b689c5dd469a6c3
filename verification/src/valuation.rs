//! What a token amount is worth in USDC.
//!
//! A token is valued, in this order, as USDC itself, by its cached price, or by a quote of the
//! router. The quote comes from another contract, so a valuation may end in a
//! [`QuoteRequest`]; it is then made again with the router's answer.
use vstd::prelude::*;

use crate::context::read_integers;
use crate::host::{amount_items, vals_of_amounts, Amounts};
use crate::store::{PolicyError, Store, StoreView};
use crate::strkey::Strkey;

verus! {

/// One token, in units of its seven decimals.
pub const UNIT: i128 = 10_000_000;

/// The value of a token that nothing gives a value.
pub const NO_VALUE: i128 = -1;

/// A call to make: `function(amount, path)` on `router`.
#[derive(Debug)]
pub struct QuoteRequest {
    pub router: Strkey,
    pub function: String,
    pub amount: i128,
    pub path: Vec<Strkey>,
}

#[verifier::ext_equal]
pub struct QuoteRequestView {
    pub router: Seq<char>,
    pub function: Seq<char>,
    pub amount: i128,
    pub path: Seq<Seq<char>>,
}

impl View for QuoteRequest {
    type V = QuoteRequestView;

    open spec fn view(&self) -> QuoteRequestView {
        QuoteRequestView {
            router: self.router@,
            function: self.function@,
            amount: self.amount,
            path: self.path@.map_values(|address: Strkey| address@),
        }
    }
}

/// The question to the router: what `amount` of the token brings in USDC.
pub open spec fn quote_request(
    router: Seq<char>,
    token: Seq<char>,
    usdc: Seq<char>,
    amount: i128,
) -> QuoteRequestView {
    QuoteRequestView {
        router,
        function: "router_get_amounts_out"@,
        amount,
        path: seq![token, usdc],
    }
}

/// How a token is valued.
pub enum Pricing {
    /// The token is USDC.
    Identity,
    /// The token has a cached price, in USDC stroops per 1.0 token.
    Rate(i128),
    /// The router is asked.
    Router(Seq<char>),
    /// Nothing gives the token a value.
    Unpriced,
    /// There is no USDC contract to value it in.
    NoUsdc,
}

/// How the instance at address `contract` values a token. An instance that has its own
/// address for a router has none.
pub open spec fn pricing(store: StoreView, contract: Seq<char>, token: Seq<char>) -> Pricing {
    match store.usdc_addr {
        None => Pricing::NoUsdc,
        Some(usdc) => if token == usdc {
            Pricing::Identity
        } else {
            match store.cached_price(token) {
                Some(price) => Pricing::Rate(price),
                None => match store.router_addr {
                    Some(router) => if router == contract {
                        Pricing::Unpriced
                    } else {
                        Pricing::Router(router)
                    },
                    None => Pricing::Unpriced,
                },
            }
        },
    }
}

/// The quotient of two integers, rounded towards zero.
pub open spec fn truncating_div(n: int, d: int) -> int {
    if n >= 0 {
        n / d
    } else {
        -((-n) / d)
    }
}

/// What `amount` is worth at `price` per [`UNIT`], rounded towards zero.
pub open spec fn value_at(amount: i128, price: i128) -> int {
    truncating_div(amount * price, UNIT as int)
}

pub open spec fn fits(n: int) -> bool {
    i128::MIN <= n <= i128::MAX
}

/// A valuation, or the question that it hangs on.
#[derive(Debug)]
pub enum Valuation {
    /// A value that the store alone gives; negative where nothing gives the token a value.
    Known(i128),
    /// The value that the router answered.
    Quoted(i128),
    /// The router has to be asked first.
    Pending(QuoteRequest),
}

pub enum ValuationView {
    Known(i128),
    Quoted(i128),
    Pending(QuoteRequestView),
}

impl View for Valuation {
    type V = ValuationView;

    open spec fn view(&self) -> ValuationView {
        match *self {
            Valuation::Known(value) => ValuationView::Known(value),
            Valuation::Quoted(value) => ValuationView::Quoted(value),
            Valuation::Pending(request) => ValuationView::Pending(request@),
        }
    }
}

pub open spec fn valuation_view(result: Result<Valuation, PolicyError>) -> Result<
    ValuationView,
    PolicyError,
> {
    match result {
        Ok(valuation) => Ok(valuation@),
        Err(error) => Err(error),
    }
}

/// What `amount` of a token is worth in USDC stroops, `quote` being the router's answer if it
/// has been asked.
pub open spec fn usdc_value(
    store: StoreView,
    contract: Seq<char>,
    token: Seq<char>,
    amount: i128,
    quote: Option<i128>,
) -> Result<ValuationView, PolicyError> {
    match pricing(store, contract, token) {
        Pricing::NoUsdc => Err(PolicyError::NotInitialized),
        Pricing::Identity => Ok(ValuationView::Known(amount)),
        Pricing::Rate(price) => if fits(amount * price) {
            Ok(ValuationView::Known(value_at(amount, price) as i128))
        } else {
            Err(PolicyError::Overflow)
        },
        Pricing::Router(router) => match quote {
            Some(value) => Ok(ValuationView::Quoted(value)),
            None => Ok(
                ValuationView::Pending(
                    quote_request(router, token, store.usdc_addr->0, amount),
                ),
            ),
        },
        Pricing::Unpriced => Ok(ValuationView::Known(NO_VALUE)),
    }
}

/// Divides a product of an amount and a price by [`UNIT`].
fn divide_by_unit(product: i128) -> (quotient: i128)
    ensures
        quotient == truncating_div(product as int, UNIT as int),
{
    product / UNIT
}

/// What `amount` of a token is worth in USDC stroops.
///
/// `contract` is the address of the policy instance, `quote` the router's answer if it has
/// been asked.
pub fn to_usdc_value(
    store: &Store,
    contract: &Strkey,
    token: &Strkey,
    amount: i128,
    quote: Option<i128>,
) -> (result: Result<Valuation, PolicyError>)
    ensures
        valuation_view(result) == usdc_value(store@, contract@, token@, amount, quote),
{
    let usdc = match &store.usdc_addr {
        Some(usdc) => usdc,
        None => {
            return Err(PolicyError::NotInitialized);
        },
    };
    if token.same(usdc) {
        return Ok(Valuation::Known(amount));
    }
    if let Some(price) = store.cached_price(token) {
        return match amount.checked_mul(price) {
            Some(product) => Ok(Valuation::Known(divide_by_unit(product))),
            None => Err(PolicyError::Overflow),
        };
    }
    let router = match &store.router_addr {
        Some(router) => router,
        None => {
            return Ok(Valuation::Known(NO_VALUE));
        },
    };
    if router.same(contract) {
        return Ok(Valuation::Known(NO_VALUE));
    }
    match quote {
        Some(value) => Ok(Valuation::Quoted(value)),
        None => {
            let mut path: Vec<Strkey> = Vec::new();
            path.push(token.clone());
            path.push(usdc.clone());
            let request = QuoteRequest {
                router: router.clone(),
                function: "router_get_amounts_out".to_owned(),
                amount,
                path,
            };
            assert(request@ =~= quote_request(router@, token@, usdc@, amount));
            Ok(Valuation::Pending(request))
        },
    }
}

/// The value that an answer of the router stands for: its last amount, or [`NO_VALUE`] where the
/// call failed or the router returned no amount.
pub open spec fn quoted_value(reply: Option<Seq<Option<i128>>>) -> Result<i128, PolicyError> {
    match reply {
        None => Ok(NO_VALUE),
        Some(amounts) => if amounts.len() == 0 {
            Ok(NO_VALUE)
        } else {
            match amounts.last() {
                Some(value) => Ok(value),
                None => Err(PolicyError::InvalidQuote),
            }
        },
    }
}

/// The value that the amounts of a successful call stand for.
pub fn last_amount(amounts: &Vec<Option<i128>>) -> (value: Result<i128, PolicyError>)
    ensures
        value == quoted_value(Some(amounts@)),
{
    if amounts.len() == 0 {
        return Ok(NO_VALUE);
    }
    match amounts[amounts.len() - 1] {
        Some(value) => Ok(value),
        None => Err(PolicyError::InvalidQuote),
    }
}

/// Reads every amount of a list.
pub fn read_amounts(amounts: &Amounts) -> (read: Vec<Option<i128>>)
    ensures
        read@ == amount_items(*amounts),
{
    read_integers(&vals_of_amounts(amounts))
}

/// The value that an answer of the router stands for; `None` is a call that failed.
pub fn router_quote(reply: &Option<Amounts>) -> (value: Result<i128, PolicyError>)
    ensures
        value == quoted_value(
            match *reply {
                Some(amounts) => Some(amount_items(amounts)),
                None => None,
            },
        ),
{
    match reply {
        Some(amounts) => last_amount(&read_amounts(amounts)),
        None => Ok(NO_VALUE),
    }
}

} // verus!
