//! The storage of one policy instance, and what its administrator may do to it.
//!
//! A [`Store`] holds what the entries of the contract's storage hold; an entry that was never
//! written is `None`. The host is asked for each entry before an invocation and is handed the
//! changed ones after it, so an invocation that ends in an error leaves no trace.
use vstd::prelude::*;

use crate::host::{
    address_at, addresses, amount_items, cache_price, cached_price, new_prices, price_entries,
    token_items, token_vals, val_count, vals_of_amounts, vals_of_tokens, Amounts, PriceMap, Tokens,
};
use crate::keys::{current_day, day_of, price_ttl, DataKey, TtlExtension, TtlExtensionView};
use crate::keys::PRICE_TTL_LEDGERS;
use crate::spend::SpendLedger;
use crate::strkey::Strkey;
use crate::valuation::read_amounts;

verus! {

/// Why an invocation ends without effect.
#[derive(Debug, Clone, Copy, PartialEq, Eq, Structural)]
pub enum PolicyError {
    /// The policy has an administrator already.
    AlreadyInitialized,
    /// The policy has no administrator yet, or no USDC contract to value tokens in.
    NotInitialized,
    /// The address whose authorisation is needed has not given it.
    Unauthorized,
    /// The two lists differ in length.
    LengthMismatch,
    /// A list holds an item of another type.
    InvalidItem,
    /// An item of the authorisation contexts is no context.
    InvalidContext,
    /// The last amount that the router returned is no `i128`.
    InvalidQuote,
    /// An amount does not fit in an `i128`.
    Overflow,
}

/// What the storage of an instance holds.
pub struct Store {
    pub admin: Option<Strkey>,
    pub paused: Option<bool>,
    pub usdc_addr: Option<Strkey>,
    pub router_addr: Option<Strkey>,
    pub daily_limit_usdc: Option<i128>,
    pub price_map: Option<PriceMap>,
    pub daily_spend: SpendLedger,
}

/// The mathematical view of a [`Store`]: addresses by their strkeys, the price cache and the
/// spend entries as maps.
#[verifier::ext_equal]
pub struct StoreView {
    pub admin: Option<Seq<char>>,
    pub paused: Option<bool>,
    pub usdc_addr: Option<Seq<char>>,
    pub router_addr: Option<Seq<char>>,
    pub daily_limit_usdc: Option<i128>,
    pub price_map: Option<Map<Seq<char>, i128>>,
    pub daily_spend: Map<(Seq<char>, u64), i128>,
}

/// The view of an address that may be missing.
pub open spec fn strkey_view(address: Option<Strkey>) -> Option<Seq<char>> {
    match address {
        Some(address) => Some(address@),
        None => None,
    }
}

impl View for Store {
    type V = StoreView;

    open spec fn view(&self) -> StoreView {
        StoreView {
            admin: strkey_view(self.admin),
            paused: self.paused,
            usdc_addr: strkey_view(self.usdc_addr),
            router_addr: strkey_view(self.router_addr),
            daily_limit_usdc: self.daily_limit_usdc,
            price_map: match self.price_map {
                Some(prices) => Some(price_entries(prices)),
                None => None,
            },
            daily_spend: self.daily_spend@,
        }
    }
}

/// Writes a list of prices in order: of two prices for one token, the later stays.
pub open spec fn with_prices(
    prices: Map<Seq<char>, i128>,
    tokens: Seq<Seq<char>>,
    values: Seq<i128>,
) -> Map<Seq<char>, i128>
    recommends
        tokens.len() == values.len(),
    decreases tokens.len(),
{
    if tokens.len() == 0 {
        prices
    } else {
        with_prices(prices, tokens.drop_last(), values.drop_last()).insert(
            tokens.last(),
            values.last(),
        )
    }
}

/// The views of a list of addresses, in order.
pub open spec fn strkey_views(addresses: Seq<Strkey>) -> Seq<Seq<char>> {
    addresses.map_values(|address: Strkey| address@)
}

/// Whether every item of a list converts.
pub open spec fn all_some<T>(items: Seq<Option<T>>) -> bool {
    forall|i: int| 0 <= i < items.len() ==> #[trigger] items[i] is Some
}

/// The items of a list that all convert.
pub open spec fn unwrapped<T>(items: Seq<Option<T>>) -> Seq<T> {
    items.map_values(|item: Option<T>| item->0)
}

impl StoreView {
    /// The storage of a new instance.
    pub open spec fn empty() -> StoreView {
        StoreView {
            admin: None,
            paused: None,
            usdc_addr: None,
            router_addr: None,
            daily_limit_usdc: None,
            price_map: None,
            daily_spend: Map::empty(),
        }
    }

    /// Whether requests are denied; an instance is not paused until it is told so.
    pub open spec fn is_paused(self) -> bool {
        self.paused == Some(true)
    }

    /// The daily limit, 0 until there is one.
    pub open spec fn daily_limit(self) -> i128 {
        match self.daily_limit_usdc {
            Some(limit) => limit,
            None => 0,
        }
    }

    /// The price cache, empty until a price is set.
    pub open spec fn prices(self) -> Map<Seq<char>, i128> {
        match self.price_map {
            Some(prices) => prices,
            None => Map::empty(),
        }
    }

    /// The cached price of a token, if it has one.
    pub open spec fn cached_price(self, token: Seq<char>) -> Option<i128> {
        if self.prices().contains_key(token) {
            Some(self.prices()[token])
        } else {
            None
        }
    }

    /// The cached price of a token, or 0.
    pub open spec fn price(self, token: Seq<char>) -> i128 {
        match self.cached_price(token) {
            Some(price) => price,
            None => 0,
        }
    }

    /// What a wallet has spent on a day.
    pub open spec fn spent(self, wallet: Seq<char>, day: u64) -> i128 {
        if self.daily_spend.contains_key((wallet, day)) {
            self.daily_spend[(wallet, day)]
        } else {
            0
        }
    }

    /// What is left of a wallet's budget for a day.
    pub open spec fn remaining(self, wallet: Seq<char>, day: u64) -> int {
        if self.daily_limit() > self.spent(wallet, day) {
            self.daily_limit() - self.spent(wallet, day)
        } else {
            0
        }
    }

    /// What stands in the way of an administrative call that `auth` has authorised.
    pub open spec fn refusal(self, auth: Seq<char>) -> Option<PolicyError> {
        match self.admin {
            None => Some(PolicyError::NotInitialized),
            Some(admin) => if admin == auth {
                None
            } else {
                Some(PolicyError::Unauthorized)
            },
        }
    }

    /// Sets up the instance, once, with the authorisation of the administrator-to-be.
    pub open spec fn initialize(
        self,
        auth: Seq<char>,
        admin: Seq<char>,
        usdc: Seq<char>,
        router: Seq<char>,
        daily_limit_usdc: i128,
    ) -> (StoreView, Result<(), PolicyError>) {
        if self.admin is Some {
            (self, Err(PolicyError::AlreadyInitialized))
        } else if auth != admin {
            (self, Err(PolicyError::Unauthorized))
        } else {
            (
                StoreView {
                    admin: Some(admin),
                    usdc_addr: Some(usdc),
                    router_addr: Some(router),
                    daily_limit_usdc: Some(daily_limit_usdc),
                    ..self
                },
                Ok(()),
            )
        }
    }

    /// Throws the kill switch, one way or the other.
    pub open spec fn set_paused(self, auth: Seq<char>, paused: bool) -> (
        StoreView,
        Result<(), PolicyError>,
    ) {
        match self.refusal(auth) {
            Some(error) => (self, Err(error)),
            None => (StoreView { paused: Some(paused), ..self }, Ok(())),
        }
    }

    /// Changes the daily limit.
    pub open spec fn set_limit(self, auth: Seq<char>, new_limit: i128) -> (
        StoreView,
        Result<(), PolicyError>,
    ) {
        match self.refusal(auth) {
            Some(error) => (self, Err(error)),
            None => (StoreView { daily_limit_usdc: Some(new_limit), ..self }, Ok(())),
        }
    }

    /// Changes the router.
    pub open spec fn set_router(self, auth: Seq<char>, router: Seq<char>) -> (
        StoreView,
        Result<(), PolicyError>,
    ) {
        match self.refusal(auth) {
            Some(error) => (self, Err(error)),
            None => (StoreView { router_addr: Some(router), ..self }, Ok(())),
        }
    }

    /// Caches a price, and asks the host to keep the price map alive.
    pub open spec fn set_price(self, auth: Seq<char>, token: Seq<char>, usdc_per_unit: i128) -> (
        StoreView,
        Result<TtlExtensionView, PolicyError>,
    ) {
        match self.refusal(auth) {
            Some(error) => (self, Err(error)),
            None => (
                StoreView { price_map: Some(self.prices().insert(token, usdc_per_unit)), ..self },
                Ok(price_ttl()),
            ),
        }
    }

    /// Caches the prices of a list of tokens, in order.
    pub open spec fn put_prices(
        self,
        auth: Seq<char>,
        tokens: Seq<Seq<char>>,
        prices: Seq<i128>,
    ) -> (StoreView, Result<TtlExtensionView, PolicyError>) {
        match self.refusal(auth) {
            Some(error) => (self, Err(error)),
            None => if tokens.len() != prices.len() {
                (self, Err(PolicyError::LengthMismatch))
            } else {
                (
                    StoreView {
                        price_map: Some(with_prices(self.prices(), tokens, prices)),
                        ..self
                    },
                    Ok(price_ttl()),
                )
            },
        }
    }

    /// As `put_prices`, on lists whose items may not convert.
    pub open spec fn set_prices(
        self,
        auth: Seq<char>,
        tokens: Seq<Option<Seq<char>>>,
        prices: Seq<Option<i128>>,
    ) -> (StoreView, Result<TtlExtensionView, PolicyError>) {
        match self.refusal(auth) {
            Some(error) => (self, Err(error)),
            None => if tokens.len() != prices.len() {
                (self, Err(PolicyError::LengthMismatch))
            } else if !all_some(tokens) || !all_some(prices) {
                (self, Err(PolicyError::InvalidItem))
            } else {
                self.put_prices(auth, unwrapped(tokens), unwrapped(prices))
            },
        }
    }
}

/// The view of what a price update returns.
pub open spec fn ttl_view(result: Result<TtlExtension, PolicyError>) -> Result<
    TtlExtensionView,
    PolicyError,
> {
    match result {
        Ok(extension) => Ok(extension@),
        Err(error) => Err(error),
    }
}

/// Reads a list of tokens; `None` where an item is no address.
fn read_tokens(tokens: &Tokens) -> (read: Option<Vec<Strkey>>)
    ensures
        read is Some <==> all_some(token_items(*tokens)),
        read is Some ==> strkey_views(read->0@) == unwrapped(token_items(*tokens)),
{
    let ghost items = token_items(*tokens);
    let vals = vals_of_tokens(tokens);
    let count: u32 = val_count(&vals);
    let mut read: Vec<Strkey> = Vec::new();
    let mut i: u32 = 0;
    while i < count
        invariant
            vals == token_vals(*tokens),
            items == addresses(vals),
            count == items.len(),
            i <= count,
            all_some(items.take(i as int)),
            strkey_views(read@) == unwrapped(items.take(i as int)),
        decreases count - i,
    {
        match address_at(&vals, i) {
            Some(strkey) => {
                let ghost before = read@;
                read.push(Strkey::new(strkey));
                assert(items.take(i + 1) =~= items.take(i as int).push(items[i as int]));
                assert(strkey_views(read@) =~= strkey_views(before).push(strkey@));
                assert(unwrapped(items.take(i + 1)) =~= unwrapped(items.take(i as int)).push(
                    strkey@,
                ));
            },
            None => {
                return None;
            },
        }
        i = i + 1;
    }
    assert(items.take(count as int) =~= items);
    Some(read)
}

/// Reads a list of prices; `None` where an item is no `i128`.
fn read_prices(prices: &Amounts) -> (read: Option<Vec<i128>>)
    ensures
        read is Some <==> all_some(amount_items(*prices)),
        read is Some ==> read->0@ == unwrapped(amount_items(*prices)),
{
    let items = read_amounts(prices);
    let mut read: Vec<i128> = Vec::new();
    let mut i: usize = 0;
    while i < items.len()
        invariant
            items@ == amount_items(*prices),
            i <= items@.len(),
            all_some(items@.take(i as int)),
            read@ == unwrapped(items@.take(i as int)),
        decreases items@.len() - i,
    {
        match items[i] {
            Some(price) => {
                read.push(price);
                assert(items@.take(i + 1) =~= items@.take(i as int).push(items@[i as int]));
                assert(unwrapped(items@.take(i + 1)) =~= unwrapped(items@.take(i as int)).push(
                    price,
                ));
            },
            None => {
                return None;
            },
        }
        i = i + 1;
    }
    assert(items@.take(i as int) =~= items@);
    Some(read)
}

impl Store {
    /// The spend entries are well-formed.
    pub open spec fn wf(self) -> bool {
        self.daily_spend.wf()
    }

    /// The storage of a new instance.
    pub fn new() -> (store: Store)
        ensures
            store.wf(),
            store@ == StoreView::empty(),
    {
        Store {
            admin: None,
            paused: None,
            usdc_addr: None,
            router_addr: None,
            daily_limit_usdc: None,
            price_map: None,
            daily_spend: SpendLedger::new(),
        }
    }

    /// What stands in the way of an administrative call that `auth` has authorised.
    fn refusal(&self, auth: &Strkey) -> (refusal: Option<PolicyError>)
        ensures
            refusal == self@.refusal(auth@),
    {
        match &self.admin {
            None => Some(PolicyError::NotInitialized),
            Some(admin) => if admin.same(auth) {
                None
            } else {
                Some(PolicyError::Unauthorized)
            },
        }
    }

    /// Sets up the instance, once, with the authorisation of the administrator-to-be.
    pub fn initialize(
        &mut self,
        auth: &Strkey,
        admin: Strkey,
        usdc: Strkey,
        router: Strkey,
        daily_limit_usdc: i128,
    ) -> (result: Result<(), PolicyError>)
        requires
            old(self).wf(),
        ensures
            final(self).wf(),
            (final(self)@, result) == old(self)@.initialize(
                auth@,
                admin@,
                usdc@,
                router@,
                daily_limit_usdc,
            ),
    {
        if self.admin.is_some() {
            return Err(PolicyError::AlreadyInitialized);
        }
        if !auth.same(&admin) {
            return Err(PolicyError::Unauthorized);
        }
        self.admin = Some(admin);
        self.usdc_addr = Some(usdc);
        self.router_addr = Some(router);
        self.daily_limit_usdc = Some(daily_limit_usdc);
        Ok(())
    }

    /// Throws the kill switch, one way or the other.
    pub fn set_paused(&mut self, auth: &Strkey, paused: bool) -> (result: Result<(), PolicyError>)
        requires
            old(self).wf(),
        ensures
            final(self).wf(),
            (final(self)@, result) == old(self)@.set_paused(auth@, paused),
    {
        if let Some(error) = self.refusal(auth) {
            return Err(error);
        }
        self.paused = Some(paused);
        Ok(())
    }

    /// Changes the daily limit.
    pub fn set_limit(&mut self, auth: &Strkey, new_limit: i128) -> (result: Result<
        (),
        PolicyError,
    >)
        requires
            old(self).wf(),
        ensures
            final(self).wf(),
            (final(self)@, result) == old(self)@.set_limit(auth@, new_limit),
    {
        if let Some(error) = self.refusal(auth) {
            return Err(error);
        }
        self.daily_limit_usdc = Some(new_limit);
        Ok(())
    }

    /// Changes the router.
    pub fn set_router(&mut self, auth: &Strkey, router: Strkey) -> (result: Result<
        (),
        PolicyError,
    >)
        requires
            old(self).wf(),
        ensures
            final(self).wf(),
            (final(self)@, result) == old(self)@.set_router(auth@, router@),
    {
        if let Some(error) = self.refusal(auth) {
            return Err(error);
        }
        self.router_addr = Some(router);
        Ok(())
    }

    /// Takes the price map out of the store, or makes an empty one.
    fn take_prices(&mut self, env: &soroban_sdk::Env) -> (prices: PriceMap)
        requires
            old(self).wf(),
        ensures
            final(self).wf(),
            price_entries(prices) == old(self)@.prices(),
            final(self)@ == (StoreView { price_map: None, ..old(self)@ }),
    {
        match self.price_map.take() {
            Some(prices) => prices,
            None => new_prices(env),
        }
    }

    /// Caches a price, in place of the one that the token had.
    pub fn set_price(
        &mut self,
        env: &soroban_sdk::Env,
        auth: &Strkey,
        token: &Strkey,
        usdc_per_unit: i128,
    ) -> (result: Result<TtlExtension, PolicyError>)
        requires
            old(self).wf(),
        ensures
            final(self).wf(),
            (final(self)@, ttl_view(result)) == old(self)@.set_price(auth@, token@, usdc_per_unit),
    {
        if let Some(error) = self.refusal(auth) {
            return Err(error);
        }
        let mut prices = self.take_prices(env);
        cache_price(&mut prices, token.text.as_str(), usdc_per_unit);
        self.price_map = Some(prices);
        Ok(
            TtlExtension {
                key: DataKey::PriceMap,
                threshold: PRICE_TTL_LEDGERS,
                extend_to: PRICE_TTL_LEDGERS,
            },
        )
    }

    /// Caches a list of prices, in order.
    pub fn put_prices(
        &mut self,
        env: &soroban_sdk::Env,
        auth: &Strkey,
        tokens: &Vec<Strkey>,
        values: &Vec<i128>,
    ) -> (result: Result<TtlExtension, PolicyError>)
        requires
            old(self).wf(),
        ensures
            final(self).wf(),
            (final(self)@, ttl_view(result)) == old(self)@.put_prices(
                auth@,
                strkey_views(tokens@),
                values@,
            ),
    {
        if let Some(error) = self.refusal(auth) {
            return Err(error);
        }
        if tokens.len() != values.len() {
            return Err(PolicyError::LengthMismatch);
        }
        let ghost cached = self@.prices();
        let ghost keys = strkey_views(tokens@);
        let mut prices = self.take_prices(env);
        let mut i: usize = 0;
        while i < tokens.len()
            invariant
                tokens@.len() == values@.len(),
                keys == strkey_views(tokens@),
                i <= tokens@.len(),
                price_entries(prices) == with_prices(
                    cached,
                    keys.take(i as int),
                    values@.take(i as int),
                ),
            decreases tokens@.len() - i,
        {
            cache_price(&mut prices, tokens[i].text.as_str(), values[i]);
            assert(keys.take(i + 1).drop_last() =~= keys.take(i as int));
            assert(values@.take(i + 1).drop_last() =~= values@.take(i as int));
            i = i + 1;
        }
        assert(keys.take(i as int) =~= keys);
        assert(values@.take(i as int) =~= values@);
        self.price_map = Some(prices);
        Ok(
            TtlExtension {
                key: DataKey::PriceMap,
                threshold: PRICE_TTL_LEDGERS,
                extend_to: PRICE_TTL_LEDGERS,
            },
        )
    }

    /// Caches a list of prices as the host hands it over.
    pub fn set_prices(
        &mut self,
        env: &soroban_sdk::Env,
        auth: &Strkey,
        tokens: &Tokens,
        prices_vec: &Amounts,
    ) -> (result: Result<TtlExtension, PolicyError>)
        requires
            old(self).wf(),
        ensures
            final(self).wf(),
            (final(self)@, ttl_view(result)) == old(self)@.set_prices(
                auth@,
                token_items(*tokens),
                amount_items(*prices_vec),
            ),
    {
        if let Some(error) = self.refusal(auth) {
            return Err(error);
        }
        if val_count(&vals_of_tokens(tokens)) != val_count(&vals_of_amounts(prices_vec)) {
            return Err(PolicyError::LengthMismatch);
        }
        match (read_tokens(tokens), read_prices(prices_vec)) {
            (Some(keys), Some(values)) => self.put_prices(env, auth, &keys, &values),
            _ => Err(PolicyError::InvalidItem),
        }
    }

    /// Whether requests are denied.
    pub fn is_paused(&self) -> (paused: bool)
        ensures
            paused == self@.is_paused(),
    {
        match self.paused {
            Some(paused) => paused,
            None => false,
        }
    }

    /// The daily limit, 0 until there is one.
    pub fn daily_limit(&self) -> (limit: i128)
        ensures
            limit == self@.daily_limit(),
    {
        match self.daily_limit_usdc {
            Some(limit) => limit,
            None => 0,
        }
    }

    /// The cached price of a token, if it has one.
    pub fn cached_price(&self, token: &Strkey) -> (price: Option<i128>)
        ensures
            price == self@.cached_price(token@),
    {
        match &self.price_map {
            Some(prices) => cached_price(prices, token.text.as_str()),
            None => None,
        }
    }

    /// The cached price of a token, 0 where it has none.
    pub fn get_price(&self, token: &Strkey) -> (price: i128)
        ensures
            price == self@.price(token@),
    {
        match self.cached_price(token) {
            Some(price) => price,
            None => 0,
        }
    }

    /// What a wallet has spent on the day of ledger `sequence`.
    pub fn spent_today(&self, sequence: u32, signer: &Strkey) -> (spent: i128)
        requires
            self.wf(),
        ensures
            spent == self@.spent(signer@, day_of(sequence)),
            0 <= spent,
    {
        let day: u64 = current_day(sequence);
        proof {
            if self@.daily_spend.contains_key((signer@, day)) {
                self.daily_spend.lemma_amounts_not_negative((signer@, day));
            }
        }
        match self.daily_spend.get(signer, day) {
            Some(spent) => spent,
            None => 0,
        }
    }

    /// What is left of a wallet's budget for the day of ledger `sequence`.
    pub fn remaining(&self, sequence: u32, signer: &Strkey) -> (remaining: i128)
        requires
            self.wf(),
        ensures
            remaining == self@.remaining(signer@, day_of(sequence)),
    {
        let limit: i128 = self.daily_limit();
        let spent: i128 = self.spent_today(sequence, signer);
        if limit > spent {
            limit - spent
        } else {
            0
        }
    }
}

} // verus!
