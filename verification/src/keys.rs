//! Storage keys and the lifetimes of the entries under them.
use vstd::prelude::*;

use crate::strkey::Strkey;

verus! {

/// Ledgers that close in about twenty-four hours, at five seconds each.
pub const LEDGERS_PER_DAY: u64 = 17_280;

/// Lifetime of a spend entry, about forty-eight hours: twice the length of a day, so that an
/// entry survives the end of the day that it counts for.
pub const SPEND_TTL_LEDGERS: u32 = 34_560;

/// Lifetime of the price map, about thirty days.
pub const PRICE_TTL_LEDGERS: u32 = 518_400;

/// Key of one entry of the contract's storage.
#[derive(Debug, PartialEq, Eq)]
pub enum DataKey {
    /// Instance storage: who administers the policy.
    Admin,
    /// Instance storage: the kill switch.
    Paused,
    /// Instance storage: the USDC token contract.
    UsdcAddr,
    /// Instance storage: the router that quotes tokens without a cached price.
    RouterAddr,
    /// Instance storage: the most that a wallet may spend in a day, in USDC stroops.
    DailyLimitUsdc,
    /// Persistent storage: the price cache.
    PriceMap,
    /// Temporary storage: what a wallet has spent on a day, in USDC stroops.
    DailySpend(Strkey, u64),
}

pub enum DataKeyView {
    Admin,
    Paused,
    UsdcAddr,
    RouterAddr,
    DailyLimitUsdc,
    PriceMap,
    DailySpend(Seq<char>, u64),
}

impl View for DataKey {
    type V = DataKeyView;

    open spec fn view(&self) -> DataKeyView {
        match *self {
            DataKey::Admin => DataKeyView::Admin,
            DataKey::Paused => DataKeyView::Paused,
            DataKey::UsdcAddr => DataKeyView::UsdcAddr,
            DataKey::RouterAddr => DataKeyView::RouterAddr,
            DataKey::DailyLimitUsdc => DataKeyView::DailyLimitUsdc,
            DataKey::PriceMap => DataKeyView::PriceMap,
            DataKey::DailySpend(wallet, day) => DataKeyView::DailySpend(wallet@, day),
        }
    }
}

/// A request to the host: if the entry under `key` has fewer than `threshold` ledgers to
/// live, let it live for `extend_to` ledgers from now.
#[derive(Debug, PartialEq, Eq)]
pub struct TtlExtension {
    pub key: DataKey,
    pub threshold: u32,
    pub extend_to: u32,
}

pub struct TtlExtensionView {
    pub key: DataKeyView,
    pub threshold: u32,
    pub extend_to: u32,
}

impl View for TtlExtension {
    type V = TtlExtensionView;

    open spec fn view(&self) -> TtlExtensionView {
        TtlExtensionView {
            key: self.key@,
            threshold: self.threshold,
            extend_to: self.extend_to,
        }
    }
}

/// What writing the price map asks of the host.
pub open spec fn price_ttl() -> TtlExtensionView {
    TtlExtensionView {
        key: DataKeyView::PriceMap,
        threshold: PRICE_TTL_LEDGERS,
        extend_to: PRICE_TTL_LEDGERS,
    }
}

/// What writing a spend entry asks of the host.
pub open spec fn spend_ttl(wallet: Seq<char>, day: u64) -> TtlExtensionView {
    TtlExtensionView {
        key: DataKeyView::DailySpend(wallet, day),
        threshold: SPEND_TTL_LEDGERS,
        extend_to: SPEND_TTL_LEDGERS,
    }
}

/// The day that a ledger falls on.
pub open spec fn day_of(sequence: u32) -> u64 {
    (sequence as u64) / LEDGERS_PER_DAY
}

/// The current day number, from the sequence number of the current ledger.
pub fn current_day(sequence: u32) -> (day: u64)
    ensures
        day == day_of(sequence),
{
    (sequence as u64) / LEDGERS_PER_DAY
}

} // verus!
