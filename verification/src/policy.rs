//! What a smart account asks of a spend policy, and the daily limit itself.
use vstd::prelude::*;

use crate::context::{operations, OperationView};
use crate::host::Contexts;
use crate::keys::{current_day, day_of, spend_ttl, DataKey, DataKeyView, TtlExtension};
use crate::keys::{TtlExtensionView, SPEND_TTL_LEDGERS};
use crate::store::{PolicyError, Store, StoreView};
use crate::strkey::Strkey;
use crate::valuation::{QuoteRequest, QuoteRequestView};

verus! {

/// What the host says of the invocation that it runs.
#[derive(Debug)]
pub struct Invocation {
    /// The address of the policy instance.
    pub contract: Strkey,
    /// The sequence number of the current ledger.
    pub sequence: u32,
    /// The address whose authorisation the host has confirmed.
    pub auth: Strkey,
}

pub struct InvocationView {
    pub contract: Seq<char>,
    pub sequence: u32,
    pub auth: Seq<char>,
}

impl View for Invocation {
    type V = InvocationView;

    open spec fn view(&self) -> InvocationView {
        InvocationView { contract: self.contract@, sequence: self.sequence, auth: self.auth@ }
    }
}

/// A spend entry to write, and the lifetime to ask for it.
#[derive(Debug)]
pub struct Commit {
    pub key: DataKey,
    pub spent: i128,
    pub ttl: TtlExtension,
}

pub struct CommitView {
    pub key: DataKeyView,
    pub spent: i128,
    pub ttl: TtlExtensionView,
}

impl View for Commit {
    type V = CommitView;

    open spec fn view(&self) -> CommitView {
        CommitView { key: self.key@, spent: self.spent, ttl: self.ttl@ }
    }
}

/// How far the decision on a request has come.
#[derive(Debug)]
pub enum AuthStep {
    /// The request is authorised; a spend is to be recorded, if there was one.
    Allowed(Option<Commit>),
    /// The request is not authorised.
    Denied,
    /// The router has to be asked; its answer joins the quotes, and the question is put again.
    Pending(QuoteRequest),
}

pub enum AuthStepView {
    Allowed(Option<CommitView>),
    Denied,
    Pending(QuoteRequestView),
}

impl View for AuthStep {
    type V = AuthStepView;

    open spec fn view(&self) -> AuthStepView {
        match *self {
            AuthStep::Allowed(Some(commit)) => AuthStepView::Allowed(Some(commit@)),
            AuthStep::Allowed(None) => AuthStepView::Allowed(None),
            AuthStep::Denied => AuthStepView::Denied,
            AuthStep::Pending(request) => AuthStepView::Pending(request@),
        }
    }
}

pub open spec fn step_view(result: Result<AuthStep, PolicyError>) -> Result<
    AuthStepView,
    PolicyError,
> {
    match result {
        Ok(step) => Ok(step@),
        Err(error) => Err(error),
    }
}

/// A storage and the outcome of the call that left it so.
pub type Outcome = (StoreView, Result<AuthStepView, PolicyError>);

/// Charges `value` to the budget of a wallet for the day of `sequence`: refused where the
/// wallet would have spent more than the limit, else recorded.
pub open spec fn charged(store: StoreView, sequence: u32, wallet: Seq<char>, value: i128)
    -> Outcome {
    let day = day_of(sequence);
    let spent = store.spent(wallet, day) + value;
    if spent > i128::MAX {
        (store, Err(PolicyError::Overflow))
    } else if spent > store.daily_limit() {
        (store, Ok(AuthStepView::Denied))
    } else {
        (
            StoreView {
                daily_spend: store.daily_spend.insert((wallet, day), spent as i128),
                ..store
            },
            Ok(
                AuthStepView::Allowed(
                    Some(
                        CommitView {
                            key: DataKeyView::DailySpend(wallet, day),
                            spent: spent as i128,
                            ttl: spend_ttl(wallet, day),
                        },
                    ),
                ),
            ),
        )
    }
}

/// Charges a value to the budget of a wallet for the current day.
pub(crate) fn charge(
    store: &mut Store,
    sequence: u32,
    wallet: &Strkey,
    value: i128,
) -> (result: Result<AuthStep, PolicyError>)
    requires
        old(store).wf(),
        0 < value,
    ensures
        final(store).wf(),
        (final(store)@, step_view(result)) == charged(old(store)@, sequence, wallet@, value),
{
    let limit: i128 = store.daily_limit();
    let day: u64 = current_day(sequence);
    let spent: i128 = match store.spent_today(sequence, wallet).checked_add(value) {
        Some(spent) => spent,
        None => {
            return Err(PolicyError::Overflow);
        },
    };
    if spent > limit {
        return Ok(AuthStep::Denied);
    }
    store.daily_spend.set(wallet, day, spent);
    Ok(
        AuthStep::Allowed(
            Some(
                Commit {
                    key: DataKey::DailySpend(wallet.clone(), day),
                    spent,
                    ttl: TtlExtension {
                        key: DataKey::DailySpend(wallet.clone(), day),
                        threshold: SPEND_TTL_LEDGERS,
                        extend_to: SPEND_TTL_LEDGERS,
                    },
                },
            ),
        ),
    )
}

/// The answer to a call that `source` has to authorise.
pub open spec fn source_check(auth: Seq<char>, source: Seq<char>) -> Result<(), PolicyError> {
    if auth == source {
        Ok(())
    } else {
        Err(PolicyError::Unauthorized)
    }
}

/// Whether the wallet that a call is about has authorised it.
pub(crate) fn check_source(auth: &Strkey, source: &Strkey) -> (result: Result<(), PolicyError>)
    ensures
        result == source_check(auth@, source@),
{
    if auth.same(source) {
        Ok(())
    } else {
        Err(PolicyError::Unauthorized)
    }
}

/// What a smart account asks of a policy that is attached to one of its signers. `source` is
/// the wallet.
pub trait SmartAccountPolicy {
    /// What the policy answers to a request, and the storage that it leaves. `quotes` are the
    /// router's answers so far, in the order in which they were asked for.
    spec fn decision(
        store: StoreView,
        invocation: InvocationView,
        source: Seq<char>,
        contexts: Seq<OperationView>,
        quotes: Seq<i128>,
    ) -> Outcome;

    /// The policy is attached to a signer.
    fn on_add(invocation: &Invocation, source: &Strkey) -> (result: Result<(), PolicyError>)
        ensures
            result == source_check(invocation@.auth, source@),
    ;

    /// The policy is detached from a signer.
    fn on_revoke(invocation: &Invocation, source: &Strkey) -> (result: Result<(), PolicyError>)
        ensures
            result == source_check(invocation@.auth, source@),
    ;

    /// Whether the wallet may do what the contexts say.
    fn is_authorized(
        store: &mut Store,
        invocation: &Invocation,
        source: &Strkey,
        contexts: &Contexts,
        quotes: &Vec<i128>,
    ) -> (result: Result<AuthStep, PolicyError>)
        requires
            old(store).wf(),
        ensures
            final(store).wf(),
            (final(store)@, step_view(result)) == Self::decision(
                old(store)@,
                invocation@,
                source@,
                operations(*contexts),
                quotes@,
            ),
    ;
}

} // verus!
