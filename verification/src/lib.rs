//! Spend policies for the signers of a Soroban smart account.
//!
//! A policy holds each wallet that it is attached to, to a daily limit in USDC. There are two:
//! [`agent_spend_policy::AgentSpendPolicy`] values the first transfer of a request,
//! [`agent_spend_policy_v2::AgentSpendPolicyV2`] every transfer and every approval.
//!
//! The rules are functions from the storage of a policy instance ([`store::Store`]), the facts
//! of an invocation ([`policy::Invocation`]) and a request to the next storage and an answer.
//! Their contracts are stated over [`store::StoreView`], the mathematical view of the storage,
//! and what follows from them as a whole is proved in [`laws`]. The calls into the host that
//! the rules rest on are in [`host`].
pub mod agent_spend_policy;
pub mod agent_spend_policy_v2;
pub mod context;
pub mod host;
pub mod keys;
pub mod laws;
pub mod policy;
pub mod spend;
pub mod store;
pub mod strkey;
pub mod valuation;
