# agent_spend_policy

Spend policies for the signers of a Soroban smart account, verified with Verus.

A policy instance holds each wallet that it is attached to, to a daily limit in USDC. Tokens are
valued at face value (USDC), by a price that the administrator has cached, or by a quote of a
router; what has no value is refused. The administrator can pause an instance, change its limit
and router, and set prices.

- `AgentSpendPolicy` goes by the first `transfer` of a request.
- `AgentSpendPolicyV2` counts every `transfer` and every `approve`.

## Layout

| Path | What it holds |
|------|---------------|
| `src/agent_spend_policy.rs`, `src/agent_spend_policy_v2.rs` | the two policies |
| `src/policy.rs` | what a smart account asks of a policy, and the daily limit |
| `src/valuation.rs` | what tokens are worth |
| `src/store.rs`, `src/spend.rs`, `src/keys.rs` | the storage of an instance |
| `src/context.rs`, `src/strkey.rs` | requests and addresses as plain values |
| `src/host.rs` | the calls into `soroban_sdk` that are believed without proof |
| `src/laws/` | what holds of the library as a whole |
| `app/` | the contracts: storage, authorisation and the router's calls |
| `tests/` | scenarios, run against the host of `soroban_sdk` |

The rules are functions from a `Store`, the facts of an invocation and a request to the next
`Store` and an answer. Where a value hangs on the router, the answer is the question to put to
it; the request is then decided again with the router's answer.
