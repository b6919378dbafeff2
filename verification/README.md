# blinks

The verified core of a payment platform. `src/` is a Verus library: the state
machines of the payment contracts and the decisions of the backend services
around them. `app/` is ordinary Rust that connects the library to the ledger's
host, Redis, PostgreSQL, Prometheus and HTTP.

## The contracts

Each contract is a struct that holds its state, with one method per call. A
call takes the surroundings (`env::Env`: ledger number, time, the contract's
address), demands authorizations, changes the state and records effects:
transfers, events, the reentrancy guard, extensions of storage. A call that
fails changes nothing and records nothing. The host adapter demands the
authorizations, writes the state and then performs the effects in order.

| Module             | Contract                                             |
|--------------------|------------------------------------------------------|
| `splitter`         | splits payments by percentages and fixed amounts     |
| `escrow`           | escrow with votes, appeals and arbitration           |
| `payment_escrow`   | escrow released by milestones and deadlines          |
| `recovery`         | cases of failed payments                             |
| `verification`     | checks of payments (with `duplicates`)               |
| `limits`           | spending limits per user and overall                 |
| `compliance`       | risk scores of payments                              |
| `analytics`        | payment counters per token, merchant and time bucket |
| `advanced_payment` | escrow, splitting and voting in one contract         |

## The backend

`rate_limit` (with `windows`), `disputes`, `cache`, `metrics` (with `paths`),
`versioning` and `version_docs` decide; `app/` reads and writes. `ids` and
`text` serve them.

## What is proved

Every public function has a contract over mathematical models, and the public
proof functions named `law_...` state what holds across calls: what a split
pays out, that a settled escrow pays no more, that every transfer happens
under the guard, that no more requests than allowed pass in any window, that
only a payment with the same payer, merchant and amount counts as a duplicate.

In `escrow` two calls are left out of what is said of settled escrows: an
`appeal` reopens a settled escrow, and `execute_arbitration_decision` can pay
it again while its dispute stays `Resolved`.

## What is trusted

`uuid` (reading, writing and making identifiers), `regex` (replacing), `dashmap`
(the map of request times) and `String::push`. Each item that is believed
without proof says in its comment what it claims.
