# oracle-court

The dispute court of a prediction market, with its rules proved in Verus.

When a posted outcome is challenged, the market waits for its arbiter, this
court. Eligible voters decide YES, NO or VOID, one vote each; when voting ends
anyone may close the case, and the court sends its decision to the market.

## Layout

- `src/` — the verified library.
  - `state.rs`: choices, the config, cases, and their views.
  - `error.rs`: the court's refusals and their texts.
  - `msg.rs`, `prophecy.rs`: the messages the court takes, sends and reads.
  - `text.rs`: decimal numbers, for the ruling text.
  - `contract.rs`: config rules, instantiation and updates, counting votes,
    the decision, closing a case, the `CanVote` answer.
  - `admission.rs`: whether an address may vote, as steps that each ask the
    market (or the voting-power source) one question or decide.
  - `store.rs`: what the court keeps between calls and how each call
    changes it, with the laws across calls: one vote per voter, counts equal
    the recorded votes, the stored config stays valid, closing is final,
    open cases keep their rules, anyone may close, and a vote and `CanVote`
    answer alike.
  - `laws.rs`: what holds across these: the steps follow the rule stated at
    once, voters with a conflict never vote, the rules of an open case are
    frozen, voting and closing never overlap, closing is final, and the
    decision treats the sides alike.
- `app/` — the CosmWasm contract: entry points, storage, queries and
  messages, which drive the library.
- `tests/` — the court's cases against an in-memory market, and the rules one
  by one.
