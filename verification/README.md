# predict-agent

An agent for the AWP Predict WorkNet: it looks at open markets for crypto assets, has a model
analyse one of them, and submits a prediction whether the price goes up or down.

- `src/` is the library, verified with Verus. It takes every decision: how requests are signed
  and what answers mean (`auth`, `crypto`, `client`), registration on the AWP network
  (`awp_register`), the commands `preflight`, `submit`, `status`, `result` and `set-persona`, and
  the prediction loop with its prompt and the reading of the model's reply (`cmd`).
- `app/` is the program around it: arguments, requests, subprocesses, the clock, and decimals of
  floating-point numbers.
- `tests/` runs the library on concrete values.

An error is a `Failure`: what it says itself, and together with its causes.

A command or a round that alternates between requests and decisions is a state machine: a `Stage`
and an `Event` go in, the next `Stage` and an `Action` come out, and the program carries the action
out. Each type has a view, and each contract says what the view of a result is.

JSON values, hashes, signatures and times come from `serde_json`, `hex`, `sha3`, `k256` and
`chrono`. The few functions that call them are marked `external_body`, and say in their contracts
what is taken for granted.
