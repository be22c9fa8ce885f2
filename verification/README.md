# WPressForge

A manager for WordPress servers: a panel that keeps sites, servers, jobs and people,
and an agent on each node that runs containers, Nginx, databases, certificates and
backups. This crate is the logic of both, written in Rust and proved with Verus.

## Layout

- `src/common`: models, errors, labels, and the messages between panel and agent.
- `src/agent`: what a node does. An operation is a plan, a list of stages made of
  tasks; `plan.rs` says how a plan is walked through and what its timeline reports,
  `ops/` holds the plans, and `ops/dispatch.rs` turns a request into a plan and the end
  of a plan into an answer. `exec.rs` quotes for shells and keeps secrets out of logs.
- `src/panel`: sessions, form tokens, one-time codes, sealed secrets, alerts, mail, jobs,
  and what stored columns stand for (`db/`).
- `src/text.rs`, `digits.rs`, `clock.rs`, `json.rs`, `crypto.rs`, `expiring.rs`: the ground
  the rest stands on. `json.rs`, `clock.rs` and `crypto.rs` hold most of the calls into
  other crates; each says what is claimed of the call.
- `app/`: the two programs around the library: sockets, files, processes, SQL and the
  JSON forms of the models.
- `tests/`: tests of the library.

## Reading the contracts

An executable function that computes a value names a spec function over `Seq<char>`,
`Map` and `int` in its `ensures`; the spec function says what the value is. Properties
that span functions are public proof functions whose names begin with `law_`.

What rests on chance or on the clock is drawn in one place and handed to functions that
are proved for every value of it: passwords and identifiers come in as `Fresh`, times as
`UtcTime`. What an operation does to its host is a sequence of actions, performed by
`app/`, whose outcomes are handed back to the plan.
