# pullpiri

The decisions of three services that run applications on the nodes of a vehicle, written and
proved in Verus, and the services around them.

- `src/` is the library. All of its own logic is verified; what it has from outside is taken
  at its word, by the items listed below.
  - `statemanager/`: the state machine for scenarios, packages and models; the manager that
    works out the states of models and packages from reports on containers.
  - `nodeagent/`: configuration, workload requests, and liveness probes.
  - `policymanager.rs`: policy checks and the reports on them.
  - `k8s/`: pods.
  - `messages.rs`, `string_map.rs`, `grouping.rs`, `text.rs`: what the others share.
- `tests/` runs the library.
- `app/` holds the services: files, network, tasks.

The contract of a function says what it returns by a function from plain values to plain
values, such as `step` for a request to the state machine. What holds of several of them
together is stated by the proof functions whose names begin with `law_`.

## What is not proved

The contracts of the following functions are believed. Each makes one call to another crate or
to the standard library, and says in its comment what it claims of that call.

| Function | Call |
| --- | --- |
| `statemanager::action_queue::open_action_queue` | `tokio::sync::mpsc::unbounded_channel` |
| `statemanager::action_queue::queue_action` | `tokio::sync::mpsc::UnboundedSender::send` |
| `statemanager::clock::read_instant` | `tokio::time::Instant::now` |
| `statemanager::clock::nanoseconds_since` | `tokio::time::Instant::elapsed` |
| `statemanager::clock::read_system_time` | `SystemTime::now` |
| `statemanager::clock::nanoseconds_since_epoch` | `SystemTime::duration_since` |
| `String::push`, declared in `text.rs` | `String::push` |
| `text::lowercase_str` | `str::to_lowercase` |
| `text::quoted_str` | `format!` with `{:?}` |
| `nodeagent::probe::checker::parses_as_uri` | `hyper::Uri`, parsed from a string |

The names `accepted_actions`, `receiver_closed`, `joined`, `lowercase`, `quoted` and `is_uri`
stand for what these calls do or return. The outside types `UnboundedSender`,
`UnboundedReceiver`, `Instant` and `SystemTime` are opaque.
