# cockpit_codex

Shows the remaining quota of a Codex account, or of the account pool of a local API service, in the
renderer of a running Codex profile, and keeps the quotas of all accounts up to date. Every decision
is made in a library that is proved with Verus; `app/` holds the tasks, locks, sockets and requests
around it.

## Layout

| Where | What |
| --- | --- |
| `src/launch.rs` | launch arguments with a loopback debugging port, and the port of a running process |
| `src/account.rs`, `src/settings.rs` | accounts, bindings of profiles, the user's settings |
| `src/quota.rs` | the figures that are shown, of a pool and of a single account |
| `src/gateway.rs`, `src/quota_url.rs` | the gateway in a profile's configuration and its quota endpoint |
| `src/script.rs`, `src/script_body.rs`, `src/json.rs` | the injected script and its literals |
| `src/cdp.rs` | messages to and from the renderer |
| `src/injection.rs` | the rounds of a display |
| `src/runtime.rs` | the tasks of running profiles, and restoring them |
| `src/pool.rs` | refreshes that the display asks for |
| `src/refresh.rs`, `src/backoff.rs` | the way of a refresh through locks and permits, and waiting after failures |
| `src/concurrency.rs` | what holds of any number of refreshes at once |
| `src/schedule.rs` | which accounts are due |
| `src/text.rs`, `src/table.rs` | texts and tables |
| `app/` | the program around the library, generic over its host |
| `tests/` | tests of the library |

## Contracts

Each function states what it returns over mathematical models of its arguments. Properties that span
functions are public proof functions whose names begin with `law_`. Calls into `serde_json`,
`toml_edit` and `reqwest`'s URL type stand behind small wrappers, whose contracts are believed and
say in their comments what they claim.
