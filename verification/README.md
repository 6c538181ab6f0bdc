# dyt — doneyet CLI, with a verified core

`dyt` is the command-line client for the **doneyet** workflow / job tracker.
It wraps the doneyet REST API so producers and operators never assemble
`curl` invocations, `Authorization` headers or JSON bodies by hand.

The project is split in two:

- `src/` is a library verified with [Verus](https://github.com/verus-lang/verus).
  It holds every decision the CLI takes: how the configuration is resolved
  (flags and environment over the config file over the default), how API
  paths and query strings are built and percent-encoded, which credential
  each request carries and how its `Authorization` header is formed, what
  JSON body each command sends, how HTTP failures are turned into messages,
  how secrets are masked, where a freshly minted token may be shown, and
  which columns each table shows and what its cells display. Each public function states its result in its
  `ensures` clause; the laws that span functions are proof functions.
- `app/` is the `dyt` binary: argument parsing (clap), the config file on
  disk, the HTTP transport (reqwest/tokio), terminal prompts and printing.

## Layout

| Path | Contents |
| --- | --- |
| `src/text.rs` | string building, Unicode trimming, ASCII upper-casing, decimals |
| `src/url.rs` | percent-encoding of path segments and query values, with its laws |
| `src/json.rs` | the reads of JSON values the library makes (through `serde_json`) |
| `src/config.rs` | stored and resolved configuration |
| `src/client.rs` | request URLs, `Authorization` headers, response outcomes |
| `src/request.rs` | the request model: method, path, credential, body |
| `src/output.rs` | table headers and cells; the columns live with each command |
| `src/commands/` | per subcommand: arguments, requests and decisions |
| `app/` | the binary |
| `tests/` | tests of the library on concrete values |
