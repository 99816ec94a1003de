# ocmapi

A container management API over `podman`, served over HTTP or HTTPS with
basic authentication and CEF logging.

The request handling is a verified library (`src/`, checked with Verus):
every handler is a function from the request, the configured values it
needs, and what its earlier steps brought back, to its next step — run a
program, run a command line in bash, probe, write or remove a file, draw a
random number — or to the reply. Each handler's contract states that step
exactly, over mathematical models of text, program output and replies;
`src/properties.rs` states what holds across handlers (what is refused
before anything runs, what a deletion needs, which options never reach
podman, what every log entry looks like).

Layout:

- `src/text.rs`, `src/number.rs`: text handling and integer parsing.
- `src/effect.rs`, `src/reply.rs`, `src/output.rs`: steps, replies, and
  reading program output.
- `src/checks.rs`: the character checks, made with the `regex` crate.
- `src/common.rs`, `src/containers.rs`, `src/pods.rs`, `src/networks.rs`,
  `src/files.rs`, `src/create.rs`: the endpoints.
- `src/auth.rs`, `src/config.rs`, `src/logs.rs`: login, configuration and
  log lines.
- `app/`: the server itself — configuration file, actix-web routes, running
  the steps, and writing the log.
- `tests/`: tests of the library on concrete values.
