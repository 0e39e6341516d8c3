# atlas_sh

The `atlas sh` plugin of the Atlas CLI launches `mongosh` against an Atlas
cluster: it looks up the cluster's SRV address, creates a short-lived database
user, caches its credentials in the OS keychain, and starts mongosh with them,
forwarding any argument it does not recognise.

This crate holds the verified part of the plugin, proved with Verus:

- `src/grammar.rs`, `src/args.rs`: the command-line grammar as a specification
  over characters, and the parser proved to follow it; `src/grammar_laws.rs`
  proves properties of the grammar (forwarding, required and default options).
- `src/domain.rs`: names and secrets, and the keychain account of a cluster.
- `src/time.rs`: UTC instants, the clock, RFC 3339 text.
- `src/credentials.rs`: cached credentials, their expiry, and what keychain
  reads and deletions yield.
- `src/session.rs`, `src/temp_user.rs`: the decisions of a session: the
  project, the reuse of cached credentials, the temporary user, and the
  arguments mongosh is started with.
- `src/flow.rs`: the course of a session as a machine from stage and event to
  the next stage and action, with the order of its steps proved.

`app/` is the program around it. It parses the command line with the library
and leaves to clap only the help, version and usage messages when the library
refuses a command line; it drives the session machine, performing each action
(the profile, the keychain, the Atlas API, starting mongosh).

`tests/` exercises the library, and checks the grammar against clap
configured as the plugin's command line.
