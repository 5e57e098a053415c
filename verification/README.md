# filebelt_database

The metadata repository of Filebelt, verified with Verus.

PostgreSQL is the authority for tenants, identities, sessions, drives, nodes, access control,
uploads, collaborative editing, document sessions, media previews and the registrations of MCP
servers. Each operation of the repository is a conversation with it: run a statement, look at the
answer, go on, stop with an error, or commit. The library holds these conversations as pure
functions. An operation takes its input and the replies so far, and returns the next `Step`: a
command to perform, its result, or its error. The contract of each operation gives that step for
every log of replies.

## Layout

- `src/step.rs`, `src/row.rs`, `src/progress.rs`: steps, replies, and long conversations that are
  told piece by piece.
- `src/sql/`: the statements.
- `src/tenant.rs`, `src/identity.rs`, `src/namespace.rs`, `src/acl.rs`, `src/authorization.rs`,
  `src/upload.rs`, `src/job.rs`: the catalog.
- `src/collaboration*.rs`, `src/document*.rs`, `src/media.rs`, `src/mcp/`: what is built on it.
- `src/laws.rs`: laws that span operations.
- `src/repeats.rs`: laws about a call and the calls after it: what a first call records, and what a
  second call makes of it.
- `src/tables/`: what the statements do to the rows of a tenant, and laws about the rows before and
  after an operation. The effect of each statement is read off its text. It is a premise of these
  laws: the contracts of the operations do not rest on it.
- Laws about one operation stand beside it: that it runs in one transaction (`..._is_atomic`), that
  it goes past its authorization fence only with the generations that it has locked
  (`..._is_fenced`), that its statements are about its tenant (`..._is_scoped`).
- `app/`: the connection pool, which performs the commands and hands back the replies.
