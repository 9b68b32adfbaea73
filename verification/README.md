# portal

A unified access portal: users sign in once, pick a tenant, and enter the
subsystems they are allowed into with a one-time ticket; administrators manage
accounts, tenants, roles, subsystems, permission assignments, sub-administrators
and the audit trail.

## Layout

- `src/` is the library, verified with Verus. It decides what the portal does:
  the effective-permission computation (`permissions`, with its laws in
  `permission_laws`), which stored assignments and grants are in effect at a given
  time (`validity`), sessions, passwords and tickets (`auth`), the home page and
  entering a subsystem (`portal`), the console's checks, lists, SQL statements and
  exports (`admin`, `account`, `edits`, `filters`, `links`, `overview`, `sql`),
  settings (`config`), JSON handling and masking of secrets (`json`), request ids and
  the response envelope (`middleware`, `response`), and which front-end file a path
  names (`web`).
- `app/` is the server around it: the HTTP routes, the PostgreSQL queries, the
  cookie and request plumbing, and the seeding program (`portal seed`).
- `tests/` exercise the library on concrete values.

Calls into outside crates (UUID parsing, bcrypt, random numbers, hex and base64,
URL and percent decoding, JSON encoding, media types) go through small trusted
wrappers whose contracts say what the library relies on.
