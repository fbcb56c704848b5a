# shortlink

The verified core of a link-shortening web service, written in Verus.

- `src/` is the library. `controllers/` holds the decisions of the request
  handlers: drawing short codes, the steps of creating a shortlink or a
  domain (as step functions: the caller performs each lookup and hands the
  answer back), what an edit writes, how a listing is built and answered,
  and the route tables. `models/` holds the records written to the tables
  and the queries run on them, the per-user domain limit, and a model of
  the domains table over which the registration rules are proved.
  `migration/` describes the tables each migration creates and drops.
  `rng.rs` and `text.rs` hold the few calls into `rand` and `std` that are
  trusted rather than proved.
- `app/` is the service around it: HTTP handlers, database access and
  migrations, which read requests, run the queries and send the replies
  that the library decides on.
- `tests/` runs the library on concrete values.
