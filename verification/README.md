# figure_backend

The backend of a figure-sharing site: users sign up and in, keep a profile,
and post figures (images with a title and a description) that others browse.

- `src/` is the verified library. It holds the rules of the domain (which
  e-mail addresses, passwords, usernames and image sizes are accepted), the
  data transfer objects sent to clients, sessions and their cookies, the SQL
  text the repositories send and what their answers become, and the checks a
  figure upload goes through. Every function there carries a contract that
  Verus proves; the few calls into other crates (grapheme segmentation,
  lower-casing, UTF-8 decoding, URL parsing, image decoding and re-encoding) stand behind
  small trusted wrappers whose contracts are documented where they are
  declared.
- `app/` is the HTTP server around it: axum routes and middleware, the
  PostgreSQL, Redis and S3 clients, and the JSON encoding of the library's
  types.
- `tests/` exercises the library from outside, with the real outside crates
  linked.
