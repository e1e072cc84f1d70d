# listo_rs

A shared shopping list service: families of users share lists of items,
members are told over a web socket when a list changes, and users sign in
with a password or a passkey.

- `src/` is the verified core (Verus): session cookies and tokens, cookie and
  header reading, the registration form checks, password hashing, language
  negotiation and translation lookup, the guards in front of the API, the decisions of the sign-up
  and sign-in endpoints, the passkey ceremonies, change notifications, and
  the SQL parameters of the stored records. Calls into `cookie`, `http`,
  `jsonwebtoken`, `argon2`, `uuid`, `validator`, `unic-langid`, `fluent`
  and `webauthn-rs` stand behind small trusted functions whose contracts say
  what those crates do.
- `app/` is the server around it: routes (axum), the database (mysql_async),
  templates (tera; the message files are read here), reCAPTCHA (reqwest) and the socket.
- `tests/` runs the library on concrete values.
