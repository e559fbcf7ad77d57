# authkit

The identity and authentication core of a web service, written in Verus.

- `src/` is the verified library: the password policy and the email,
  username, permission and role value objects; the user aggregate; the
  configuration read from environment variables; opaque token issuing and
  hashing; bcrypt and Argon2 password hashing; bearer-header and cookie
  parsing; sessions; JWT claims; and the policy that chains several
  authenticators (first decisive answer wins). Calls into outside crates
  (hash functions, Base64, UUIDs, the clock, random bytes, bcrypt, Argon2,
  `email_address`, Fred's URL parser) sit behind small trusted wrappers whose
  contracts are documented next to them.
- `app/` is the unverified edge: reading the environment, async ports,
  PostgreSQL (SQLx) and Redis (Fred) adapters, JWT signing and verification
  with `jsonwebtoken`, and the async loops that drive the authenticator
  chains step by step.
- `tests/` exercises the library on concrete values.
