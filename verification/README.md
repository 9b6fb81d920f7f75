# privara

The Privara backend keeps payroll and governance data for DAOs: sensitive
fields are stored AES-256-GCM encrypted under keys derived per field kind,
amounts and voters are represented by salted SHA-256 commitments, and
sessions are JWTs carrying organization-scoped claims.

- `src/` is the verified library (Verus). Its contracts state what every
  rule of the service decides: field sealing and reading back, the payroll,
  proposal and vote checks, login and session claims, and how the Fhenix
  JSON-RPC answers are read.
- `app/` is the Axum server: environment, MySQL, HTTP, JSON and JWT
  signing, calling the library for every decision.
- `tests/` exercises the library on concrete values.
