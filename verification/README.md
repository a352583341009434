# doodleswap

The request-handling logic of the doodleswap backend, verified with Verus.

- `src/` is the library. Each route's decisions stand there with contracts:
  credential validation (`dto::requests::auth`), login, registration as a
  step-by-step state machine, session claims and cookies
  (`controllers::auth`), and character uploads, from the `content-length`
  and quota checks through every multipart field and chunk to the stored row
  (`controllers::character`). Replies are plain values (`reply::Reply`).
  Password hashing (`bcrypt`), email and length validation (`validator`),
  image type detection (`infer`) and session token signing (`jsonwebtoken`)
  are called through small trusted wrappers.
- `app/` is the server around it: configuration, routes, database queries,
  file I/O, reading the clock and the signing secret, decoding session
  tokens, and the serde copies of the library's types.
- `tests/` exercises the library on concrete values.
