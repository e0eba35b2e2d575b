# keys

A store of secret values kept per API key. The server files each value under
the SHA-256 digest of its owner's key, sealed with AES-256-GCM under a master
key and a fresh nonce; the command-line client reads, writes, deletes and
migrates values from a dotenv file.

- `src/` is the library, verified with Verus: API keys and their base64 and
  digest forms (`api_key`, `encoding`), the master key and sealing (`cipher`),
  the database rows (`db`), the server's decisions (`api`, `server`), and the
  client's (`client`, `cli`). Calls into `base64`, `hex`, `sha256`,
  `aes-gcm`, `rand` and `url` stand behind small trusted wrappers whose
  contracts name what those crates compute.
- `app/` is the program around it: the axum server with its SQLite queries,
  the reqwest client, and the clap command line.
- `tests/` runs the library on concrete values.
