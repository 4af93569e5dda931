# vlt1

A single-user, single-machine encrypted vault. Immutable encrypted object
versions live in SQLite, an owner-only Unix socket serves them, and every
storage, format, invariant or authentication failure locks the vault.

The library under `src/` is verified with Verus. It computes on plain values:
rows go in, transactions, requests and responses come out. The programs under
`app/` own the database, the sockets, the files and the network, and carry out
what the library decides.

| Module | Contents |
|---|---|
| `bytes`, `text` | Big-endian numbers, hexadecimal, decimal and trimming. |
| `primitives` | Contracts of the outside ciphers, hashes, signatures and encodings. |
| `format`, `cde` | Identifiers, records and the canonical manifest encoding. |
| `crypto` | Key hierarchy, sealed records, contexts and the chunk digest. |
| `writer`, `reader` | Encrypting a version, whole or streamed, and reading it back. |
| `storage` | Rows, transactions and a model of the tables they act on. |
| `witness`, `provider` | Signed receipts and heads, and the rule by which a witness advances. |
| `wire`, `https_provider`, `witness_service` | The witness protocol on both of its sides. |
| `vault` | The locked/unlocked lifecycle and every operation on it. |
| `protocol`, `daemon`, `cli`, `bench` | Frames, request dispatch and the clients. |
| `backup`, `path_safety`, `private_file` | Snapshots, path checks and file modes. |

What the modules state together, as proof functions beside the code:

- a read gives back exactly what was written, whole or streamed, witnessed or not;
- a publication is visible completely or not at all, and never changes another
  object or an earlier version;
- deleted, inserted or reordered chunks make a version unreadable;
- the manifest decoder accepts one spelling of each manifest;
- contexts, signed messages and hashed transcripts determine what they bind;
- a repeated witness request gets the same receipt and a stale one a conflict;
- witnessed writes and sweeps succeed only where the witness was asked for the
  object's head and confirmed the local receipt, so a rolled-back store is refused;
- passphrase rotation keeps every object readable;
- a locked vault refuses every secret operation, and only an unlock request
  unlocks it.

Cryptographic strength is outside the proofs: the ciphers, hashes and signatures
are named functions with the few facts that `primitives` lists.
