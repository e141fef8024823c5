# metalog

A registry of metadata records ("metalogs") keyed by decentralized identifiers
(DIDs), verified with Verus. An account creates a metalog for a DID it
claims, can hand it to another account, buy a unique name for it (paying the
unique name account), and change its license code or storage location.

- `src/store.rs`: a finite key-value store kept as a list of distinct entries,
  viewed as a `Map`.
- `src/types.rs`: metalogs, origins, events, errors and the size limits.
- `src/spec.rs`: the storage as plain maps, and what each call does to it.
- `src/module.rs`: the storage and its calls, each proved to do what
  `spec.rs` says; a refused call leaves the storage unchanged.
- `src/consistency.rs`: the storage stays consistent: each account's list
  holds exactly the DIDs it owns, each at the slot before its recorded
  position and with the DID's metalog, and every DID with a metalog has an
  owner. Genesis builds such storage and every call keeps it so.
- `src/laws.rs`: other properties that hold across calls (a DID is claimed
  once, only its owner acts on it, a transfer moves the DID's metalog, a
  unique name is sold once, ...).
- `app/`: the encoded forms of metalogs and events, and a unique name
  purchase whose payment the balances module makes.

The caller supplies what comes from outside: the signer of a call (its
`Origin`), the current time, and the outcome of the payment for a unique name,
which `unique_name_payment` describes before `buy_unique_name` completes the
purchase.
