# nifty

The nifty and linky Holochain zomes, with their logic verified by Verus.

Each zome function is a plan (`src/nifty_zome.rs`, `src/linky_zome.rs`): from
its input and the conductor's replies so far it gives the next host call, or
its result. The contracts state each plan exactly; `src/laws.rs` proves what
holds across steps (a failed host call ends the function with that call's
error, a finished function stays finished, every plan ends after a bounded
number of calls, and the full conversation of `create`).

`src/encoding.rs` serializes link tags and writes hashes into messages through
`holochain_serialized_bytes` and `holo_hash`; the contracts state both results
(MessagePack string header plus UTF-8 bytes; `u` plus URL-safe base64). `app/` holds the externs: the
entry types with their hdk derives, and the loop that performs each host call
with the hdk and hands the reply back to the plan.

Dependencies: `hdk` is the zome SDK; `holo_hash` is the hash crate that `hdk`
builds on (for `holo_hash_encode` and `EntryHashB64`). `serde` is named because
the derives that `#[hdk_entry]` writes in `app/` refer to `serde::` by path.
`rmp` is pinned to 0.8.10 only because `rmp-serde` 0.15, which `hdk` pulls in,
does not compile against later `rmp` releases; nothing here calls it directly.
