# hot_or_not_backend

The rules of the HotOrNot backend canisters as a library verified with
Verus: daily missions and their rewards, rate limits and video generation
requests, user profiles and follows, the notification store, the video
dedup index, and the user index's canister bookkeeping.

- `src/` is the library. Every function carries a contract that Verus
  proves; each module's `laws.rs` states and proves what holds across
  calls. The caller of a request, whether it is an administrator, and the
  time are arguments, so the library never reads them from the platform.
- `app/` holds the canisters' endpoints: it reads the caller, the time and
  stable memory from the Internet Computer, calls the library, and converts
  between the library's types and their Candid forms.
- `tests/` runs the library on concrete values.

The state lives on the heap in the library's own verified maps and sets
(`KeyedVec`, `PrincipalSet`, `HashIndex`), and `app/` writes it to stable
memory as CBOR across upgrades. The stable-memory maps of
`ic-stable-structures` would need each of the library's record types to
implement that crate's `Storable` trait, that is, a byte encoding of every
record kept inside the library; `app/` may not implement another crate's
trait for the library's types.
