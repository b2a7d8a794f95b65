# CraftNexus onboarding

User onboarding for the CraftNexus marketplace: users register under unique
usernames as buyers or artisans, an admin gives roles and verifies users, and an
escrow contract reports trades, by which artisans earn reputation and become
verified on their own.

- `src/` is the verified library. Every entry point is a function on an
  `Invocation`: the persistent entries, the time, the addresses that have
  authorized the call, and the list of effects on the host. A refused call returns
  the reason and changes nothing.
- `src/model.rs` says what each entry point answers and does; `src/laws/` says what
  holds of all calls and of sequences of calls.
- `app/` is the contract on a Soroban host. It loads the entries that a call looks
  at, has the host check the authorization, and carries out the effects.
- `tests/` runs the library on concrete values.

## Usernames

Usernames are compared in normalized form: leading and trailing spaces stripped,
ASCII letters in lower case. Bytes that are no UTF-8 normalize to the empty name,
which is too short to register.

## Schema versions

Profiles are stored with a schema version. A profile that was stored without one is
read as a profile of the current version and written back at once, with all other
fields as they were.
