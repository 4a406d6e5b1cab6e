# socketfi

Verified logic of the SocketFi smart-account protocol on Soroban.

- `src/` is the library, written in Verus. Every function states its
  behaviour in `requires`/`ensures` over mathematical models (views), and the
  laws that relate several operations are public proof functions:
  - `account`, `account_auth`, `key_types`, `webauthn`, `bls`: account owners
    (passkey, Stellar, EVM), their proofs, guardian keys, pausing, rotation
    and recovery, and the checks of `__check_auth`;
  - `session`, `session_ids`: delegated session policies and their limits;
  - `factory`: account-creation challenges, replay tombstones, deployment;
  - `fees`, `fee_types`: fee configuration, conversion and fee decisions;
  - `identity`, `platform`, `key_set`, `byte_order`: user ids, identity keys,
    the validator set and identity binding;
  - `payments`, `tokens`: social payments, claims, refunds, approvals;
  - `governance`, `proposal_types`, `upgrade_types`: upgrade voting;
  - `address`, `address_set`, `bytes`, `xdr`, `constants`, `errors`, `crypto`:
    shared values, encodings and the host hash functions.
- `tests/` runs the library on concrete values, including comparisons of its
  encodings and digests with the host's.
- `app/` holds the Soroban contracts: storage, authorization, token
  transfers, cross-contract calls, deployment and the host signature checks,
  around calls into the library.
