# amm_program

A constant-product automated market maker for a pair of token mints. The
library in `src/` decides every instruction of a pool, and Verus proves what
it decides:

- `instructions/initialize.rs`: the pool's configuration;
- `instructions/deposit.rs`: the X and Y amounts a deposit takes and the LP
  tokens it mints;
- `instructions/swap.rs`: the protocol fee, the question put to the curve,
  and where each token of a swap goes;
- `instructions/withdraw.rs`: the proportional share a withdrawal pays;
- `state.rs`: the configuration and the seeds of the pool's addresses;
- `laws.rs`: properties that span several instructions.

`app/` is the on-chain program: account validation, token transfers, and the
constant-product curve, whose answers it hands to the library.
