# apollo_swarm

The coordination rules of the Apollo Swarm Solana program, verified with Verus:
agent registration, swarms and their memberships, the task lifecycle,
approvals, and the settlement of rewards from a swarm's treasury.

## Layout

- `src/` — the verified library.
  - `apollo_swarm.rs` — the thirteen instructions. Each checks the account
    constraints of its context (`try_accounts`) and then applies its rule
    (`handler`). Accounts to create come back as values; transfers come back
    for the runtime to make.
  - `instructions/` — the account contexts, their constraint checks and the
    handlers, one file per instruction.
  - `state/`, `events.rs`, `errors.rs`, `constants.rs` — the stored accounts,
    the announcements, the error codes and the limits.
  - `pda.rs` — program derived addresses. The derivation itself is the
    outside crate's (`Pubkey::create_program_address`,
    `Pubkey::try_find_program_address`), reached through two trusted wrappers.
  - `laws.rs` — properties that span the instructions: the share cap, the
    agreement of a swarm's books with its memberships, removal undoing
    addition, the task lifecycle, the numbering of tasks, final states,
    verification by coordination model, settlement within the reward and to
    each member once, canonical addresses, who may act.
- `tests/` — tests run against the real outside crate.
- `app/` — the on-chain program around the library: it reads and writes
  accounts, creates and closes them, moves lamports and emits events.
