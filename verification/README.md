# aeko_programs

Verified logic of the Aeko permissioned-subnet on-chain programs: the
permission registry, revocation registry, subnet registry, finality oracle,
emergency multisig, token-20, public mint, NFT marketplace and the social
programs (posts, anti-spam, monetization, rewards, staking).

Every program is a module under `src/` with:

- `types.rs`: its account and instruction types, their byte layout (Borsh
  compatible) as spec functions, and readers and writers proved against it;
- `instruction.rs`: builders of its instructions;
- `state.rs`: the rules on its accounts;
- `processor.rs`: `Processor::process`, whose contract is a spec function
  from the accounts before the instruction (`ContextModel`) and the instruction
  bytes to the result and the accounts after it.

`runtime.rs` models the accounts an instruction sees (`InstructionContext`).
Where a program needs something only its host can provide (the clock, the
id of another program whose accounts it reads, the decoded state of an
account of another program, a cross-program invocation or a lamport transfer
through the system program), the processor takes it as an argument or hands
back what is to be done, so that the decision itself stays verified. The public proof functions named `law_*` state the properties the
programs keep across calls.
