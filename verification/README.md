# subtensor_node

The decision logic of a Subtensor node service, verified with Verus.

- `src/service.rs`: which services a full node runs (import queue, GRANDPA
  networking and voter, block production, offchain workers, the manual-seal
  command sink), the shared components (telemetry, frontier database) and the
  chain operations, with laws relating them.
- `src/timestamp.rs`: Aura slots, the pending block's timestamp, and the mock
  clock of a manually sealed chain.
- `src/extrinsic.rs`: the state machines that relay imported extrinsic hashes
  from the transaction pool to RPC subscribers, with laws over whole runs.
- `src/hash_text.rs`: the text of a hash sent to subscribers (`0x` and 64
  lowercase hex digits), taken from `sp_core::H256`.
- `src/executor.rs`: the native executor type.
- `app/`: the Substrate wiring that builds the components, spawns the tasks and
  runs the relay loops, following the library's plans and state machines.
