# sui-subnet

The virtual machine of a subnet, written and proved in Verus.

- `src/vm/` is the machine: what it remembers, and the calls that the consensus
  engine makes. A call that needs stored blocks is a value that names what it waits
  for; `resume` takes what came back. `src/vm/initialize.rs`, `build_block.rs`,
  `parse_block.rs`, `get_block.rs` and `last_accepted.rs` hold one call each.
- `src/api/` is the JSON-RPC handler of the chain.
- `src/laws.rs` states what holds over several calls and over whole runs of a call.
- The other modules hold the types that these share.
- `app/` runs the machine under the engine: it takes the locks, reads and writes
  blocks, starts the cluster, and awaits. It is not verified.

What is trusted:

- The functions marked `external_body`. Each wraps a call into `avalanche-types`,
  `bytes`, `chrono` or `jsonrpc-core`, with what makes its argument or takes its
  result apart, and says above itself what it claims.
- The outside types: `bytes::Bytes` and `std::io::Error`, which are declared, and
  `jsonrpc_core::IoHandler`, which `MethodTable` holds.
- The two names for what such a value holds: `method_names` for the methods of a
  `MethodTable`, `bytes_content` for the bytes of a `Bytes`.
